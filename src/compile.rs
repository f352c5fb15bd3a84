use vstd::prelude::*;
use crate::errors::{message_of, MatchMakerError};
use crate::models::Bot;
use crate::text::views;

verus! {

/// Where each bot is unpacked and compiled, in a directory named by its id.
pub const BOTS_WORKDIR: &'static str = "./resources/workdir/bots";

/// What `std::path::Path::extension` gives for a path.
pub uninterp spec fn extension_of(p: Seq<char>) -> Option<Seq<char>>;

/// What `std::path::Path::file_name` gives for a path.
pub uninterp spec fn file_name_of(p: Seq<char>) -> Option<Seq<char>>;

/// Relies on std::path::Path::extension: the extension of the final component
/// of the path, if it has one.
#[verifier::external_body]
fn path_extension(p: &str) -> (r: Option<String>)
    ensures
        match r {
            Some(e) => extension_of(p@) == Some(e@),
            None => extension_of(p@).is_none(),
        },
{
    match std::path::Path::new(p).extension() {
        Some(e) => Some(e.to_string_lossy().into_owned()),
        None => None,
    }
}

/// Relies on std::path::Path::file_name: the final component of the path, if
/// there is one.
#[verifier::external_body]
fn path_file_name(p: &str) -> (r: Option<String>)
    ensures
        match r {
            Some(n) => file_name_of(p@) == Some(n@),
            None => file_name_of(p@).is_none(),
        },
{
    match std::path::Path::new(p).file_name() {
        Some(n) => Some(n.to_string_lossy().into_owned()),
        None => None,
    }
}

/// `dir/name`.
pub open spec fn joined(dir: Seq<char>, name: Seq<char>) -> Seq<char> {
    dir + "/"@ + name
}

/// Joins a directory and a name with one `/`.
pub fn join_path(dir: &str, name: &str) -> (r: String)
    ensures
        r@ == joined(dir@, name@),
{
    let mut r = String::from_str(dir);
    r.append("/");
    r.append(name);
    r
}

/// The working directory of a bot.
pub open spec fn bot_workdir(bot_id: Seq<char>) -> Seq<char> {
    joined(BOTS_WORKDIR@, bot_id)
}

/// An extension marks a source file when it is `java`.
pub open spec fn is_source_extension(ext: Option<Seq<char>>) -> bool {
    ext == Some("java"@)
}

/// Whether an extension marks a source file.
pub fn source_extension(ext: &Option<String>) -> (r: bool)
    ensures
        r == is_source_extension(
            match ext {
                Some(e) => Some(e@),
                None => None,
            },
        ),
{
    match ext {
        Some(e) => {
            let java = String::from_str("java");
            *e == java
        },
        None => false,
    }
}

/// The paths that name source files, in their order.
pub open spec fn source_files(paths: Seq<Seq<char>>) -> Seq<Seq<char>>
    decreases paths.len(),
{
    if paths.len() == 0 {
        Seq::empty()
    } else {
        let before = source_files(paths.drop_last());
        if is_source_extension(extension_of(paths.last())) {
            before.push(paths.last())
        } else {
            before
        }
    }
}

/// Keeps the paths whose extension marks a source file.
pub fn select_source_files(paths: &Vec<String>) -> (r: Vec<String>)
    ensures
        views(r@) == source_files(views(paths@)),
{
    let mut r: Vec<String> = Vec::new();
    let mut k: usize = 0;
    while k < paths.len()
        invariant
            k <= paths.len(),
            views(r@) == source_files(views(paths@.subrange(0, k as int))),
        decreases paths.len() - k,
    {
        let ghost before = views(paths@.subrange(0, k as int));
        let ghost after = views(paths@.subrange(0, k as int + 1));
        assert(after.drop_last() =~= before);
        assert(after.last() == paths@[k as int]@);
        let ext = path_extension(paths[k].as_str());
        if source_extension(&ext) {
            let p = paths[k].clone();
            r.push(p);
            assert(views(r@) =~= source_files(before).push(paths@[k as int]@));
        }
        k += 1;
    }
    assert(paths@.subrange(0, paths.len() as int) =~= paths@);
    r
}

/// The compilation error to record on a bot after a compilation: none after
/// a success, the error's text after a failure.
pub fn recorded_error(result: &Result<(), MatchMakerError>) -> (r: String)
    ensures
        match result {
            Ok(_) => r@ == Seq::<char>::empty(),
            Err(e) => r@ == message_of(*e),
        },
{
    match result {
        Ok(_) => String::new(),
        Err(e) => e.message(),
    }
}

/// Where the compilation of one bot stands.
#[derive(Debug, Clone, Copy, PartialEq, Eq, Structural)]
pub enum CompileStage {
    MakingDir,
    Copying,
    Extracting,
    Listing,
    Compiling,
    Finished,
}

/// What the caller is to do next for a compilation.
#[derive(Debug)]
pub enum CompileAction {
    /// Create this directory, with its parents; an existing one is fine.
    CreateDir(String),
    /// Run this command with these arguments.
    Run(String, Vec<String>),
    /// List the paths of all files under this directory, nested ones included.
    ListFiles(String),
    /// The compilation is over, with this result.
    Finish(Result<(), MatchMakerError>),
}

/// What came of the last action.
#[derive(Debug)]
pub enum CompileEvent {
    /// It succeeded.
    Done,
    /// The listing asked for, one path per file.
    Listed(Vec<String>),
    /// It failed.
    Failed(MatchMakerError),
}

/// The compilation of one bot: its archive is copied into the bot's working
/// directory, extracted there, its source files found and compiled.
#[derive(Debug)]
pub struct BotCompilation {
    pub bot_id: String,
    pub source_path: String,
    pub workdir: String,
    pub stage: CompileStage,
}

/// `a` runs `cmd` with `args`.
pub open spec fn runs(a: CompileAction, cmd: Seq<char>, args: Seq<Seq<char>>) -> bool {
    match a {
        CompileAction::Run(c, v) => c@ == cmd && views(v@) == args,
        _ => false,
    }
}

/// The paths that a listing event carries; any other event carries none.
pub open spec fn listed(e: CompileEvent) -> Seq<Seq<char>> {
    match e {
        CompileEvent::Listed(v) => views(v@),
        _ => Seq::empty(),
    }
}

fn strings2(a: &str, b: &str) -> (r: Vec<String>)
    ensures
        views(r@) == seq![a@, b@],
{
    let mut r: Vec<String> = Vec::new();
    r.push(String::from_str(a));
    r.push(String::from_str(b));
    assert(views(r@) =~= seq![a@, b@]);
    r
}

/// What one step of a compilation does, as `BotCompilation::step` states it.
pub open spec fn compile_step_post(
    m: BotCompilation,
    event: CompileEvent,
    new: BotCompilation,
    a: CompileAction,
) -> bool {
    &&& new.bot_id == m.bot_id
    &&& new.source_path == m.source_path
    &&& new.workdir == m.workdir
    &&& (a is Finish) == (new.stage == CompileStage::Finished)
    &&& event matches CompileEvent::Failed(e) ==> a == CompileAction::Finish(Err(e))
    &&& !(event is Failed) ==> {
        let src = m.source_path@;
        let wd = m.workdir@;
        match m.stage {
            CompileStage::MakingDir => new.stage == CompileStage::Copying
                && runs(a, "cp"@, seq![src, wd]),
            CompileStage::Copying => match file_name_of(src) {
                Some(name) => new.stage == CompileStage::Extracting
                    && runs(a, "unzip"@, seq!["-o"@, joined(wd, name), "-d"@, wd]),
                None => a == CompileAction::Finish(
                    Err(MatchMakerError::InvalidPath(m.source_path)),
                ),
            },
            CompileStage::Extracting => new.stage == CompileStage::Listing
                && (a matches CompileAction::ListFiles(d) && d@ == wd),
            CompileStage::Listing => if source_files(listed(event)).len() == 0 {
                a == CompileAction::Finish(Err(MatchMakerError::NoSourceFiles))
            } else {
                new.stage == CompileStage::Compiling
                    && runs(a, "javac"@, source_files(listed(event)))
            },
            _ => a == CompileAction::Finish(Ok(())),
        }
    }
}

impl BotCompilation {
    /// Starts the compilation of a bot; the first action creates its working directory.
    pub fn compile_bot(bot: &Bot) -> (r: (BotCompilation, CompileAction))
        ensures
            r.0.bot_id == bot.id,
            r.0.source_path == bot.source_path,
            r.0.workdir@ == bot_workdir(bot.id@),
            r.0.stage == CompileStage::MakingDir,
            r.1 matches CompileAction::CreateDir(d) && d@ == bot_workdir(bot.id@),
    {
        let workdir = join_path(BOTS_WORKDIR, bot.id.as_str());
        let dir = workdir.clone();
        (
            BotCompilation {
                bot_id: bot.id.clone(),
                source_path: bot.source_path.clone(),
                workdir,
                stage: CompileStage::MakingDir,
            },
            CompileAction::CreateDir(dir),
        )
    }

    pub fn is_finished(&self) -> (r: bool)
        ensures
            r == (self.stage == CompileStage::Finished),
    {
        self.stage == CompileStage::Finished
    }

    /// Takes what came of the last action and gives the next one. A failure
    /// ends the compilation with that error. After the copy the archive is
    /// extracted from `workdir/<file name>` into `workdir` (a source path with
    /// no file name is an `InvalidPath`); the files found are listed; the
    /// compiler runs on the source files among them, and none is
    /// `NoSourceFiles`. A success without a listing answers the listing as
    /// an empty one; a listing answers any other action as a success.
    pub fn step(&mut self, event: CompileEvent) -> (a: CompileAction)
        requires
            old(self).stage != CompileStage::Finished,
        ensures
            compile_step_post(*old(self), event, *final(self), a),
    {
        let paths = match event {
            CompileEvent::Failed(e) => {
                self.stage = CompileStage::Finished;
                return CompileAction::Finish(Err(e));
            },
            CompileEvent::Listed(v) => v,
            CompileEvent::Done => Vec::new(),
        };
        assert(views(paths@) == listed(event));
        match self.stage {
            CompileStage::MakingDir => {
                self.stage = CompileStage::Copying;
                CompileAction::Run(
                    String::from_str("cp"),
                    strings2(self.source_path.as_str(), self.workdir.as_str()),
                )
            },
            CompileStage::Copying => {
                match path_file_name(self.source_path.as_str()) {
                    Some(name) => {
                        self.stage = CompileStage::Extracting;
                        let archive = join_path(self.workdir.as_str(), name.as_str());
                        let mut args: Vec<String> = Vec::new();
                        args.push(String::from_str("-o"));
                        args.push(archive);
                        args.push(String::from_str("-d"));
                        args.push(self.workdir.clone());
                        assert(views(args@) =~= seq![
                            "-o"@,
                            joined(self.workdir@, name@),
                            "-d"@,
                            self.workdir@,
                        ]);
                        CompileAction::Run(String::from_str("unzip"), args)
                    },
                    None => {
                        self.stage = CompileStage::Finished;
                        CompileAction::Finish(Err(MatchMakerError::InvalidPath(self.source_path.clone())))
                    },
                }
            },
            CompileStage::Extracting => {
                self.stage = CompileStage::Listing;
                CompileAction::ListFiles(self.workdir.clone())
            },
            CompileStage::Listing => {
                let sources = select_source_files(&paths);
                if sources.len() == 0 {
                    self.stage = CompileStage::Finished;
                    CompileAction::Finish(Err(MatchMakerError::NoSourceFiles))
                } else {
                    self.stage = CompileStage::Compiling;
                    CompileAction::Run(String::from_str("javac"), sources)
                }
            },
            _ => {
                self.stage = CompileStage::Finished;
                CompileAction::Finish(Ok(()))
            },
        }
    }
}

/// Two actions ask for the same thing.
pub open spec fn same_action(a1: CompileAction, a2: CompileAction) -> bool {
    match (a1, a2) {
        (CompileAction::CreateDir(d1), CompileAction::CreateDir(d2)) => d1@ == d2@,
        (CompileAction::Run(c1, v1), CompileAction::Run(c2, v2)) => c1@ == c2@ && views(v1@)
            == views(v2@),
        (CompileAction::ListFiles(d1), CompileAction::ListFiles(d2)) => d1@ == d2@,
        (CompileAction::Finish(r1), CompileAction::Finish(r2)) => r1 == r2,
        _ => false,
    }
}

/// Compiling a bot again asks for the same steps: at the same stage, with the
/// same archive, working directory and listing, a compilation takes the same
/// next action and reaches the same stage. The commands only create a
/// directory that may exist, copy and extract over what is there, and compile.
pub proof fn lemma_recompile_same_steps(
    m1: BotCompilation,
    m2: BotCompilation,
    e1: CompileEvent,
    e2: CompileEvent,
    n1: BotCompilation,
    n2: BotCompilation,
    a1: CompileAction,
    a2: CompileAction,
)
    requires
        m1.source_path == m2.source_path,
        m1.workdir@ == m2.workdir@,
        m1.stage == m2.stage,
        !(e1 is Failed) && !(e2 is Failed),
        listed(e1) == listed(e2),
        compile_step_post(m1, e1, n1, a1),
        compile_step_post(m2, e2, n2, a2),
    ensures
        same_action(a1, a2),
        n1.stage == n2.stage || (a1 is Finish && a2 is Finish),
{
}

} // verus!
