use vstd::prelude::*;
use crate::compile::{joined, join_path, BOTS_WORKDIR};
use crate::models::{Competition, NewGame2v2, Team};
use crate::ids::{is_uuid_char, new_id};
use crate::text::{decimal_of, int_text, views};

verus! {

/// Where each match stages its copies of the bots, in a directory named by the match id.
pub const MATCHES_DIR: &'static str = "./resources/matches";

/// Where match logs are kept, one directory per round.
pub const GAMES_DIR: &'static str = "./resources/games";

/// The match program, run by `java -jar`.
pub const EVALUATOR_JAR: &'static str = "resources/gamefiles/Evaluator.jar";

/// The log file of a match: `<games dir>/<round>/<id>.txt`.
pub open spec fn log_path(round: int, id: Seq<char>) -> Seq<char> {
    joined(joined(GAMES_DIR@, decimal_of(round)), id) + ".txt"@
}

impl NewGame2v2 {
    /// A fresh match record between two teams: a new identifier, every bot
    /// counted as surviving, no winner yet, no rating change, not public.
    pub fn new(
        competition_id: String,
        round: i32,
        team1_id: String,
        team2_id: String,
        team1bot1_id: String,
        team1bot2_id: String,
        team2bot1_id: String,
        team2bot2_id: String,
    ) -> (r: NewGame2v2)
        ensures
            r.id@.len() == 36,
            forall|i: int| 0 <= i < r.id@.len() ==> is_uuid_char(#[trigger] r.id@[i]),
            r.competition_id == competition_id,
            r.round == round,
            r.team1_id == team1_id,
            r.team2_id == team2_id,
            r.winner_id@ == Seq::<char>::empty(),
            r.team1bot1_id == team1bot1_id,
            r.team1bot2_id == team1bot2_id,
            r.team2bot1_id == team2bot1_id,
            r.team2bot2_id == team2bot2_id,
            r.team1bot1_survived && r.team1bot2_survived,
            r.team2bot1_survived && r.team2bot2_survived,
            r.team1_elo == 0 && r.team2_elo == 0,
            r.log_file_path@ == log_path(round as int, r.id@),
            !r.public,
            r.additional_data@ == Seq::<char>::empty(),
    {
        let id = new_id();
        let round_text = int_text(round as i64);
        let round_dir = join_path(GAMES_DIR, round_text.as_str());
        let mut log_file_path = join_path(round_dir.as_str(), id.as_str());
        log_file_path.append(".txt");
        NewGame2v2 {
            id,
            competition_id,
            round,
            team1_id,
            team2_id,
            winner_id: String::new(),
            team1bot1_id,
            team1bot2_id,
            team2bot1_id,
            team2bot2_id,
            team1bot1_survived: true,
            team1bot2_survived: true,
            team2bot1_survived: true,
            team2bot2_survived: true,
            team1_elo: 0,
            team2_elo: 0,
            log_file_path,
            public: false,
            additional_data: String::new(),
        }
    }
}

/// What the caller does to play one match: create `folder`, copy each
/// `(from, to)` directory tree, run `program` with `args` as the leader of a
/// new process group, end that group, and write the output to `log_file`.
#[derive(Debug)]
pub struct MatchPlan {
    pub folder: String,
    pub copies: Vec<(String, String)>,
    pub program: String,
    pub args: Vec<String>,
    pub log_file: String,
}

/// The four bots of a match in slot order.
pub open spec fn slot_bots(g: NewGame2v2) -> Seq<Seq<char>> {
    seq![g.team1bot1_id@, g.team1bot2_id@, g.team2bot1_id@, g.team2bot2_id@]
}

/// The plan for a match record: the match folder is named by the match id;
/// each bot's compiled directory is copied into it; the match program gets
/// the four staged paths in slot order; the log goes where the record says.
pub open spec fn is_plan_for(p: MatchPlan, g: NewGame2v2) -> bool {
    let folder = joined(MATCHES_DIR@, g.id@);
    &&& p.folder@ == folder
    &&& p.copies@.len() == 4
    &&& forall|i: int|
        0 <= i < 4 ==> (#[trigger] p.copies@[i]).0@ == joined(BOTS_WORKDIR@, slot_bots(g)[i])
            && p.copies@[i].1@ == joined(folder, slot_bots(g)[i])
    &&& p.program@ == "java"@
    &&& views(p.args@) == seq!["-jar"@, EVALUATOR_JAR@] + slot_bots(g).map_values(
        |b: Seq<char>| joined(folder, b),
    )
    &&& p.log_file == g.log_file_path
}

/// Plans the match that a record describes.
pub fn plan_match(g: &NewGame2v2) -> (p: MatchPlan)
    ensures
        is_plan_for(p, *g),
{
    let folder = join_path(MATCHES_DIR, g.id.as_str());
    let bots: Vec<&String> = vec![&g.team1bot1_id, &g.team1bot2_id, &g.team2bot1_id, &g.team2bot2_id];
    let mut copies: Vec<(String, String)> = Vec::new();
    let mut args: Vec<String> = Vec::new();
    args.push(String::from_str("-jar"));
    args.push(String::from_str(EVALUATOR_JAR));
    let ghost head = seq!["-jar"@, EVALUATOR_JAR@];
    assert(views(args@) =~= head);
    let mut i: usize = 0;
    while i < 4
        invariant
            bots@.len() == 4,
            forall|q: int| 0 <= q < 4 ==> (#[trigger] bots@[q])@ == slot_bots(*g)[q],
            folder@ == joined(MATCHES_DIR@, g.id@),
            i <= 4,
            copies@.len() == i,
            forall|q: int|
                0 <= q < i ==> (#[trigger] copies@[q]).0@ == joined(BOTS_WORKDIR@, slot_bots(*g)[q])
                    && copies@[q].1@ == joined(folder@, slot_bots(*g)[q]),
            views(args@) == head + slot_bots(*g).subrange(0, i as int).map_values(
                |b: Seq<char>| joined(folder@, b),
            ),
        decreases 4 - i,
    {
        let bot = bots[i];
        let from = join_path(BOTS_WORKDIR, bot.as_str());
        let to = join_path(folder.as_str(), bot.as_str());
        let staged = to.clone();
        copies.push((from, to));
        let ghost before = views(args@);
        args.push(staged);
        let ghost mapped = slot_bots(*g).subrange(0, i as int + 1).map_values(
            |b: Seq<char>| joined(folder@, b),
        );
        assert(mapped =~= slot_bots(*g).subrange(0, i as int).map_values(
            |b: Seq<char>| joined(folder@, b),
        ).push(joined(folder@, slot_bots(*g)[i as int])));
        assert(views(args@) =~= before.push(staged@));
        assert(views(args@) =~= head + slot_bots(*g).subrange(0, i as int + 1).map_values(
            |b: Seq<char>| joined(folder@, b),
        ));
        i += 1;
    }
    assert(slot_bots(*g).subrange(0, 4) =~= slot_bots(*g));
    MatchPlan {
        folder,
        copies,
        program: String::from_str("java"),
        args,
        log_file: g.log_file_path.clone(),
    }
}

/// Prepares a match between two teams of a competition: a fresh record for
/// the competition's current round, the teams' bots in slot order, and its plan.
pub fn prepare_match(competition: &Competition, team1: &Team, team2: &Team) -> (r: (
    NewGame2v2,
    MatchPlan,
))
    ensures
        r.0.competition_id == competition.id,
        r.0.round == competition.round,
        r.0.team1_id == team1.id,
        r.0.team2_id == team2.id,
        r.0.team1bot1_id == team1.bot1,
        r.0.team1bot2_id == team1.bot2,
        r.0.team2bot1_id == team2.bot1,
        r.0.team2bot2_id == team2.bot2,
        r.0.winner_id@ == Seq::<char>::empty(),
        r.0.team1bot1_survived && r.0.team1bot2_survived,
        r.0.team2bot1_survived && r.0.team2bot2_survived,
        r.0.log_file_path@ == log_path(competition.round as int, r.0.id@),
        is_plan_for(r.1, r.0),
{
    let g = NewGame2v2::new(
        competition.id.clone(),
        competition.round,
        team1.id.clone(),
        team2.id.clone(),
        team1.bot1.clone(),
        team1.bot2.clone(),
        team2.bot1.clone(),
        team2.bot2.clone(),
    );
    let p = plan_match(&g);
    (g, p)
}

} // verus!
