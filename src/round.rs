use vstd::prelude::*;
use crate::errors::MatchMakerError;
use crate::models::{Competition, Team};
use crate::text::views;
use crate::pairing::{create_match_pairs, drawn_from};

verus! {

/// The teams of a roster that take part in the round: both bot slots filled
/// and both bots compiled. `compiled[i]` tells whether the bots of
/// `teams[i]` compiled; a missing entry counts as a failure.
pub open spec fn compiled_teams(teams: Seq<Team>, compiled: Seq<bool>) -> Seq<Team>
    decreases teams.len(),
{
    if teams.len() == 0 {
        Seq::empty()
    } else {
        let i = teams.len() - 1;
        let before = compiled_teams(teams.drop_last(), compiled);
        if teams[i].has_both_bots() && i < compiled.len() && compiled[i] {
            before.push(teams[i])
        } else {
            before
        }
    }
}

/// Keeps the teams that take part in the round, in roster order.
pub fn compile_team_bots(teams: &Vec<Team>, compiled: &Vec<bool>) -> (r: Vec<Team>)
    ensures
        r@ == compiled_teams(teams@, compiled@),
{
    let mut r: Vec<Team> = Vec::new();
    let mut k: usize = 0;
    while k < teams.len()
        invariant
            k <= teams.len(),
            r@ == compiled_teams(teams@.subrange(0, k as int), compiled@),
        decreases teams.len() - k,
    {
        let ghost pre = teams@.subrange(0, k as int);
        let ghost post = teams@.subrange(0, k as int + 1);
        assert(post.drop_last() =~= pre);
        let t = &teams[k];
        if t.bot1.as_str().unicode_len() > 0 && t.bot2.as_str().unicode_len() > 0 && k
            < compiled.len() && compiled[k] {
            r.push(t.copy_of());
        }
        k += 1;
    }
    assert(teams@.subrange(0, teams.len() as int) =~= teams@);
    r
}

/// Where a round stands.
#[derive(Debug, Clone, Copy, PartialEq, Eq, Structural)]
pub enum RoundStage {
    FetchingCompetition,
    FetchingTeams,
    Compiling,
    Playing,
    CleaningUp,
    SavingRound,
    Finished,
}

/// What the caller is to do next for a round.
#[derive(Debug)]
pub enum RoundAction {
    /// Fetch the competition with this id.
    FetchCompetition(String),
    /// Fetch the teams of the competition with this id.
    FetchTeams(String),
    /// Compile both bots of each of these teams, recording each failure on
    /// its bot; answer with one flag per team, in this order.
    CompileTeams(Vec<Team>),
    /// Play these matches of this competition, each on its own; a failed
    /// match is skipped.
    PlayMatches(Competition, Vec<(Team, Team)>),
    /// Remove every match directory, keeping the directory that holds them.
    CleanUp,
    /// Store this round number for the competition with this id.
    SaveRound(String, i32),
    /// The round is over: the pairs it played, or the error that stopped it.
    Finish(Result<Vec<(Team, Team)>, MatchMakerError>),
}

/// What came of the last action.
#[derive(Debug)]
pub enum RoundEvent {
    Competition(Competition),
    Teams(Vec<Team>),
    Compiled(Vec<bool>),
    Done,
    Failed(MatchMakerError),
}

/// A round of a two-versus-two competition.
#[derive(Debug)]
pub struct Round2v2 {
    pub competition_id: String,
    pub competition: Option<Competition>,
    pub candidates: Vec<Team>,
    pub pairs: Vec<(Team, Team)>,
    pub stage: RoundStage,
}

/// The event answers the action of this stage: a failure answers any.
pub open spec fn fits_stage(stage: RoundStage, e: RoundEvent) -> bool {
    match e {
        RoundEvent::Failed(_) => true,
        RoundEvent::Competition(_) => stage == RoundStage::FetchingCompetition,
        RoundEvent::Teams(_) => stage == RoundStage::FetchingTeams,
        RoundEvent::Compiled(_) => stage == RoundStage::Compiling,
        RoundEvent::Done => stage == RoundStage::Playing || stage == RoundStage::CleaningUp
            || stage == RoundStage::SavingRound,
    }
}

/// The teams of a roster with both bot slots filled.
pub open spec fn filled_teams(teams: Seq<Team>) -> Seq<Team>
    decreases teams.len(),
{
    if teams.len() == 0 {
        Seq::empty()
    } else {
        let before = filled_teams(teams.drop_last());
        if teams.last().has_both_bots() {
            before.push(teams.last())
        } else {
            before
        }
    }
}

fn teams_with_both_bots(teams: &Vec<Team>) -> (r: Vec<Team>)
    ensures
        r@ == filled_teams(teams@),
{
    let mut r: Vec<Team> = Vec::new();
    let mut k: usize = 0;
    while k < teams.len()
        invariant
            k <= teams.len(),
            r@ == filled_teams(teams@.subrange(0, k as int)),
        decreases teams.len() - k,
    {
        let ghost pre = teams@.subrange(0, k as int);
        let ghost post = teams@.subrange(0, k as int + 1);
        assert(post.drop_last() =~= pre);
        let t = &teams[k];
        if t.bot1.as_str().unicode_len() > 0 && t.bot2.as_str().unicode_len() > 0 {
            r.push(t.copy_of());
        }
        k += 1;
    }
    assert(teams@.subrange(0, teams.len() as int) =~= teams@);
    r
}

/// Starts a round of the competition with this id; the first action fetches it.
pub fn run_2v2_round(competition_id: String) -> (r: (Round2v2, RoundAction))
    ensures
        r.0.competition_id == competition_id,
        r.0.stage == RoundStage::FetchingCompetition,
        r.1 == RoundAction::FetchCompetition(competition_id),
{
    let id = competition_id.clone();
    (
        Round2v2 {
            competition_id,
            competition: None,
            candidates: Vec::new(),
            pairs: Vec::new(),
            stage: RoundStage::FetchingCompetition,
        },
        RoundAction::FetchCompetition(id),
    )
}

impl Round2v2 {
    pub fn is_finished(&self) -> (r: bool)
        ensures
            r == (self.stage == RoundStage::Finished),
    {
        self.stage == RoundStage::Finished
    }

    /// Whether `step` takes this event now.
    pub fn accepts(&self, e: &RoundEvent) -> (r: bool)
        ensures
            r == fits_stage(self.stage, *e),
    {
        match e {
            RoundEvent::Failed(_) => true,
            RoundEvent::Competition(_) => self.stage == RoundStage::FetchingCompetition,
            RoundEvent::Teams(_) => self.stage == RoundStage::FetchingTeams,
            RoundEvent::Compiled(_) => self.stage == RoundStage::Compiling,
            RoundEvent::Done => self.stage == RoundStage::Playing || self.stage
                == RoundStage::CleaningUp || self.stage == RoundStage::SavingRound,
        }
    }

    /// Takes what came of the last action and gives the next one. A failure
    /// ends the round with that error. The roster is narrowed to the teams
    /// with both bots, which are compiled; those whose bots compiled are
    /// paired with the competition's games-per-round target; the matches are
    /// played, their directories removed, and the round counter advanced by
    /// one (a counter at `i32::MAX` cannot advance: the round fails with
    /// `RoundLimitReached`).
    pub fn step(&mut self, event: RoundEvent) -> (a: RoundAction)
        requires
            old(self).stage != RoundStage::Finished,
            fits_stage(old(self).stage, event),
        ensures
            final(self).competition_id == old(self).competition_id,
            (a is Finish) == (final(self).stage == RoundStage::Finished),
            event matches RoundEvent::Failed(e) ==> a == RoundAction::Finish(Err(e)),
            event matches RoundEvent::Competition(c) ==> final(self).stage
                == RoundStage::FetchingTeams && final(self).competition == Some(c)
                && a == RoundAction::FetchTeams(c.id),
            event matches RoundEvent::Teams(ts) ==> final(self).stage == RoundStage::Compiling
                && final(self).competition == old(self).competition
                && final(self).candidates@ == filled_teams(ts@)
                && (a matches RoundAction::CompileTeams(v) && v@ == filled_teams(ts@)),
            event matches RoundEvent::Compiled(flags) ==> match old(self).competition {
                Some(c) => final(self).stage == RoundStage::Playing
                    && final(self).competition == old(self).competition
                    && (a matches RoundAction::PlayMatches(c2, ps) && c2 == c
                        && ps@ == final(self).pairs@)
                    && drawn_from(
                        final(self).pairs@,
                        compiled_teams(old(self).candidates@, flags@),
                        c.games_per_round as int,
                    ),
                None => a == RoundAction::Finish(Err(MatchMakerError::DatabaseError(
                    final(self).competition_id,
                ))),
            },
            event is Done && old(self).stage == RoundStage::Playing ==> final(self).stage
                == RoundStage::CleaningUp && a == RoundAction::CleanUp && final(self).pairs
                == old(self).pairs && final(self).competition == old(self).competition,
            event is Done && old(self).stage == RoundStage::CleaningUp ==> match old(self).competition {
                Some(c) => if c.round < i32::MAX {
                    final(self).stage == RoundStage::SavingRound && a == RoundAction::SaveRound(
                        c.id,
                        (c.round + 1) as i32,
                    ) && final(self).pairs == old(self).pairs
                } else {
                    a == RoundAction::Finish(Err(MatchMakerError::RoundLimitReached))
                },
                None => a is Finish && a->Finish_0 is Err,
            },
            event is Done && old(self).stage == RoundStage::SavingRound ==> (a matches RoundAction::Finish(
                Ok(ps),
            ) && ps@ == old(self).pairs@),
    {
        match event {
            RoundEvent::Failed(e) => {
                self.stage = RoundStage::Finished;
                RoundAction::Finish(Err(e))
            },
            RoundEvent::Competition(c) => {
                let id = c.id.clone();
                self.competition = Some(c);
                self.stage = RoundStage::FetchingTeams;
                RoundAction::FetchTeams(id)
            },
            RoundEvent::Teams(ts) => {
                let filled = teams_with_both_bots(&ts);
                let again = copy_teams(&filled);
                self.candidates = filled;
                self.stage = RoundStage::Compiling;
                RoundAction::CompileTeams(again)
            },
            RoundEvent::Compiled(flags) => {
                match &self.competition {
                    Some(c) => {
                        let kept = compile_team_bots(&self.candidates, &flags);
                        let pairs = create_match_pairs(c.games_per_round, &kept);
                        let played = copy_pairs(&pairs);
                        self.pairs = pairs;
                        self.stage = RoundStage::Playing;
                        RoundAction::PlayMatches(c.copy_of(), played)
                    },
                    None => {
                        self.stage = RoundStage::Finished;
                        RoundAction::Finish(Err(MatchMakerError::DatabaseError(self.competition_id.clone())))
                    },
                }
            },
            RoundEvent::Done => {
                if self.stage == RoundStage::Playing {
                    self.stage = RoundStage::CleaningUp;
                    RoundAction::CleanUp
                } else if self.stage == RoundStage::CleaningUp {
                    match &self.competition {
                        Some(c) => {
                            if c.round < i32::MAX {
                                self.stage = RoundStage::SavingRound;
                                RoundAction::SaveRound(c.id.clone(), c.round + 1)
                            } else {
                                self.stage = RoundStage::Finished;
                                RoundAction::Finish(Err(MatchMakerError::RoundLimitReached))
                            }
                        },
                        None => {
                            self.stage = RoundStage::Finished;
                            RoundAction::Finish(Err(MatchMakerError::DatabaseError(self.competition_id.clone())))
                        },
                    }
                } else {
                    self.stage = RoundStage::Finished;
                    let pairs = copy_pairs(&self.pairs);
                    RoundAction::Finish(Ok(pairs))
                }
            },
        }
    }
}

fn copy_teams(teams: &Vec<Team>) -> (r: Vec<Team>)
    ensures
        r@ == teams@,
{
    let mut r: Vec<Team> = Vec::new();
    let mut k: usize = 0;
    while k < teams.len()
        invariant
            k <= teams.len(),
            r@ == teams@.subrange(0, k as int),
        decreases teams.len() - k,
    {
        r.push(teams[k].copy_of());
        k += 1;
        assert(r@ =~= teams@.subrange(0, k as int));
    }
    assert(teams@.subrange(0, teams.len() as int) =~= teams@);
    r
}

fn copy_pairs(pairs: &Vec<(Team, Team)>) -> (r: Vec<(Team, Team)>)
    ensures
        r@ == pairs@,
{
    let mut r: Vec<(Team, Team)> = Vec::new();
    let mut k: usize = 0;
    while k < pairs.len()
        invariant
            k <= pairs.len(),
            r@ == pairs@.subrange(0, k as int),
        decreases pairs.len() - k,
    {
        let (a, b) = &pairs[k];
        r.push((a.copy_of(), b.copy_of()));
        k += 1;
        assert(r@ =~= pairs@.subrange(0, k as int));
    }
    assert(pairs@.subrange(0, pairs.len() as int) =~= pairs@);
    r
}

/// The competitions of the scheduled run that get a round, in order: those
/// of type `2v2`.
pub open spec fn two_v_two_ids(cs: Seq<Competition>) -> Seq<Seq<char>>
    decreases cs.len(),
{
    if cs.len() == 0 {
        Seq::empty()
    } else {
        let before = two_v_two_ids(cs.drop_last());
        if cs.last().type_@ == "2v2"@ {
            before.push(cs.last().id@)
        } else {
            before
        }
    }
}

/// What the caller is to do next for a scheduled run.
#[derive(Debug)]
pub enum CompetitionsAction {
    /// Fetch the competitions whose time window holds now.
    FetchRunning,
    /// Run a round of the competition with this id.
    RunRound(String),
    /// The run is over.
    Finish(Result<(), MatchMakerError>),
}

/// What came of the last action.
#[derive(Debug)]
pub enum CompetitionsEvent {
    Running(Vec<Competition>),
    RoundDone,
    Failed(MatchMakerError),
}

/// A scheduled run: one round for each running `2v2` competition, in turn;
/// the first failure ends the run.
#[derive(Debug)]
pub struct CompetitionsRound {
    pub pending: Vec<String>,
    pub next: usize,
    pub fetched: bool,
    pub finished: bool,
}

/// The invariant of a scheduled run.
pub open spec fn run_wf(r: CompetitionsRound) -> bool {
    r.next <= r.pending@.len() && (!r.fetched ==> r.next == 0)
}

pub open spec fn fits_run(r: CompetitionsRound, e: CompetitionsEvent) -> bool {
    match e {
        CompetitionsEvent::Running(_) => !r.fetched,
        CompetitionsEvent::RoundDone => r.fetched && r.next < r.pending@.len(),
        CompetitionsEvent::Failed(_) => true,
    }
}

fn two_v_two(cs: &Vec<Competition>) -> (r: Vec<String>)
    ensures
        views(r@) == two_v_two_ids(cs@),
{
    let mut r: Vec<String> = Vec::new();
    let mut k: usize = 0;
    while k < cs.len()
        invariant
            k <= cs.len(),
            views(r@) == two_v_two_ids(cs@.subrange(0, k as int)),
        decreases cs.len() - k,
    {
        let ghost pre = cs@.subrange(0, k as int);
        let ghost post = cs@.subrange(0, k as int + 1);
        assert(post.drop_last() =~= pre);
        let tag = String::from_str("2v2");
        if cs[k].type_ == tag {
            r.push(cs[k].id.clone());
            assert(views(r@) =~= two_v_two_ids(pre).push(cs@[k as int].id@));
        }
        k += 1;
    }
    assert(cs@.subrange(0, cs.len() as int) =~= cs@);
    r
}

/// Starts a scheduled run; the first action fetches the running competitions.
pub fn run_competitions_round() -> (r: (CompetitionsRound, CompetitionsAction))
    ensures
        run_wf(r.0),
        !r.0.fetched && !r.0.finished,
        r.1 is FetchRunning,
{
    (
        CompetitionsRound { pending: Vec::new(), next: 0, fetched: false, finished: false },
        CompetitionsAction::FetchRunning,
    )
}

impl CompetitionsRound {
    /// Whether `step` takes this event now.
    pub fn accepts(&self, e: &CompetitionsEvent) -> (r: bool)
        requires
            run_wf(*self),
        ensures
            r == fits_run(*self, *e),
    {
        match e {
            CompetitionsEvent::Running(_) => !self.fetched,
            CompetitionsEvent::RoundDone => self.fetched && self.next < self.pending.len(),
            CompetitionsEvent::Failed(_) => true,
        }
    }

    /// Takes what came of the last action and gives the next one: after the
    /// fetch, a round for each `2v2` competition in the order fetched, then
    /// success; the first failure ends the run with that error.
    pub fn step(&mut self, event: CompetitionsEvent) -> (a: CompetitionsAction)
        requires
            run_wf(*old(self)),
            !old(self).finished,
            fits_run(*old(self), event),
        ensures
            run_wf(*final(self)),
            (a is Finish) == final(self).finished,
            event matches CompetitionsEvent::Failed(e) ==> a == CompetitionsAction::Finish(Err(e)),
            event matches CompetitionsEvent::Running(cs) ==> final(self).fetched && views(
                final(self).pending@,
            ) == two_v_two_ids(cs@) && final(self).next == 0,
            !(event is Failed) ==> ({
                let n = *final(self);
                n.fetched && if n.next < n.pending@.len() {
                    a matches CompetitionsAction::RunRound(id) && id == n.pending@[n.next as int]
                } else {
                    a == CompetitionsAction::Finish(Ok(()))
                }
            }),
            event is RoundDone ==> final(self).pending == old(self).pending && final(self).next
                == old(self).next + 1,
    {
        match event {
            CompetitionsEvent::Failed(e) => {
                self.finished = true;
                return CompetitionsAction::Finish(Err(e));
            },
            CompetitionsEvent::Running(cs) => {
                self.pending = two_v_two(&cs);
                self.next = 0;
                self.fetched = true;
            },
            CompetitionsEvent::RoundDone => {
                assert(fits_run(*self, CompetitionsEvent::RoundDone));
                let count = self.pending.len();
                assert(self.next < count);
                self.next = self.next + 1;
            },
        }
        if self.next < self.pending.len() {
            CompetitionsAction::RunRound(self.pending[self.next].clone())
        } else {
            self.finished = true;
            CompetitionsAction::Finish(Ok(()))
        }
    }
}

} // verus!
