use vstd::prelude::*;
use crate::ids::new_id;

verus! {

/// A competition: its window (as day numbers), its round counter, the tag that
/// selects the matchmaking algorithm and the number of games each team plays per round.
#[derive(Debug, Clone)]
pub struct Competition {
    pub id: String,
    pub name: String,
    pub start: i64,
    pub end: i64,
    pub allowed_submissions: bool,
    pub round: i32,
    pub type_: String,
    pub games_per_round: i32,
    pub created: i64,
}

/// A team of two students with up to two bots; an empty bot id is an empty slot.
#[derive(Debug, Clone)]
pub struct Team {
    pub id: String,
    pub name: String,
    pub owner: String,
    pub partner: String,
    pub competition_id: String,
    pub bot1: String,
    pub bot2: String,
    pub elo: i32,
    pub created: i64,
}

/// A submitted bot; `compilation_error` is empty when its last compilation succeeded.
#[derive(Debug, Clone)]
pub struct Bot {
    pub id: String,
    pub team_id: String,
    pub bot_name: String,
    pub source_path: String,
    pub compilation_error: String,
    pub created: i64,
}

/// A match record as the engine builds it, before it is stored.
#[derive(Debug, Clone)]
pub struct NewGame2v2 {
    pub id: String,
    pub competition_id: String,
    pub round: i32,
    pub team1_id: String,
    pub team2_id: String,
    pub winner_id: String,
    pub team1bot1_id: String,
    pub team1bot2_id: String,
    pub team2bot1_id: String,
    pub team2bot2_id: String,
    pub team1bot1_survived: bool,
    pub team1bot2_survived: bool,
    pub team2bot1_survived: bool,
    pub team2bot2_survived: bool,
    pub team1_elo: i32,
    pub team2_elo: i32,
    pub log_file_path: String,
    pub public: bool,
    pub additional_data: String,
}

/// A stored match row: the record plus its creation time.
#[derive(Debug, Clone)]
pub struct SqlGame2v2 {
    pub id: String,
    pub competition_id: String,
    pub round: i32,
    pub team1_id: String,
    pub team2_id: String,
    pub winner_id: String,
    pub team1bot1_id: String,
    pub team1bot2_id: String,
    pub team2bot1_id: String,
    pub team2bot2_id: String,
    pub team1bot1_survived: bool,
    pub team1bot2_survived: bool,
    pub team2bot1_survived: bool,
    pub team2bot2_survived: bool,
    pub team1_elo: i32,
    pub team2_elo: i32,
    pub log_file_path: String,
    pub public: bool,
    pub additional_data: String,
    pub created: i64,
}

/// A match as read back from storage.
#[derive(Debug, Clone)]
pub struct Game2v2 {
    pub id: String,
    pub competition_id: String,
    pub round: i32,
    pub team1_id: String,
    pub team2_id: String,
    pub winner_id: String,
    pub team1bot1_id: String,
    pub team1bot2_id: String,
    pub team2bot1_id: String,
    pub team2bot2_id: String,
    pub team1bot1_survived: bool,
    pub team1bot2_survived: bool,
    pub team2bot1_survived: bool,
    pub team2bot2_survived: bool,
    pub team1_elo: i32,
    pub team2_elo: i32,
    pub log_file_path: String,
    pub public: bool,
    pub additional_data: String,
    pub created: i64,
}

impl Competition {
    /// The competition's window holds this day.
    pub fn is_running(&self, today: i64) -> (r: bool)
        ensures
            r == (self.start <= today && today <= self.end),
    {
        self.start <= today && today <= self.end
    }

    /// A field-by-field copy.
    pub fn copy_of(&self) -> (r: Competition)
        ensures
            r == *self,
    {
        Competition {
            id: self.id.clone(),
            name: self.name.clone(),
            start: self.start,
            end: self.end,
            allowed_submissions: self.allowed_submissions,
            round: self.round,
            type_: self.type_.clone(),
            games_per_round: self.games_per_round,
            created: self.created,
        }
    }
}

impl Team {
    /// A field-by-field copy.
    pub fn copy_of(&self) -> (r: Team)
        ensures
            r == *self,
    {
        Team {
            id: self.id.clone(),
            name: self.name.clone(),
            owner: self.owner.clone(),
            partner: self.partner.clone(),
            competition_id: self.competition_id.clone(),
            bot1: self.bot1.clone(),
            bot2: self.bot2.clone(),
            elo: self.elo,
            created: self.created,
        }
    }

    /// Both bot slots are filled.
    pub open spec fn has_both_bots(&self) -> bool {
        self.bot1@.len() > 0 && self.bot2@.len() > 0
    }
}

/// The row that storing a new record with this creation time writes.
pub open spec fn stored_row(g: NewGame2v2, created: i64) -> SqlGame2v2 {
    SqlGame2v2 {
        id: g.id,
        competition_id: g.competition_id,
        round: g.round,
        team1_id: g.team1_id,
        team2_id: g.team2_id,
        winner_id: g.winner_id,
        team1bot1_id: g.team1bot1_id,
        team1bot2_id: g.team1bot2_id,
        team2bot1_id: g.team2bot1_id,
        team2bot2_id: g.team2bot2_id,
        team1bot1_survived: g.team1bot1_survived,
        team1bot2_survived: g.team1bot2_survived,
        team2bot1_survived: g.team2bot1_survived,
        team2bot2_survived: g.team2bot2_survived,
        team1_elo: g.team1_elo,
        team2_elo: g.team2_elo,
        log_file_path: g.log_file_path,
        public: g.public,
        additional_data: g.additional_data,
        created,
    }
}

/// The match that a stored row reads back as.
pub open spec fn read_back(r: SqlGame2v2) -> Game2v2 {
    Game2v2 {
        id: r.id,
        competition_id: r.competition_id,
        round: r.round,
        team1_id: r.team1_id,
        team2_id: r.team2_id,
        winner_id: r.winner_id,
        team1bot1_id: r.team1bot1_id,
        team1bot2_id: r.team1bot2_id,
        team2bot1_id: r.team2bot1_id,
        team2bot2_id: r.team2bot2_id,
        team1bot1_survived: r.team1bot1_survived,
        team1bot2_survived: r.team1bot2_survived,
        team2bot1_survived: r.team2bot1_survived,
        team2bot2_survived: r.team2bot2_survived,
        team1_elo: r.team1_elo,
        team2_elo: r.team2_elo,
        log_file_path: r.log_file_path,
        public: r.public,
        additional_data: r.additional_data,
        created: r.created,
    }
}

impl SqlGame2v2 {
    /// The row stored for a new record, stamped with its creation time.
    pub fn from_new(g: NewGame2v2, created: i64) -> (r: SqlGame2v2)
        ensures
            r == stored_row(g, created),
    {
        SqlGame2v2 {
            id: g.id,
            competition_id: g.competition_id,
            round: g.round,
            team1_id: g.team1_id,
            team2_id: g.team2_id,
            winner_id: g.winner_id,
            team1bot1_id: g.team1bot1_id,
            team1bot2_id: g.team1bot2_id,
            team2bot1_id: g.team2bot1_id,
            team2bot2_id: g.team2bot2_id,
            team1bot1_survived: g.team1bot1_survived,
            team1bot2_survived: g.team1bot2_survived,
            team2bot1_survived: g.team2bot1_survived,
            team2bot2_survived: g.team2bot2_survived,
            team1_elo: g.team1_elo,
            team2_elo: g.team2_elo,
            log_file_path: g.log_file_path,
            public: g.public,
            additional_data: g.additional_data,
            created,
        }
    }
}

impl Game2v2 {
    /// The match that a stored row describes.
    pub fn from_row(r: SqlGame2v2) -> (g: Game2v2)
        ensures
            g == read_back(r),
    {
        Game2v2 {
            id: r.id,
            competition_id: r.competition_id,
            round: r.round,
            team1_id: r.team1_id,
            team2_id: r.team2_id,
            winner_id: r.winner_id,
            team1bot1_id: r.team1bot1_id,
            team1bot2_id: r.team1bot2_id,
            team2bot1_id: r.team2bot1_id,
            team2bot2_id: r.team2bot2_id,
            team1bot1_survived: r.team1bot1_survived,
            team1bot2_survived: r.team1bot2_survived,
            team2bot1_survived: r.team2bot1_survived,
            team2bot2_survived: r.team2bot2_survived,
            team1_elo: r.team1_elo,
            team2_elo: r.team2_elo,
            log_file_path: r.log_file_path,
            public: r.public,
            additional_data: r.additional_data,
            created: r.created,
        }
    }
}

/// The rating a new team starts with.
pub const DEFAULT_ELO: i32 = 1000;

/// A team as its owner asks for it.
#[derive(Debug, Clone)]
pub struct NewTeam {
    pub name: String,
    pub owner: String,
    pub competition_id: String,
}

/// One of the two bot slots of a team.
#[derive(Debug, Clone, Copy, PartialEq, Eq, Structural)]
pub enum BotSelector {
    First,
    Second,
}

impl Team {
    /// A new team: a fresh id, no partner, both bot slots empty and the
    /// default rating.
    pub fn from_new(t: NewTeam, created: i64) -> (r: Team)
        ensures
            r.id@.len() > 0,
            r.name == t.name,
            r.owner == t.owner,
            r.competition_id == t.competition_id,
            r.partner@ == Seq::<char>::empty(),
            r.bot1@ == Seq::<char>::empty(),
            r.bot2@ == Seq::<char>::empty(),
            r.elo == DEFAULT_ELO,
            r.created == created,
    {
        Team {
            id: new_id(),
            name: t.name,
            owner: t.owner,
            partner: String::new(),
            competition_id: t.competition_id,
            bot1: String::new(),
            bot2: String::new(),
            elo: DEFAULT_ELO,
            created,
        }
    }

    /// Puts a bot in the selected slot; the other slot is kept.
    pub fn set_bot(&mut self, slot: BotSelector, bot_id: String)
        ensures
            slot == BotSelector::First ==> *final(self) == (Team { bot1: bot_id, ..*old(self) }),
            slot == BotSelector::Second ==> *final(self) == (Team { bot2: bot_id, ..*old(self) }),
    {
        match slot {
            BotSelector::First => self.bot1 = bot_id,
            BotSelector::Second => self.bot2 = bot_id,
        }
    }

    /// Fills the empty slots of the team with a newly uploaded bot: the first
    /// slot when it is empty, and the second when it is empty.
    pub fn place_uploaded_bot(&mut self, bot_id: &String)
        ensures
            *final(self) == (Team {
                bot1: if old(self).bot1@.len() == 0 { *bot_id } else { old(self).bot1 },
                bot2: if old(self).bot2@.len() == 0 { *bot_id } else { old(self).bot2 },
                ..*old(self)
            }),
    {
        if self.bot1.as_str().unicode_len() == 0 {
            self.bot1 = bot_id.clone();
        }
        if self.bot2.as_str().unicode_len() == 0 {
            self.bot2 = bot_id.clone();
        }
    }
}

/// A bot as its upload names it.
#[derive(Debug, Clone)]
pub struct NewBot {
    pub team_id: String,
    pub source_path: String,
}

/// What a match program reports of one player.
#[derive(Debug, Clone, Copy, PartialEq, Eq)]
pub struct GamePlayerStats {
    pub turns_played: i32,
    pub survived: bool,
    pub fleet_generated: i32,
    pub fleet_lost: i32,
    pub fleet_reinforced: i32,
    pub largest_attack: i32,
    pub largest_loss: i32,
    pub largest_reinforcement: i32,
    pub planets_lost: i32,
    pub planets_conquered: i32,
    pub planets_defended: i32,
    pub planets_attacked: i32,
    pub num_fleet_lost: i32,
    pub num_fleet_reinforced: i32,
    pub num_fleet_generated: i32,
    pub total_troops_generated: i32,
}

impl Default for GamePlayerStats {
    /// All counters zero, not survived.
    fn default() -> (r: Self)
        ensures
            r.turns_played == 0 && !r.survived,
            r.fleet_generated == 0 && r.fleet_lost == 0 && r.fleet_reinforced == 0,
            r.largest_attack == 0 && r.largest_loss == 0 && r.largest_reinforcement == 0,
            r.planets_lost == 0 && r.planets_conquered == 0,
            r.planets_defended == 0 && r.planets_attacked == 0,
            r.num_fleet_lost == 0 && r.num_fleet_reinforced == 0 && r.num_fleet_generated == 0,
            r.total_troops_generated == 0,
    {
        GamePlayerStats {
            turns_played: 0,
            survived: false,
            fleet_generated: 0,
            fleet_lost: 0,
            fleet_reinforced: 0,
            largest_attack: 0,
            largest_loss: 0,
            largest_reinforcement: 0,
            planets_lost: 0,
            planets_conquered: 0,
            planets_defended: 0,
            planets_attacked: 0,
            num_fleet_lost: 0,
            num_fleet_reinforced: 0,
            num_fleet_generated: 0,
            total_troops_generated: 0,
        }
    }
}

/// An error a match program blames on one bot.
#[derive(Debug, Clone)]
pub struct GameError {
    pub error: String,
    pub blame_id: String,
}

impl Default for GameError {
    /// No error, no one blamed.
    fn default() -> (r: Self)
        ensures
            r.error@ == Seq::<char>::empty(),
            r.blame_id@ == Seq::<char>::empty(),
    {
        GameError { error: String::new(), blame_id: String::new() }
    }
}

/// What a user may do.
#[derive(Debug, Clone, Copy, PartialEq, Eq, Structural)]
pub enum Role {
    Student,
    Admin,
}

impl Role {
    /// The role a stored role name gives: `ADMIN` is an administrator,
    /// anything else a student.
    pub fn from_stored(name: &String) -> (r: Role)
        ensures
            r == (if name@ == "ADMIN"@ { Role::Admin } else { Role::Student }),
    {
        let admin = String::from_str("ADMIN");
        if *name == admin {
            Role::Admin
        } else {
            Role::Student
        }
    }

    /// The name a role is stored under.
    pub fn stored_name(&self) -> (r: String)
        ensures
            r@ == (if *self == Role::Admin { "ADMIN"@ } else { "STUDENT"@ }),
    {
        match self {
            Role::Admin => String::from_str("ADMIN"),
            Role::Student => String::from_str("STUDENT"),
        }
    }
}

/// A user as the directory service describes one.
#[derive(Debug, Clone)]
pub struct LdapUser {
    pub username: String,
    pub ldap_dn: String,
}

/// A student as the directory service describes one.
#[derive(Debug, Clone)]
pub struct LdapStudent {
    pub username: String,
    pub ldap_dn: String,
}

/// What anyone may see of a user.
#[derive(Debug, Clone)]
pub struct PublicUser {
    pub id: String,
    pub username: String,
    pub role: Role,
}

/// What anyone may see of a student.
#[derive(Debug, Clone)]
pub struct PublicStudent {
    pub id: String,
    pub username: String,
}

/// The claims of an access token: the user it names and when it expires.
#[derive(Debug, Clone)]
pub struct Claims {
    pub sub: String,
    pub exp: usize,
}

} // verus!
