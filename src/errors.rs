use vstd::prelude::*;
use crate::text::{decimal_of, int_text};

verus! {

/// What can go wrong while a round runs.
#[derive(Debug, Clone, PartialEq, Eq)]
pub enum MatchMakerError {
    /// A storage operation failed.
    DatabaseError(String),
    /// A filesystem operation failed.
    IOError(String),
    /// A path could not be used as needed.
    InvalidPath(String),
    TimeoutError,
    GameProcessFailed,
    ZippingError(String),
    /// An external command could not be started.
    SpawnFailed(String),
    /// An external command exited unsuccessfully; the exit code, if it had one.
    ProcessFailed(Option<i32>),
    /// Compilation found no source file to compile.
    NoSourceFiles,
    /// The competition's round counter is at its maximum and cannot advance.
    RoundLimitReached,
}

/// The text that describes an error.
pub open spec fn message_of(e: MatchMakerError) -> Seq<char> {
    match e {
        MatchMakerError::DatabaseError(s) => "Database Error: "@ + s@,
        MatchMakerError::IOError(s) => "IO Error: "@ + s@,
        MatchMakerError::InvalidPath(s) => "Invalid path "@ + s@,
        MatchMakerError::TimeoutError => "GameTimeout Error"@,
        MatchMakerError::GameProcessFailed => "GameProcessFailed Error"@,
        MatchMakerError::ZippingError(s) => "ZippingError: "@ + s@,
        MatchMakerError::SpawnFailed(s) => "Could not start command: "@ + s@,
        MatchMakerError::ProcessFailed(Some(c)) => "Command executed with non-zero exit status: "@
            + decimal_of(c as int),
        MatchMakerError::ProcessFailed(None) => "Command terminated by a signal"@,
        MatchMakerError::NoSourceFiles => "No Java files found"@,
        MatchMakerError::RoundLimitReached => "Round counter at its maximum"@,
    }
}

fn prefixed(prefix: &str, s: &String) -> (r: String)
    ensures
        r@ == prefix@ + s@,
{
    let mut r = String::from_str(prefix);
    r.append(s.as_str());
    r
}

impl MatchMakerError {
    /// The text that describes this error.
    pub fn message(&self) -> (r: String)
        ensures
            r@ == message_of(*self),
    {
        match self {
            MatchMakerError::DatabaseError(s) => prefixed("Database Error: ", s),
            MatchMakerError::IOError(s) => prefixed("IO Error: ", s),
            MatchMakerError::InvalidPath(s) => prefixed("Invalid path ", s),
            MatchMakerError::TimeoutError => String::from_str("GameTimeout Error"),
            MatchMakerError::GameProcessFailed => String::from_str("GameProcessFailed Error"),
            MatchMakerError::ZippingError(s) => prefixed("ZippingError: ", s),
            MatchMakerError::SpawnFailed(s) => prefixed("Could not start command: ", s),
            MatchMakerError::ProcessFailed(Some(c)) => {
                let code = int_text(*c as i64);
                prefixed("Command executed with non-zero exit status: ", &code)
            },
            MatchMakerError::ProcessFailed(None) => String::from_str("Command terminated by a signal"),
            MatchMakerError::NoSourceFiles => String::from_str("No Java files found"),
            MatchMakerError::RoundLimitReached => String::from_str("Round counter at its maximum"),
        }
    }
}

/// What a finished external command yields: its output lines when it exited
/// with code 0, else `ProcessFailed` with its exit code.
pub fn command_outcome(exit_code: Option<i32>, lines: Vec<String>) -> (r: Result<
    Vec<String>,
    MatchMakerError,
>)
    ensures
        exit_code == Some(0i32) ==> r == Ok::<Vec<String>, MatchMakerError>(lines),
        exit_code != Some(0i32) ==> r == Err::<Vec<String>, MatchMakerError>(
            MatchMakerError::ProcessFailed(exit_code),
        ),
{
    match exit_code {
        Some(0) => Ok(lines),
        _ => Err(MatchMakerError::ProcessFailed(exit_code)),
    }
}

} // verus!
