//! Tournament engine for two-versus-two bot matches: compilation steps,
//! pairing, match staging, outcome scoring, rating changes and round control.

pub mod text;
pub mod ids;
pub mod errors;
pub mod models;
pub mod outcome;
pub mod compile;
pub mod matches;
pub mod elo;
pub mod round;
pub mod pairing;
