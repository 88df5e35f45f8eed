//! Supervision of games that run inside DOSBox: which games are running,
//! what a finished run adds to a game's play time, which notifications a
//! run produces, and where the launcher's files live.

pub mod config;
pub mod error;
pub mod launch;
pub mod notify;
pub mod path;
pub mod registry;
