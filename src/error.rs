use vstd::prelude::*;

verus! {

/// Every failure the launcher reports, either to the caller of a command or
/// as an asynchronous error notification.
#[derive(Debug, Clone, PartialEq, Eq)]
pub enum AppError {
    IO { message: String },
    Database { message: String },
    Tauri { message: String },
    TauriApi { message: String },
    Poison { message: String },
    DatabaseConnection { message: String },
    DOSBoxExeNotFound,
    InvalidConfigPath,
    FailedResolvingMountPath,
    FailedToCalculateGameRunTime,
    FailedToRemoveGameFromRunningGames { id: i32 },
    GameAlreadyStarted { id: i32 },
    DOSBoxRunFailed { exit_status: String, stderr: Option<String> },
    GameRunFailed { exit_status: String, stderr: Option<String> },
}

pub type AppResult<T> = Result<T, AppError>;

} // verus!
