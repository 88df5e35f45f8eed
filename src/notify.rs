use vstd::prelude::*;

use crate::error::AppError;

verus! {

/// What the launcher tells its observers.
#[derive(Debug, Clone, PartialEq, Eq)]
pub enum Notification {
    /// The set of running games changed; `ids` is the set after the change.
    RunningGamesChanged { ids: Vec<i32> },
    /// Stored games changed and derived views should be refreshed.
    GamesChanged { reason: String },
    /// A game's process exited with a status that reports failure.
    GameRunFailed { exit_status: String, stderr: Option<String> },
    /// The bookkeeping that follows a command failed after the command had
    /// returned.
    Error { error: AppError },
}

/// A notification as a mathematical value.
pub enum NotificationView {
    RunningGamesChanged(Seq<i32>),
    GamesChanged(Seq<char>),
    GameRunFailed(String, Option<String>),
    Error(AppError),
}

impl View for Notification {
    type V = NotificationView;

    open spec fn view(&self) -> NotificationView {
        match self {
            Notification::RunningGamesChanged { ids } => NotificationView::RunningGamesChanged(ids@),
            Notification::GamesChanged { reason } => NotificationView::GamesChanged(reason@),
            Notification::GameRunFailed { exit_status, stderr } => NotificationView::GameRunFailed(
                *exit_status,
                *stderr,
            ),
            Notification::Error { error } => NotificationView::Error(*error),
        }
    }
}

/// How a supervised process ended: whether its exit status reports success,
/// the status as text, and what it wrote to standard error where that was
/// text.
#[derive(Debug, Clone, PartialEq, Eq)]
pub struct ProcessExit {
    pub success: bool,
    pub status: String,
    pub stderr: Option<String>,
}

/// The tag of the notification that stored games changed because a run ended.
pub open spec fn run_game_reason() -> Seq<char> {
    seq!['r', 'u', 'n', '_', 'g', 'a', 'm', 'e']
}

/// The notifications that follow the exit of a game, in order:
/// the new set of running games where the game left the registry; then that
/// its play time was stored, or why it was not; then the failure of the
/// process where it failed.
pub open spec fn notifications_after_exit(
    running: Option<Seq<i32>>,
    stored: Result<(), AppError>,
    exit: ProcessExit,
) -> Seq<NotificationView> {
    changed_notifications(running) + recorded_notifications(stored) + outcome_notifications(exit)
}

/// The new set of running games, where the game left the registry.
pub open spec fn changed_notifications(running: Option<Seq<i32>>) -> Seq<NotificationView> {
    match running {
        Some(ids) => seq![NotificationView::RunningGamesChanged(ids)],
        None => Seq::empty(),
    }
}

/// That the play time was stored, or why it was not.
pub open spec fn recorded_notifications(stored: Result<(), AppError>) -> Seq<NotificationView> {
    match stored {
        Ok(_) => seq![NotificationView::GamesChanged(run_game_reason())],
        Err(e) => seq![NotificationView::Error(e)],
    }
}

/// The failure of the process, where it failed.
pub open spec fn outcome_notifications(exit: ProcessExit) -> Seq<NotificationView> {
    if exit.success {
        Seq::empty()
    } else {
        seq![NotificationView::GameRunFailed(exit.status, exit.stderr)]
    }
}

/// A list of ids, where there is one, as a sequence.
pub open spec fn ids_view(ids: Option<Vec<i32>>) -> Option<Seq<i32>> {
    match ids {
        Some(v) => Some(v@),
        None => None,
    }
}

/// Builds the notifications that follow the observed exit of a game from
/// what the registry returned, how storing the play time went, and how the
/// process ended.
pub fn exit_notifications(
    running: Option<Vec<i32>>,
    stored: Result<(), AppError>,
    exit: ProcessExit,
) -> (r: Vec<Notification>)
    ensures
        r@.map_values(|n: Notification| n@) == notifications_after_exit(
            ids_view(running),
            stored,
            exit,
        ),
{
    let ghost spec_running = ids_view(running);
    let ghost spec_stored = stored;
    let ghost spec_exit = exit;
    let mut r: Vec<Notification> = Vec::new();
    match running {
        Some(ids) => r.push(Notification::RunningGamesChanged { ids }),
        None => {},
    }
    assert(r@.map_values(|n: Notification| n@) =~= changed_notifications(spec_running));
    match stored {
        Ok(_) => {
            let reason = "run_game".to_owned();
            proof {
                reveal_strlit("run_game");
                assert(reason@ =~= run_game_reason());
            }
            r.push(Notification::GamesChanged { reason });
        },
        Err(error) => r.push(Notification::Error { error }),
    }
    assert(r@.map_values(|n: Notification| n@) =~= changed_notifications(spec_running)
        + recorded_notifications(spec_stored));
    if !exit.success {
        r.push(Notification::GameRunFailed { exit_status: exit.status, stderr: exit.stderr });
    }
    proof {
        assert(r@.map_values(|n: Notification| n@) =~= notifications_after_exit(
            spec_running,
            spec_stored,
            spec_exit,
        ));
    }
    r
}

/// The notifications after an exit carry the new set of running games
/// exactly once, first, where the game left the registry, and never where it
/// was not in it.
pub proof fn lemma_one_running_set_per_exit(
    running: Option<Seq<i32>>,
    stored: Result<(), AppError>,
    exit: ProcessExit,
)
    ensures
        running matches Some(ids) ==> notifications_after_exit(running, stored, exit)[0]
            == NotificationView::RunningGamesChanged(ids),
        forall|i: int|
            #![trigger notifications_after_exit(running, stored, exit)[i]]
            (if running is Some { 1int } else { 0 }) <= i < notifications_after_exit(
                running,
                stored,
                exit,
            ).len() ==> !(notifications_after_exit(
                running,
                stored,
                exit,
            )[i] is RunningGamesChanged),
{
}

/// A process that failed yields exactly one notification of its failure,
/// last, with its exit status and standard error, whatever became of the
/// bookkeeping; one that succeeded yields none.
pub proof fn lemma_failure_reported_iff_failed(
    running: Option<Seq<i32>>,
    stored: Result<(), AppError>,
    exit: ProcessExit,
)
    ensures
        !exit.success ==> notifications_after_exit(running, stored, exit).last()
            == NotificationView::GameRunFailed(exit.status, exit.stderr),
        forall|i: int|
            #![trigger notifications_after_exit(running, stored, exit)[i]]
            0 <= i < notifications_after_exit(running, stored, exit).len() && (exit.success || i
                < notifications_after_exit(running, stored, exit).len() - 1) ==> !(
            notifications_after_exit(running, stored, exit)[i] is GameRunFailed),
{
}

} // verus!
