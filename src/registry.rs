use std::collections::HashMap;
use vstd::prelude::*;
use vstd::std_specs::iter::IteratorSpec;

use crate::error::AppError;
use crate::notify::Notification;

verus! {

/// One supervised process: its operating-system id and the moment it was
/// started, in milliseconds of the launcher's monotonic clock.
#[derive(Debug, Clone, Copy, PartialEq, Eq, Structural)]
pub struct RunningEntry {
    pub pid: u32,
    pub started_at: u64,
}

/// The games that are running, keyed by game id. At most one entry exists
/// per id.
pub struct RunningGames {
    games: HashMap<i32, RunningEntry>,
}

/// Whether a list of ids reports exactly the ids of a registry, each once.
pub open spec fn reports(ids: Seq<i32>, running: Map<i32, RunningEntry>) -> bool {
    &&& ids.to_set() == running.dom()
    &&& ids.no_duplicates()
}

/// Whether a start of `id` is admitted: only a game that is not running yet.
pub open spec fn admitted(running: Map<i32, RunningEntry>, id: i32) -> bool {
    !running.contains_key(id)
}

/// The registry after a start of `id` was asked for: the new entry where the
/// start is admitted, the registry unchanged where it is not.
pub open spec fn after_start(running: Map<i32, RunningEntry>, id: i32, entry: RunningEntry) -> Map<
    i32,
    RunningEntry,
> {
    if admitted(running, id) {
        running.insert(id, entry)
    } else {
        running
    }
}

/// The registry after the process of `id` exited.
pub open spec fn after_exit(running: Map<i32, RunningEntry>, id: i32) -> Map<i32, RunningEntry> {
    running.remove(id)
}

/// Whole seconds between two readings of the monotonic clock in
/// milliseconds, truncated; a reading before the start counts as no time.
pub open spec fn elapsed_seconds(started_at: u64, now: u64) -> int {
    if now >= started_at {
        (now - started_at) / 1000
    } else {
        0
    }
}

/// What a finished run adds to the play time of its game: the elapsed
/// seconds where they fit the stored counter, an error where they do not.
pub open spec fn run_time_of(started_at: u64, now: u64) -> Result<i32, AppError> {
    if elapsed_seconds(started_at, now) <= i32::MAX {
        Ok(elapsed_seconds(started_at, now) as i32)
    } else {
        Err(AppError::FailedToCalculateGameRunTime)
    }
}

/// The bookkeeping of one exit: the ids still running once the game was
/// taken out of the registry (none where it was not in it), and the seconds
/// to add to the game's play time, or why there are none.
pub struct Finished {
    pub running: Option<Vec<i32>>,
    pub seconds: Result<i32, AppError>,
}

impl View for RunningGames {
    type V = Map<i32, RunningEntry>;

    closed spec fn view(&self) -> Map<i32, RunningEntry> {
        self.games@
    }
}

impl RunningGames {
    /// A registry in which no game runs.
    pub fn new() -> (r: Self)
        ensures
            r@ == Map::<i32, RunningEntry>::empty(),
    {
        RunningGames { games: HashMap::new() }
    }

    /// Whether `id` is running.
    pub fn is_running(&self, id: i32) -> (r: bool)
        ensures
            r == self@.contains_key(id),
    {
        self.games.contains_key(&id)
    }

    /// The ids of the running games, each once, in no particular order.
    pub fn running_ids(&self) -> (r: Vec<i32>)
        ensures
            reports(r@, self@),
    {
        let mut ids: Vec<i32> = Vec::new();
        let keys = self.games.keys();
        let ghost all = keys.remaining().unref();
        for id in it: keys
            invariant
                it.seq().unref() == all,
                all.to_set() == self@.dom(),
                all.no_duplicates(),
                ids@ == all.take(it.index() as int),
        {
            assert(all.take(it.index() + 1) == all.take(it.index() as int).push(*id));
            ids.push(*id);
        }
        assert(ids@ == all);
        ids
    }

    /// Admits a start of `id` and records its process, atomically: a game
    /// that is already running is refused and the registry left as it was.
    /// An admitted start yields the notification of the new set of ids.
    pub fn start(&mut self, id: i32, entry: RunningEntry) -> (r: Result<Notification, AppError>)
        ensures
            r is Ok <==> admitted(old(self)@, id),
            final(self)@ == after_start(old(self)@, id, entry),
            match r {
                Ok(n) => n matches Notification::RunningGamesChanged { ids } && reports(
                    ids@,
                    final(self)@,
                ),
                Err(e) => e == AppError::GameAlreadyStarted { id },
            },
    {
        if self.games.contains_key(&id) {
            return Err(AppError::GameAlreadyStarted { id });
        }
        self.games.insert(id, entry);
        Ok(Notification::RunningGamesChanged { ids: self.running_ids() })
    }

    /// Takes `id` out of the registry once its process has exited at `now`,
    /// and measures how long it ran.
    pub fn finish(&mut self, id: i32, now: u64) -> (r: Finished)
        ensures
            final(self)@ == after_exit(old(self)@, id),
            old(self)@.contains_key(id) ==> {
                &&& r.running matches Some(ids) && reports(ids@, final(self)@)
                &&& r.seconds == run_time_of(old(self)@[id].started_at, now)
            },
            !old(self)@.contains_key(id) ==> {
                &&& r.running is None
                &&& r.seconds == Err::<i32, AppError>(
                    AppError::FailedToRemoveGameFromRunningGames { id },
                )
            },
    {
        match self.games.remove(&id) {
            None => {
                assert(old(self)@.remove(id) =~= old(self)@);
                Finished {
                    running: None,
                    seconds: Err(AppError::FailedToRemoveGameFromRunningGames { id }),
                }
            },
            Some(entry) => {
                let millis: u64 = if now >= entry.started_at {
                    now - entry.started_at
                } else {
                    0
                };
                let seconds: u64 = millis / 1000;
                let run_time = if seconds <= i32::MAX as u64 {
                    Ok(seconds as i32)
                } else {
                    Err(AppError::FailedToCalculateGameRunTime)
                };
                Finished { running: Some(self.running_ids()), seconds: run_time }
            },
        }
    }
}

/// Two starts of a game that is not running admit exactly one of them: the
/// first is admitted, and the second is refused and leaves the registry as
/// the first made it.
pub proof fn lemma_second_start_refused(
    running: Map<i32, RunningEntry>,
    id: i32,
    first: RunningEntry,
    second: RunningEntry,
)
    requires
        !running.contains_key(id),
    ensures
        admitted(running, id),
        !admitted(after_start(running, id, first), id),
        after_start(after_start(running, id, first), id, second) == after_start(running, id, first),
{
}

/// An admitted game is running from its start until its own exit: the
/// starts and exits of other games keep it, and its exit takes it out.
pub proof fn lemma_running_until_exit(
    running: Map<i32, RunningEntry>,
    id: i32,
    entry: RunningEntry,
    other: i32,
    other_entry: RunningEntry,
)
    requires
        admitted(running, id),
        other != id,
    ensures
        after_start(running, id, entry).contains_key(id),
        after_start(after_start(running, id, entry), other, other_entry).contains_key(id),
        after_exit(after_start(running, id, entry), other).contains_key(id),
        !after_exit(after_start(running, id, entry), id).contains_key(id),
{
}

/// The running games keep an id that is running through the starts and
/// exits of other games.
pub proof fn lemma_others_keep_running(
    running: Map<i32, RunningEntry>,
    id: i32,
    other: i32,
    other_entry: RunningEntry,
)
    requires
        running.contains_key(id),
        other != id,
    ensures
        after_start(running, other, other_entry).contains_key(id),
        after_exit(running, other).contains_key(id),
{
}

/// The play time a run adds is the time it took in whole seconds: never
/// negative, never more than the time that passed and short of it by less
/// than a second; it is stored whenever it fits the counter.
pub proof fn lemma_run_time_is_elapsed(started_at: u64, now: u64)
    ensures
        elapsed_seconds(started_at, now) >= 0,
        started_at <= now ==> elapsed_seconds(started_at, now) * 1000 <= now - started_at
            < elapsed_seconds(started_at, now) * 1000 + 1000,
        elapsed_seconds(started_at, now) <= i32::MAX ==> run_time_of(started_at, now) == Ok::<
            i32,
            AppError,
        >(elapsed_seconds(started_at, now) as i32),
        run_time_of(started_at, now) matches Ok(t) ==> t == elapsed_seconds(started_at, now) && t
            >= 0,
{
}

} // verus!
