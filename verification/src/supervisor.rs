//! The screen lock supervisor: a run that locks the screen at once, keeps it
//! locked for a fixed duration by re-locking whenever it is found unlocked,
//! and shuts its monitor down before it returns.
//!
//! Two units of work take part. The supervising caller walks through
//! [`SupervisionRun`]; the monitor task walks through [`Monitor`]. Each hands
//! out one action at a time; whoever drives them performs the action and comes
//! back. The only state the two share is the stop signal, which the caller
//! sets once and the monitor reads.
//!
//! A lock that ends as fatal ends the run. Where the initial lock is fatal
//! the run fails at once, before any monitor is started. Where a later lock
//! is fatal the monitor aborts, and the caller, which sleeps through the whole
//! duration in one piece, learns of it when it joins the monitor. A failed
//! run is told to abort, never to return.

use crate::platform::LockResult;
use std::time::Duration;
use vstd::prelude::*;

verus! {

/// The delays of a monitor, in milliseconds, and how often it reports.
#[derive(Clone, Copy, Debug, PartialEq, Eq, Structural)]
pub struct Timing {
    /// How long the monitor waits after the initial lock before it starts polling.
    pub settle_ms: u64,
    /// The pause between two polls.
    pub poll_ms: u64,
    /// How long the monitor waits, once it found the screen unlocked, before it locks again.
    pub grace_ms: u64,
    /// How long the monitor waits after it locked again.
    pub cooldown_ms: u64,
    /// A status report is due at every poll whose number is a multiple of this; 0 means never.
    pub report_every: u64,
}

impl Timing {
    /// Whether poll number `check` is one to report.
    pub open spec fn report_due(self, check: u64) -> bool {
        self.report_every > 0 && check % self.report_every == 0
    }

    /// The usual timing: three seconds to settle, a poll every half second, one
    /// second of grace, two seconds of cool-down, a report at every tenth poll.
    pub fn standard() -> (timing: Timing)
        ensures
            timing == (Timing {
                settle_ms: 3000,
                poll_ms: 500,
                grace_ms: 1000,
                cooldown_ms: 2000,
                report_every: 10,
            }),
    {
        Timing { settle_ms: 3000, poll_ms: 500, grace_ms: 1000, cooldown_ms: 2000, report_every: 10 }
    }
}

/// What the driver of a monitor hands back to it.
#[derive(Clone, Copy, Debug, PartialEq, Eq, Structural)]
pub enum MonitorEvent {
    /// The action asked for last is done; for a monitor just created: its task runs.
    Done,
    /// The stop signal was read and holds this value.
    StopSignal(bool),
    /// The lock state was queried: locked or not.
    LockStatus(bool),
    /// The screen was locked again, with this result.
    Locked(LockResult),
}

/// What a monitor asks its driver to do next.
#[derive(Clone, Copy, Debug, PartialEq, Eq, Structural)]
pub enum MonitorAction {
    /// Sleep for so many milliseconds, then hand back `Done`.
    Sleep(u64),
    /// Read the stop signal and hand back `StopSignal`.
    ReadStopSignal,
    /// Query the lock state and hand back `LockStatus`.
    QueryLockStatus,
    /// Emit a diagnostic line on the state found at this poll, then hand back `Done`.
    Report { check: u64, locked: bool },
    /// Lock the screen, then hand back `Locked` with the result.
    Lock,
    /// Leave the task; the monitor has ended.
    Exit,
    /// Leave the task because a lock was fatal; the monitor has failed.
    Abort,
}

/// Where a monitor stands: what it asked for last and is waiting on.
#[derive(Clone, Copy, Debug, PartialEq, Eq, Structural)]
pub enum MonitorPhase {
    /// Created, its task not yet running.
    Created,
    /// Sleeping through the settle delay.
    Settling,
    /// Reading the stop signal, at the head of a poll.
    AwaitingStop,
    /// Querying the lock state.
    AwaitingStatus,
    /// Reporting the state it found.
    Reporting { locked: bool },
    /// Found the screen unlocked; sleeping through the grace period.
    Grace,
    /// Locking the screen again.
    Relocking,
    /// Sleeping through the cool-down after locking again.
    Cooldown,
    /// Sleeping until the next poll.
    Pausing,
    /// Ended, because the stop signal was set.
    Exited,
    /// Failed, because a lock was fatal.
    Aborted,
}

/// The monitor task of a supervised run.
#[derive(Clone, Copy, Debug, PartialEq, Eq, Structural)]
pub struct Monitor {
    pub phase: MonitorPhase,
    /// How many polls were begun; it stops counting at the largest `u64`.
    pub checks: u64,
}

impl Monitor {
    /// This monitor in another phase.
    pub open spec fn at(self, phase: MonitorPhase) -> Monitor {
        Monitor { phase, checks: self.checks }
    }

    /// What a monitor does about the lock state it found: if locked it pauses
    /// until the next poll, if not it starts the grace period.
    pub open spec fn react(self, timing: Timing, locked: bool) -> (Monitor, MonitorAction) {
        if locked {
            (self.at(MonitorPhase::Pausing), MonitorAction::Sleep(timing.poll_ms))
        } else {
            (self.at(MonitorPhase::Grace), MonitorAction::Sleep(timing.grace_ms))
        }
    }

    /// The transition of a monitor: the phase it enters and the action it asks
    /// for when the event is the one it waits on, `None` for any other event.
    /// A lock that comes back fatal makes the monitor abort; any other result
    /// leads into the cool-down. A monitor that has ended or failed waits on
    /// nothing.
    pub open spec fn next(self, timing: Timing, event: MonitorEvent) -> Option<(Monitor, MonitorAction)> {
        match (self.phase, event) {
            (MonitorPhase::Created, MonitorEvent::Done) => Some(
                (self.at(MonitorPhase::Settling), MonitorAction::Sleep(timing.settle_ms)),
            ),
            (MonitorPhase::Settling, MonitorEvent::Done) => Some(
                (self.at(MonitorPhase::AwaitingStop), MonitorAction::ReadStopSignal),
            ),
            (MonitorPhase::AwaitingStop, MonitorEvent::StopSignal(stop)) => if stop {
                Some((self.at(MonitorPhase::Exited), MonitorAction::Exit))
            } else {
                Some(
                    (
                        Monitor {
                            phase: MonitorPhase::AwaitingStatus,
                            checks: if self.checks < u64::MAX {
                                (self.checks + 1) as u64
                            } else {
                                self.checks
                            },
                        },
                        MonitorAction::QueryLockStatus,
                    ),
                )
            },
            (MonitorPhase::AwaitingStatus, MonitorEvent::LockStatus(locked)) => if timing.report_due(
                self.checks,
            ) {
                Some(
                    (
                        self.at(MonitorPhase::Reporting { locked }),
                        MonitorAction::Report { check: self.checks, locked },
                    ),
                )
            } else {
                Some(self.react(timing, locked))
            },
            (MonitorPhase::Reporting { locked }, MonitorEvent::Done) => Some(self.react(timing, locked)),
            (MonitorPhase::Grace, MonitorEvent::Done) => Some(
                (self.at(MonitorPhase::Relocking), MonitorAction::Lock),
            ),
            (MonitorPhase::Relocking, MonitorEvent::Locked(result)) => if result == LockResult::Fatal {
                Some((self.at(MonitorPhase::Aborted), MonitorAction::Abort))
            } else {
                Some((self.at(MonitorPhase::Cooldown), MonitorAction::Sleep(timing.cooldown_ms)))
            },
            (MonitorPhase::Cooldown, MonitorEvent::Done) => Some(
                (self.at(MonitorPhase::Pausing), MonitorAction::Sleep(timing.poll_ms)),
            ),
            (MonitorPhase::Pausing, MonitorEvent::Done) => Some(
                (self.at(MonitorPhase::AwaitingStop), MonitorAction::ReadStopSignal),
            ),
            _ => None,
        }
    }

    /// A monitor whose task does not run yet.
    pub fn new() -> (monitor: Monitor)
        ensures
            monitor == (Monitor { phase: MonitorPhase::Created, checks: 0 }),
    {
        Monitor { phase: MonitorPhase::Created, checks: 0 }
    }

    fn moved(&self, phase: MonitorPhase) -> (monitor: Monitor)
        ensures
            monitor == self.at(phase),
    {
        Monitor { phase, checks: self.checks }
    }

    fn reaction(&self, timing: &Timing, locked: bool) -> (r: (Monitor, MonitorAction))
        ensures
            r == self.react(*timing, locked),
    {
        if locked {
            (self.moved(MonitorPhase::Pausing), MonitorAction::Sleep(timing.poll_ms))
        } else {
            (self.moved(MonitorPhase::Grace), MonitorAction::Sleep(timing.grace_ms))
        }
    }

    /// One step of the monitor: given the event, the monitor as it is
    /// afterwards and the action to perform next. `None` exactly when the
    /// event is not the one that the monitor waits on.
    pub fn step(&self, timing: &Timing, event: MonitorEvent) -> (r: Option<(Monitor, MonitorAction)>)
        ensures
            r == self.next(*timing, event),
    {
        match (self.phase, event) {
            (MonitorPhase::Created, MonitorEvent::Done) => Some(
                (self.moved(MonitorPhase::Settling), MonitorAction::Sleep(timing.settle_ms)),
            ),
            (MonitorPhase::Settling, MonitorEvent::Done) => Some(
                (self.moved(MonitorPhase::AwaitingStop), MonitorAction::ReadStopSignal),
            ),
            (MonitorPhase::AwaitingStop, MonitorEvent::StopSignal(stop)) => {
                if stop {
                    Some((self.moved(MonitorPhase::Exited), MonitorAction::Exit))
                } else {
                    let checks: u64 = if self.checks < u64::MAX {
                        self.checks + 1
                    } else {
                        self.checks
                    };
                    Some(
                        (
                            Monitor { phase: MonitorPhase::AwaitingStatus, checks },
                            MonitorAction::QueryLockStatus,
                        ),
                    )
                }
            },
            (MonitorPhase::AwaitingStatus, MonitorEvent::LockStatus(locked)) => {
                if timing.report_every > 0 && self.checks % timing.report_every == 0 {
                    Some(
                        (
                            self.moved(MonitorPhase::Reporting { locked }),
                            MonitorAction::Report { check: self.checks, locked },
                        ),
                    )
                } else {
                    Some(self.reaction(timing, locked))
                }
            },
            (MonitorPhase::Reporting { locked }, MonitorEvent::Done) => Some(
                self.reaction(timing, locked),
            ),
            (MonitorPhase::Grace, MonitorEvent::Done) => Some(
                (self.moved(MonitorPhase::Relocking), MonitorAction::Lock),
            ),
            (MonitorPhase::Relocking, MonitorEvent::Locked(result)) => {
                match result {
                    LockResult::Fatal => Some((self.moved(MonitorPhase::Aborted), MonitorAction::Abort)),
                    _ => Some(
                        (self.moved(MonitorPhase::Cooldown), MonitorAction::Sleep(timing.cooldown_ms)),
                    ),
                }
            },
            (MonitorPhase::Cooldown, MonitorEvent::Done) => Some(
                (self.moved(MonitorPhase::Pausing), MonitorAction::Sleep(timing.poll_ms)),
            ),
            (MonitorPhase::Pausing, MonitorEvent::Done) => Some(
                (self.moved(MonitorPhase::AwaitingStop), MonitorAction::ReadStopSignal),
            ),
            _ => None,
        }
    }
}

/// Where the supervising caller stands.
#[derive(Clone, Copy, Debug, PartialEq, Eq, Structural)]
pub enum RunPhase {
    /// Nothing done yet.
    Idle,
    /// The initial lock was issued.
    LockedInitial,
    /// The monitor task runs; the supervised duration is passing.
    Monitoring,
    /// The supervised duration is over; the stop signal is not yet set.
    Expired,
    /// The stop signal is set; the monitor has yet to end.
    Stopping,
    /// The monitor has ended; the call may return.
    Stopped,
    /// A lock was fatal; the call must not return as if all had gone well.
    Failed,
}

/// What the supervising caller is to do next.
#[derive(Clone, Copy, Debug, PartialEq, Eq)]
pub enum RunAction {
    /// Lock the screen.
    Lock,
    /// Start the monitor task.
    StartMonitor,
    /// Sleep, in one piece, for the supervised duration.
    Sleep(Duration),
    /// Set the stop signal.
    SignalStop,
    /// Wait until the monitor task has ended.
    JoinMonitor,
    /// Nothing is left to do: return.
    Return,
    /// The run has failed on a fatal lock: abort, and let the caller know.
    Abort,
}

/// The caller's side of a supervised run.
#[derive(Clone, Copy, Debug, PartialEq, Eq)]
pub struct SupervisionRun {
    pub phase: RunPhase,
    /// For how long the screen is kept locked.
    pub duration: Duration,
}

impl SupervisionRun {
    /// This run in another phase.
    pub open spec fn at(self, phase: RunPhase) -> SupervisionRun {
        SupervisionRun { phase, duration: self.duration }
    }

    /// The transition of the caller: the action to perform next, and the phase
    /// that the run is in once that action is done.
    pub open spec fn next(self) -> (SupervisionRun, RunAction) {
        match self.phase {
            RunPhase::Idle => (self.at(RunPhase::LockedInitial), RunAction::Lock),
            RunPhase::LockedInitial => (self.at(RunPhase::Monitoring), RunAction::StartMonitor),
            RunPhase::Monitoring => (self.at(RunPhase::Expired), RunAction::Sleep(self.duration)),
            RunPhase::Expired => (self.at(RunPhase::Stopping), RunAction::SignalStop),
            RunPhase::Stopping => (self.at(RunPhase::Stopped), RunAction::JoinMonitor),
            RunPhase::Stopped => (self, RunAction::Return),
            RunPhase::Failed => (self, RunAction::Abort),
        }
    }

    /// The run once the initial lock has come back with this result: a fatal
    /// result fails the run, any other leaves it as it is.
    pub open spec fn after_lock(self, result: LockResult) -> SupervisionRun {
        if self.phase == RunPhase::LockedInitial && result == LockResult::Fatal {
            self.at(RunPhase::Failed)
        } else {
            self
        }
    }

    /// The run once the monitor was joined and found in this phase: a monitor
    /// that aborted fails the run, any other leaves it as it is.
    pub open spec fn after_join(self, ended: MonitorPhase) -> SupervisionRun {
        if self.phase == RunPhase::Stopped && ended == MonitorPhase::Aborted {
            self.at(RunPhase::Failed)
        } else {
            self
        }
    }

    /// Hands out the next action of the caller and moves the run to the phase
    /// that it is in once the action is done.
    pub fn advance(&mut self) -> (action: RunAction)
        ensures
            (*final(self), action) == old(self).next(),
    {
        match self.phase {
            RunPhase::Idle => {
                self.phase = RunPhase::LockedInitial;
                RunAction::Lock
            },
            RunPhase::LockedInitial => {
                self.phase = RunPhase::Monitoring;
                RunAction::StartMonitor
            },
            RunPhase::Monitoring => {
                self.phase = RunPhase::Expired;
                RunAction::Sleep(self.duration)
            },
            RunPhase::Expired => {
                self.phase = RunPhase::Stopping;
                RunAction::SignalStop
            },
            RunPhase::Stopping => {
                self.phase = RunPhase::Stopped;
                RunAction::JoinMonitor
            },
            RunPhase::Stopped => RunAction::Return,
            RunPhase::Failed => RunAction::Abort,
        }
    }

    /// Tells the run what the initial lock came back with. To be called when
    /// the `Lock` action is done, before the run is advanced again.
    pub fn lock_done(&mut self, result: LockResult)
        ensures
            *final(self) == old(self).after_lock(result),
    {
        match (self.phase, result) {
            (RunPhase::LockedInitial, LockResult::Fatal) => {
                self.phase = RunPhase::Failed;
            },
            _ => {},
        }
    }

    /// Tells the run in which phase the joined monitor was found. To be called
    /// when the `JoinMonitor` action is done, before the run is advanced again.
    pub fn monitor_joined(&mut self, ended: MonitorPhase)
        ensures
            *final(self) == old(self).after_join(ended),
    {
        match (self.phase, ended) {
            (RunPhase::Stopped, MonitorPhase::Aborted) => {
                self.phase = RunPhase::Failed;
            },
            _ => {},
        }
    }
}

/// Begins a run that keeps the screen locked for `duration`. The run starts
/// idle; its first action is the initial lock, whatever the duration is.
pub fn continuously_lock_screen(duration: Duration) -> (run: SupervisionRun)
    ensures
        run == (SupervisionRun { phase: RunPhase::Idle, duration }),
        run.next().1 == RunAction::Lock,
{
    SupervisionRun { phase: RunPhase::Idle, duration }
}

impl MonitorAction {
    /// The milliseconds that the action sleeps: those of a `Sleep`, else none.
    pub open spec fn nap(self) -> nat {
        match self {
            MonitorAction::Sleep(millis) => millis as nat,
            _ => 0,
        }
    }
}

/// The milliseconds slept by the actions at positions `from` up to, not
/// including, `to`.
pub open spec fn slept(actions: Seq<MonitorAction>, from: int, to: int) -> nat
    decreases to - from,
{
    if to <= from {
        0
    } else {
        slept(actions, from, to - 1) + actions[to - 1].nap()
    }
}

impl Monitor {
    /// The monitor after a series of events, with the actions that it asked
    /// for on the way. An event that the monitor does not wait on changes
    /// nothing and asks for nothing.
    pub open spec fn run(self, timing: Timing, events: Seq<MonitorEvent>) -> (Monitor, Seq<MonitorAction>)
        decreases events.len(),
    {
        if events.len() == 0 {
            (self, Seq::empty())
        } else {
            let (monitor, actions) = self.run(timing, events.drop_last());
            match monitor.next(timing, events.last()) {
                Some((then, action)) => (then, actions.push(action)),
                None => (monitor, actions),
            }
        }
    }

    /// An upper bound on the steps that a monitor in this phase still takes
    /// once the stop signal is set.
    pub open spec fn steps_to_exit(self) -> nat {
        match self.phase {
            MonitorPhase::Exited => 0,
            MonitorPhase::Aborted => 0,
            MonitorPhase::AwaitingStop => 1,
            MonitorPhase::Pausing => 2,
            MonitorPhase::Settling => 2,
            MonitorPhase::Created => 3,
            MonitorPhase::Cooldown => 3,
            MonitorPhase::Relocking => 4,
            MonitorPhase::Grace => 5,
            MonitorPhase::Reporting { .. } => 6,
            MonitorPhase::AwaitingStatus => 7,
        }
    }

    /// The least time that has passed since the last lock when a monitor is
    /// in this phase.
    pub open spec fn rested(self, timing: Timing) -> nat {
        match self.phase {
            MonitorPhase::Relocking => 0,
            MonitorPhase::Aborted => 0,
            MonitorPhase::Grace => (timing.cooldown_ms + timing.grace_ms) as nat,
            _ => timing.cooldown_ms as nat,
        }
    }
}

/// What holds of the actions of a monitor in a given state: two locks are at
/// least the grace period plus the cool-down apart, and since each lock the
/// monitor has slept what its phase says.
spec fn spaced(monitor: Monitor, timing: Timing, actions: Seq<MonitorAction>) -> bool {
    &&& forall|i: int, j: int|
        0 <= i < j < actions.len() && actions[i] == MonitorAction::Lock && actions[j]
            == MonitorAction::Lock ==> #[trigger] slept(actions, i + 1, j) >= timing.grace_ms
            + timing.cooldown_ms
    &&& forall|i: int|
        0 <= i < actions.len() && actions[i] == MonitorAction::Lock ==> #[trigger] slept(
            actions,
            i + 1,
            actions.len() as int,
        ) >= monitor.rested(timing)
    &&& forall|i: int|
        0 <= i < actions.len() && #[trigger] actions[i] == MonitorAction::Lock ==> monitor.phase
            != MonitorPhase::Created && monitor.phase != MonitorPhase::Settling
}

/// Appending an action leaves the time slept over earlier positions as it was.
proof fn lemma_slept_keeps(actions: Seq<MonitorAction>, action: MonitorAction, from: int, to: int)
    requires
        0 <= from,
        to <= actions.len(),
    ensures
        slept(actions.push(action), from, to) == slept(actions, from, to),
    decreases to - from,
{
    if from < to {
        lemma_slept_keeps(actions, action, from, to - 1);
    }
}

/// `spaced` holds after every series of events, from whatever state the
/// monitor started in.
proof fn lemma_run_spaced(start: Monitor, timing: Timing, events: Seq<MonitorEvent>)
    ensures
        spaced(start.run(timing, events).0, timing, start.run(timing, events).1),
    decreases events.len(),
{
    if events.len() > 0 {
        lemma_run_spaced(start, timing, events.drop_last());
        let (monitor, actions) = start.run(timing, events.drop_last());
        match monitor.next(timing, events.last()) {
            Some((then, action)) => {
                let grown = actions.push(action);
                let n = actions.len() as int;
                assert forall|i: int, j: int|
                    0 <= i < j < grown.len() && grown[i] == MonitorAction::Lock && grown[j]
                        == MonitorAction::Lock implies #[trigger] slept(grown, i + 1, j)
                    >= timing.grace_ms + timing.cooldown_ms by {
                    lemma_slept_keeps(actions, action, i + 1, j);
                    if j < n {
                        assert(slept(actions, i + 1, j) >= timing.grace_ms + timing.cooldown_ms);
                    } else {
                        assert(slept(actions, i + 1, n) >= monitor.rested(timing));
                    }
                }
                assert forall|i: int|
                    0 <= i < grown.len() && grown[i] == MonitorAction::Lock implies #[trigger] slept(
                    grown,
                    i + 1,
                    grown.len() as int,
                ) >= then.rested(timing) by {
                    if i < n {
                        lemma_slept_keeps(actions, action, i + 1, n);
                        assert(actions[i] == MonitorAction::Lock);
                        assert(slept(actions, i + 1, n) >= monitor.rested(timing));
                        assert(slept(grown, i + 1, n + 1) == slept(grown, i + 1, n) + action.nap());
                    } else {
                        assert(slept(grown, n + 1, n + 1) == 0);
                    }
                }
                assert forall|i: int|
                    0 <= i < grown.len() && #[trigger] grown[i] == MonitorAction::Lock implies then.phase
                    != MonitorPhase::Created && then.phase != MonitorPhase::Settling by {
                    if i < n {
                        assert(actions[i] == MonitorAction::Lock);
                    }
                }
                assert(spaced(then, timing, grown));
            },
            None => {
                assert(spaced(monitor, timing, actions));
            },
        }
    } else {
        assert(start.run(timing, events).1.len() == 0);
    }
}

/// Re-locking is rate-limited. Whatever the lock state queries report and
/// whatever state the monitor started in, between two locks that it asks
/// for it sleeps at least the grace period plus the cool-down.
pub proof fn lemma_relock_rate_limited(
    start: Monitor,
    timing: Timing,
    events: Seq<MonitorEvent>,
    i: int,
    j: int,
)
    requires
        0 <= i < j < start.run(timing, events).1.len(),
        start.run(timing, events).1[i] == MonitorAction::Lock,
        start.run(timing, events).1[j] == MonitorAction::Lock,
    ensures
        slept(start.run(timing, events).1, i + 1, j) >= timing.grace_ms + timing.cooldown_ms,
{
    lemma_run_spaced(start, timing, events);
}

/// A monitor that has neither ended nor failed always waits on something: on
/// `Done`, on the stop signal, on the lock state or on the result of a lock,
/// whatever value the latter three hold.
pub proof fn lemma_monitor_never_stuck(monitor: Monitor, timing: Timing)
    requires
        monitor.phase != MonitorPhase::Exited,
        monitor.phase != MonitorPhase::Aborted,
    ensures
        monitor.next(timing, MonitorEvent::Done) is Some || (forall|stop: bool|
            monitor.next(timing, MonitorEvent::StopSignal(stop)) is Some) || (forall|locked: bool|
            monitor.next(timing, MonitorEvent::LockStatus(locked)) is Some) || (forall|
            result: LockResult,
        |
            monitor.next(timing, MonitorEvent::Locked(result)) is Some),
{
}

/// Shutdown is bounded. Once the stop signal is set, so that every reading of
/// it yields `true`, each step brings the monitor nearer to its end: the
/// actions it still asks for are at most `steps_to_exit`, which is never more
/// than seven.
pub proof fn lemma_stop_ends_monitor(start: Monitor, timing: Timing, events: Seq<MonitorEvent>)
    requires
        forall|i: int| 0 <= i < events.len() && events[i] is StopSignal ==> events[i] == MonitorEvent::StopSignal(true),
    ensures
        start.run(timing, events).1.len() + start.run(timing, events).0.steps_to_exit() <= start.steps_to_exit(),
        start.steps_to_exit() <= 7,
    decreases events.len(),
{
    if events.len() > 0 {
        let earlier = events.drop_last();
        assert forall|i: int| 0 <= i < earlier.len() && earlier[i] is StopSignal implies earlier[i]
            == MonitorEvent::StopSignal(true) by {
            assert(earlier[i] == events[i]);
        }
        lemma_stop_ends_monitor(start, timing, earlier);
    }
}

/// The two units of a supervised run taken together, with the stop signal that
/// they share and a count of what was done to the screen.
pub struct Supervision {
    /// The caller's side.
    pub run: SupervisionRun,
    /// The monitor task.
    pub monitor: Monitor,
    /// The stop signal.
    pub stop: bool,
    /// How often the screen was locked, by either unit.
    pub locks: nat,
    /// How often the lock state was queried.
    pub queries: nat,
}

/// Which unit moves next.
pub enum Move {
    /// The caller performs its next action; where that is the initial lock,
    /// the lock comes back with this result.
    Caller(LockResult),
    /// The monitor's driver hands it this event.
    Monitor(MonitorEvent),
}

impl Supervision {
    /// A supervised run before anything was done.
    pub open spec fn begin(duration: Duration) -> Supervision {
        Supervision {
            run: SupervisionRun { phase: RunPhase::Idle, duration },
            monitor: Monitor { phase: MonitorPhase::Created, checks: 0 },
            stop: false,
            locks: 0,
            queries: 0,
        }
    }

    /// One move. The caller performs the action that its run hands out: the
    /// initial lock tells the run its result, starting the monitor gives the
    /// created monitor its first event, setting the stop signal sets it, and
    /// joining is possible only once the monitor has ended or failed; until
    /// then the caller stays where it is, and then the run is told how the
    /// monitor was found. The monitor moves only once it was started, and a
    /// reading of the stop signal yields the signal as it is.
    pub open spec fn step(self, timing: Timing, mv: Move) -> Supervision {
        match mv {
            Move::Caller(result) => {
                let (run, action) = self.run.next();
                match action {
                    RunAction::Lock => Supervision {
                        run: run.after_lock(result),
                        locks: self.locks + 1,
                        ..self
                    },
                    RunAction::StartMonitor => match self.monitor.next(timing, MonitorEvent::Done) {
                        Some((monitor, _)) => Supervision { run, monitor, ..self },
                        None => self,
                    },
                    RunAction::Sleep(_) => Supervision { run, ..self },
                    RunAction::SignalStop => Supervision { run, stop: true, ..self },
                    RunAction::JoinMonitor => if self.monitor.phase == MonitorPhase::Exited
                        || self.monitor.phase == MonitorPhase::Aborted {
                        Supervision { run: run.after_join(self.monitor.phase), ..self }
                    } else {
                        self
                    },
                    RunAction::Return => self,
                    RunAction::Abort => self,
                }
            },
            Move::Monitor(event) => {
                if self.monitor.phase == MonitorPhase::Created {
                    self
                } else if event is StopSignal && event != MonitorEvent::StopSignal(self.stop) {
                    self
                } else {
                    match self.monitor.next(timing, event) {
                        Some((monitor, action)) => Supervision {
                            monitor,
                            locks: if action == MonitorAction::Lock {
                                self.locks + 1
                            } else {
                                self.locks
                            },
                            queries: if action == MonitorAction::QueryLockStatus {
                                self.queries + 1
                            } else {
                                self.queries
                            },
                            ..self
                        },
                        None => self,
                    }
                }
            },
        }
    }

    /// The supervised run after a series of moves.
    pub open spec fn after(duration: Duration, timing: Timing, moves: Seq<Move>) -> Supervision
        decreases moves.len(),
    {
        if moves.len() == 0 {
            Supervision::begin(duration)
        } else {
            Supervision::after(duration, timing, moves.drop_last()).step(timing, moves.last())
        }
    }

    /// What holds in every state that a supervised run can reach.
    pub open spec fn sound(self) -> bool {
        &&& self.run.phase != RunPhase::Idle ==> self.locks >= 1
        &&& self.run.phase == RunPhase::Idle || self.run.phase == RunPhase::LockedInitial
            ==> self.monitor.phase == MonitorPhase::Created
        &&& self.run.phase == RunPhase::Monitoring || self.run.phase == RunPhase::Expired
            || self.run.phase == RunPhase::Stopping || self.run.phase == RunPhase::Stopped
            ==> self.monitor.phase != MonitorPhase::Created
        &&& self.queries > 0 ==> self.monitor.phase != MonitorPhase::Created
        &&& self.monitor.phase != MonitorPhase::Created ==> self.locks >= 1
        &&& self.run.phase == RunPhase::Stopping || self.run.phase == RunPhase::Stopped ==> self.stop
        &&& self.stop ==> self.run.phase == RunPhase::Stopping || self.run.phase == RunPhase::Stopped
            || self.run.phase == RunPhase::Failed
        &&& self.monitor.phase == MonitorPhase::Exited ==> self.stop
        &&& self.run.phase == RunPhase::Stopped ==> self.monitor.phase == MonitorPhase::Exited
        &&& self.run.phase == RunPhase::Failed ==> self.monitor.phase == MonitorPhase::Created
            || self.monitor.phase == MonitorPhase::Aborted
    }
}

/// Every state that a supervised run can reach is `sound`, whatever the
/// duration, the timing and the order in which the two units move.
pub proof fn lemma_supervision_sound(duration: Duration, timing: Timing, moves: Seq<Move>)
    ensures
        Supervision::after(duration, timing, moves).sound(),
    decreases moves.len(),
{
    if moves.len() > 0 {
        lemma_supervision_sound(duration, timing, moves.drop_last());
    }
}

/// The screen is locked before any polling begins: in every state that a
/// supervised run can reach, of any duration, a monitor that has begun, and
/// all the more one that has queried the lock state, finds at least one lock
/// already issued.
pub proof fn lemma_lock_precedes_polling(duration: Duration, timing: Timing, moves: Seq<Move>)
    ensures
        ({
            let reached = Supervision::after(duration, timing, moves);
            &&& reached.monitor.phase != MonitorPhase::Created ==> reached.locks >= 1
            &&& reached.queries > 0 ==> reached.locks >= 1
        }),
{
    lemma_supervision_sound(duration, timing, moves);
}

/// The monitor ends before the supervising call returns: the caller is told
/// to return only in phase `Stopped`, and in every state that a supervised
/// run can reach, of any duration, a caller in that phase has a monitor that
/// has ended, and that ended because the stop signal was set.
pub proof fn lemma_monitor_ends_before_return(duration: Duration, timing: Timing, moves: Seq<Move>)
    ensures
        ({
            let reached = Supervision::after(duration, timing, moves);
            &&& reached.run.next().1 == RunAction::Return <==> reached.run.phase == RunPhase::Stopped
            &&& reached.run.phase == RunPhase::Stopped ==> reached.monitor.phase == MonitorPhase::Exited
            &&& reached.monitor.phase == MonitorPhase::Exited ==> reached.stop
        }),
{
    lemma_supervision_sound(duration, timing, moves);
}

/// A fatal initial lock ends the run at once: the next action is to abort,
/// whatever the duration, and so it stays. No monitor is started and nothing
/// more is locked or queried.
pub proof fn lemma_fatal_initial_lock_aborts(run: SupervisionRun)
    requires
        run.phase == RunPhase::Idle,
    ensures
        run.next().1 == RunAction::Lock,
        run.next().0.after_lock(LockResult::Fatal).phase == RunPhase::Failed,
        run.next().0.after_lock(LockResult::Fatal).next() == (
            run.next().0.after_lock(LockResult::Fatal),
            RunAction::Abort,
        ),
{
}

/// A fatal lock of the monitor makes it abort, and an aborted monitor stays
/// so: it waits on nothing and asks for nothing more.
pub proof fn lemma_fatal_relock_aborts(monitor: Monitor, timing: Timing, event: MonitorEvent)
    requires
        monitor.phase == MonitorPhase::Relocking,
    ensures
        monitor.next(timing, MonitorEvent::Locked(LockResult::Fatal)) == Some(
            (monitor.at(MonitorPhase::Aborted), MonitorAction::Abort),
        ),
        monitor.at(MonitorPhase::Aborted).next(timing, event) is None,
{
}

/// A fatal lock reaches the caller. In every state that a supervised run can
/// reach, the caller is told to abort exactly in phase `Failed`, and to
/// return exactly in phase `Stopped`. A failed run has no monitor at work: it
/// was never started, or it has aborted. And once the monitor has aborted the
/// run is never in phase `Stopped`, so it is never told to return.
pub proof fn lemma_fatal_lock_reaches_caller(duration: Duration, timing: Timing, moves: Seq<Move>)
    ensures
        ({
            let reached = Supervision::after(duration, timing, moves);
            &&& reached.run.next().1 == RunAction::Abort <==> reached.run.phase == RunPhase::Failed
            &&& reached.run.next().1 == RunAction::Return <==> reached.run.phase == RunPhase::Stopped
            &&& reached.run.phase == RunPhase::Failed ==> reached.monitor.phase == MonitorPhase::Created
                || reached.monitor.phase == MonitorPhase::Aborted
            &&& reached.monitor.phase == MonitorPhase::Aborted ==> reached.run.phase != RunPhase::Stopped
            &&& reached.monitor.phase == MonitorPhase::Aborted && reached.run.phase == RunPhase::Stopping
                ==> reached.step(timing, Move::Caller(LockResult::Locked)).run.phase == RunPhase::Failed
        }),
{
    lemma_supervision_sound(duration, timing, moves);
}

} // verus!
