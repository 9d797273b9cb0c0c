use end_events::{
    continuously_lock_screen, LockResult, Monitor, MonitorAction, MonitorEvent, MonitorPhase,
    RunAction, RunPhase, Timing,
};
use std::time::Duration;

fn monitor(phase: MonitorPhase, checks: u64) -> Monitor {
    Monitor { phase, checks }
}

/// The event that answers an action, with the stop signal and the lock state as given.
fn answer(action: MonitorAction, stop: bool, locked: bool) -> MonitorEvent {
    match action {
        MonitorAction::ReadStopSignal => MonitorEvent::StopSignal(stop),
        MonitorAction::QueryLockStatus => MonitorEvent::LockStatus(locked),
        MonitorAction::Lock => MonitorEvent::Locked(LockResult::Locked),
        _ => MonitorEvent::Done,
    }
}

#[test]
fn standard_timing() {
    assert_eq!(
        Timing::standard(),
        Timing {
            settle_ms: 3000,
            poll_ms: 500,
            grace_ms: 1000,
            cooldown_ms: 2000,
            report_every: 10,
        }
    );
}

#[test]
fn caller_locks_first_and_joins_last() {
    let duration = Duration::from_secs(300);
    let mut run = continuously_lock_screen(duration);
    assert_eq!(run.phase, RunPhase::Idle);
    assert_eq!(run.duration, duration);
    let mut seen = Vec::new();
    for _ in 0..7 {
        let action = run.advance();
        seen.push((action, run.phase));
    }
    assert_eq!(
        seen,
        vec![
            (RunAction::Lock, RunPhase::LockedInitial),
            (RunAction::StartMonitor, RunPhase::Monitoring),
            (RunAction::Sleep(duration), RunPhase::Expired),
            (RunAction::SignalStop, RunPhase::Stopping),
            (RunAction::JoinMonitor, RunPhase::Stopped),
            (RunAction::Return, RunPhase::Stopped),
            (RunAction::Return, RunPhase::Stopped),
        ]
    );
}

#[test]
fn zero_duration_still_locks_before_anything_else() {
    let mut run = continuously_lock_screen(Duration::ZERO);
    assert_eq!(run.advance(), RunAction::Lock);
    assert_eq!(run.advance(), RunAction::StartMonitor);
    assert_eq!(run.advance(), RunAction::Sleep(Duration::ZERO));
    assert_eq!(run.advance(), RunAction::SignalStop);
    assert_eq!(run.advance(), RunAction::JoinMonitor);
    assert_eq!(run.advance(), RunAction::Return);
}

#[test]
fn new_monitor_is_created_with_no_checks() {
    assert_eq!(Monitor::new(), monitor(MonitorPhase::Created, 0));
}

#[test]
fn monitor_settles_then_reads_the_stop_signal() {
    let timing = Timing::standard();
    let (m, action) = Monitor::new().step(&timing, MonitorEvent::Done).unwrap();
    assert_eq!(m, monitor(MonitorPhase::Settling, 0));
    assert_eq!(action, MonitorAction::Sleep(3000));
    let (m, action) = m.step(&timing, MonitorEvent::Done).unwrap();
    assert_eq!(m, monitor(MonitorPhase::AwaitingStop, 0));
    assert_eq!(action, MonitorAction::ReadStopSignal);
}

#[test]
fn monitor_exits_when_it_reads_the_stop_signal_set() {
    let timing = Timing::standard();
    assert_eq!(
        monitor(MonitorPhase::AwaitingStop, 4).step(&timing, MonitorEvent::StopSignal(true)),
        Some((monitor(MonitorPhase::Exited, 4), MonitorAction::Exit))
    );
    for event in [
        MonitorEvent::Done,
        MonitorEvent::StopSignal(false),
        MonitorEvent::StopSignal(true),
        MonitorEvent::LockStatus(false),
        MonitorEvent::LockStatus(true),
    ] {
        assert_eq!(monitor(MonitorPhase::Exited, 4).step(&timing, event), None);
    }
}

#[test]
fn monitor_polls_while_the_stop_signal_is_clear() {
    let timing = Timing::standard();
    assert_eq!(
        monitor(MonitorPhase::AwaitingStop, 4).step(&timing, MonitorEvent::StopSignal(false)),
        Some((monitor(MonitorPhase::AwaitingStatus, 5), MonitorAction::QueryLockStatus))
    );
}

#[test]
fn locked_screen_is_left_alone() {
    let timing = Timing::standard();
    assert_eq!(
        monitor(MonitorPhase::AwaitingStatus, 5).step(&timing, MonitorEvent::LockStatus(true)),
        Some((monitor(MonitorPhase::Pausing, 5), MonitorAction::Sleep(500)))
    );
    assert_eq!(
        monitor(MonitorPhase::Pausing, 5).step(&timing, MonitorEvent::Done),
        Some((monitor(MonitorPhase::AwaitingStop, 5), MonitorAction::ReadStopSignal))
    );
}

#[test]
fn unlocked_screen_is_locked_again_after_the_grace_period() {
    let timing = Timing::standard();
    let m = monitor(MonitorPhase::AwaitingStatus, 5);
    let (m, action) = m.step(&timing, MonitorEvent::LockStatus(false)).unwrap();
    assert_eq!((m, action), (monitor(MonitorPhase::Grace, 5), MonitorAction::Sleep(1000)));
    let (m, action) = m.step(&timing, MonitorEvent::Done).unwrap();
    assert_eq!((m, action), (monitor(MonitorPhase::Relocking, 5), MonitorAction::Lock));
    let (m, action) = m.step(&timing, MonitorEvent::Locked(LockResult::Locked)).unwrap();
    assert_eq!((m, action), (monitor(MonitorPhase::Cooldown, 5), MonitorAction::Sleep(2000)));
    let (m, action) = m.step(&timing, MonitorEvent::Done).unwrap();
    assert_eq!((m, action), (monitor(MonitorPhase::Pausing, 5), MonitorAction::Sleep(500)));
}

#[test]
fn every_tenth_poll_is_reported() {
    let timing = Timing::standard();
    for locked in [false, true] {
        let m = monitor(MonitorPhase::AwaitingStatus, 10);
        let (m, action) = m.step(&timing, MonitorEvent::LockStatus(locked)).unwrap();
        assert_eq!(m, monitor(MonitorPhase::Reporting { locked }, 10));
        assert_eq!(action, MonitorAction::Report { check: 10, locked });
        let (m, action) = m.step(&timing, MonitorEvent::Done).unwrap();
        if locked {
            assert_eq!((m, action), (monitor(MonitorPhase::Pausing, 10), MonitorAction::Sleep(500)));
        } else {
            assert_eq!((m, action), (monitor(MonitorPhase::Grace, 10), MonitorAction::Sleep(1000)));
        }
    }
    for checks in [1, 9, 11, 19] {
        let m = monitor(MonitorPhase::AwaitingStatus, checks);
        let (m, _) = m.step(&timing, MonitorEvent::LockStatus(true)).unwrap();
        assert_eq!(m.phase, MonitorPhase::Pausing);
    }
    let m = monitor(MonitorPhase::AwaitingStatus, 20);
    let (_, action) = m.step(&timing, MonitorEvent::LockStatus(true)).unwrap();
    assert_eq!(action, MonitorAction::Report { check: 20, locked: true });
}

#[test]
fn no_report_is_due_where_none_is_asked_for() {
    let mut timing = Timing::standard();
    timing.report_every = 0;
    for checks in [0, 1, 10, 20] {
        let m = monitor(MonitorPhase::AwaitingStatus, checks);
        let (m, _) = m.step(&timing, MonitorEvent::LockStatus(true)).unwrap();
        assert_eq!(m.phase, MonitorPhase::Pausing);
    }
}

#[test]
fn check_count_stops_at_the_largest_number() {
    let timing = Timing::standard();
    assert_eq!(
        monitor(MonitorPhase::AwaitingStop, u64::MAX - 1).step(&timing, MonitorEvent::StopSignal(false)),
        Some((monitor(MonitorPhase::AwaitingStatus, u64::MAX), MonitorAction::QueryLockStatus))
    );
    assert_eq!(
        monitor(MonitorPhase::AwaitingStop, u64::MAX).step(&timing, MonitorEvent::StopSignal(false)),
        Some((monitor(MonitorPhase::AwaitingStatus, u64::MAX), MonitorAction::QueryLockStatus))
    );
}

#[test]
fn event_that_is_not_awaited_is_refused() {
    let timing = Timing::standard();
    let done_phases = [
        MonitorPhase::Created,
        MonitorPhase::Settling,
        MonitorPhase::Reporting { locked: true },
        MonitorPhase::Grace,
        MonitorPhase::Cooldown,
        MonitorPhase::Pausing,
    ];
    for phase in done_phases {
        let m = monitor(phase, 3);
        assert!(m.step(&timing, MonitorEvent::Done).is_some());
        assert_eq!(m.step(&timing, MonitorEvent::StopSignal(true)), None);
        assert_eq!(m.step(&timing, MonitorEvent::LockStatus(false)), None);
        assert_eq!(m.step(&timing, MonitorEvent::Locked(LockResult::Locked)), None);
    }
    let m = monitor(MonitorPhase::Relocking, 3);
    assert_eq!(m.step(&timing, MonitorEvent::Done), None);
    assert_eq!(m.step(&timing, MonitorEvent::StopSignal(true)), None);
    assert_eq!(m.step(&timing, MonitorEvent::LockStatus(true)), None);
    let m = monitor(MonitorPhase::AwaitingStop, 3);
    assert_eq!(m.step(&timing, MonitorEvent::Done), None);
    assert_eq!(m.step(&timing, MonitorEvent::LockStatus(true)), None);
    let m = monitor(MonitorPhase::AwaitingStatus, 3);
    assert_eq!(m.step(&timing, MonitorEvent::Done), None);
    assert_eq!(m.step(&timing, MonitorEvent::StopSignal(false)), None);
}

#[test]
fn relocks_are_spaced_when_the_screen_is_always_unlocked() {
    let timing = Timing::standard();
    let mut m = Monitor::new();
    let mut event = MonitorEvent::Done;
    let mut slept_since_lock: Option<u64> = None;
    let mut locks = 0;
    for _ in 0..500 {
        let (next, action) = m.step(&timing, event).unwrap();
        match action {
            MonitorAction::Sleep(ms) => {
                if let Some(slept) = slept_since_lock.as_mut() {
                    *slept += ms;
                }
            }
            MonitorAction::Lock => {
                if let Some(slept) = slept_since_lock {
                    assert!(slept >= timing.grace_ms + timing.cooldown_ms);
                    assert_eq!(slept, 2000 + 500 + 1000);
                }
                slept_since_lock = Some(0);
                locks += 1;
            }
            _ => {}
        }
        m = next;
        event = answer(action, false, false);
    }
    assert!(locks > 50);
}

#[test]
fn monitor_ends_within_seven_steps_of_the_stop_signal() {
    let timing = Timing::standard();
    let phases = [
        MonitorPhase::Created,
        MonitorPhase::Settling,
        MonitorPhase::AwaitingStop,
        MonitorPhase::AwaitingStatus,
        MonitorPhase::Reporting { locked: false },
        MonitorPhase::Reporting { locked: true },
        MonitorPhase::Grace,
        MonitorPhase::Relocking,
        MonitorPhase::Cooldown,
        MonitorPhase::Pausing,
    ];
    for phase in phases {
        for locked in [false, true] {
            let mut m = monitor(phase, 10);
            let mut event = match phase {
                MonitorPhase::AwaitingStop => MonitorEvent::StopSignal(true),
                MonitorPhase::AwaitingStatus => MonitorEvent::LockStatus(locked),
                MonitorPhase::Relocking => MonitorEvent::Locked(LockResult::Locked),
                _ => MonitorEvent::Done,
            };
            let mut steps = 0;
            while m.phase != MonitorPhase::Exited {
                let (next, action) = m.step(&timing, event).unwrap();
                m = next;
                event = answer(action, true, locked);
                steps += 1;
                assert!(steps <= 7);
            }
        }
    }
    // The longest way: an unlocked screen found at a poll that is reported.
    let mut m = monitor(MonitorPhase::AwaitingStatus, 10);
    let mut event = MonitorEvent::LockStatus(false);
    let mut steps = 0;
    while m.phase != MonitorPhase::Exited {
        let (next, action) = m.step(&timing, event).unwrap();
        m = next;
        event = answer(action, true, false);
        steps += 1;
    }
    assert_eq!(steps, 7);
}

/// A supervised run in simulated time: the caller and the monitor each act
/// when their sleep is over; `caller_first` says who acts first when both are
/// due at the same time. `locked_at_poll` gives the lock state at each poll.
/// Returns the times of all locks, the number of polls, and the time at which
/// the caller returned.
fn simulate(
    duration: Duration,
    timing: Timing,
    locked_at_poll: &dyn Fn(usize) -> bool,
    caller_first: bool,
) -> (Vec<u64>, usize, u64) {
    let (locks, polls, ended, aborted) =
        simulate_with_locks(duration, timing, locked_at_poll, &|_| LockResult::Locked, caller_first);
    assert!(!aborted);
    (locks, polls, ended)
}

/// As `simulate`, with the result of each lock given by `lock_result`, by the
/// number of the lock. Also returns whether the run was told to abort rather
/// than to return.
fn simulate_with_locks(
    duration: Duration,
    timing: Timing,
    locked_at_poll: &dyn Fn(usize) -> bool,
    lock_result: &dyn Fn(usize) -> LockResult,
    caller_first: bool,
) -> (Vec<u64>, usize, u64, bool) {
    let mut run = continuously_lock_screen(duration);
    let mut stop = false;
    let mut locks: Vec<u64> = Vec::new();
    let mut polls = 0;
    let mut caller_due: u64 = 0;
    let mut monitor_due: u64 = 0;
    let mut task: Option<(Monitor, MonitorEvent)> = None;
    let mut exited = false;
    let mut ended_in = MonitorPhase::Created;
    let mut joining = false;
    for _ in 0..100_000 {
        let monitor_runs = task.is_some() && !exited;
        let caller_turn = if joining {
            exited
        } else {
            !monitor_runs || caller_due < monitor_due || (caller_due == monitor_due && caller_first)
        };
        if caller_turn {
            let now = if joining { monitor_due.max(caller_due) } else { caller_due };
            if joining {
                // The join is done: the run learns how the monitor was found.
                run.monitor_joined(ended_in);
            }
            match run.advance() {
                RunAction::Lock => {
                    run.lock_done(lock_result(locks.len()));
                    locks.push(now);
                }
                RunAction::StartMonitor => {
                    assert!(!locks.is_empty());
                    task = Some((Monitor::new(), MonitorEvent::Done));
                    monitor_due = now;
                }
                RunAction::Sleep(d) => caller_due = now + d.as_millis() as u64,
                RunAction::SignalStop => stop = true,
                RunAction::JoinMonitor => joining = true,
                RunAction::Return => {
                    assert!(exited);
                    assert_eq!(ended_in, MonitorPhase::Exited);
                    assert_eq!(run.phase, RunPhase::Stopped);
                    return (locks, polls, now, false);
                }
                RunAction::Abort => {
                    assert_eq!(run.phase, RunPhase::Failed);
                    assert!(task.is_none() || ended_in == MonitorPhase::Aborted);
                    return (locks, polls, now, true);
                }
            }
            if joining && run.phase == RunPhase::Stopped && !exited {
                // The join blocks: the caller acts again only once the monitor has ended.
                continue;
            }
        } else {
            let (m, event) = task.unwrap();
            let (next, action) = m.step(&timing, event).unwrap();
            let mut reply = MonitorEvent::Done;
            match action {
                MonitorAction::Sleep(ms) => monitor_due += ms,
                MonitorAction::ReadStopSignal => reply = MonitorEvent::StopSignal(stop),
                MonitorAction::QueryLockStatus => {
                    assert!(!locks.is_empty());
                    reply = MonitorEvent::LockStatus(locked_at_poll(polls));
                    polls += 1;
                }
                MonitorAction::Report { .. } => {}
                MonitorAction::Lock => {
                    reply = MonitorEvent::Locked(lock_result(locks.len()));
                    locks.push(monitor_due);
                }
                MonitorAction::Exit | MonitorAction::Abort => {
                    exited = true;
                    ended_in = next.phase;
                }
            }
            task = Some((next, reply));
        }
    }
    panic!("the run did not end");
}

#[test]
fn supervised_run_relocks_twice_and_ends_cleanly() {
    // A timing without waiting times other than the poll interval, so that
    // polls fall into a run of two poll intervals.
    let timing = Timing {
        settle_ms: 0,
        poll_ms: 500,
        grace_ms: 0,
        cooldown_ms: 0,
        report_every: 10,
    };
    let duration = Duration::from_millis(2 * timing.poll_ms);
    for caller_first in [true, false] {
        let (locks, polls, returned) = simulate(duration, timing, &|poll| poll >= 2, caller_first);
        // The initial lock and exactly two more.
        assert_eq!(locks, vec![0, 0, 500]);
        assert!(polls >= 2);
        assert!(returned >= 1000);
        assert!(returned <= 1000 + timing.poll_ms);
    }
}

#[test]
fn supervised_run_with_waiting_times_relocks_twice() {
    let timing = Timing {
        settle_ms: 0,
        poll_ms: 500,
        grace_ms: 100,
        cooldown_ms: 100,
        report_every: 1,
    };
    let duration = Duration::from_millis(2 * timing.poll_ms);
    for caller_first in [true, false] {
        let (locks, polls, returned) = simulate(duration, timing, &|poll| poll >= 2, caller_first);
        assert_eq!(locks, vec![0, 100, 800]);
        assert_eq!(polls, 2);
        assert_eq!(returned, 1400);
    }
}

#[test]
fn supervised_run_of_no_duration_locks_once_and_ends() {
    for caller_first in [true, false] {
        let (locks, polls, returned) =
            simulate(Duration::ZERO, Timing::standard(), &|_| false, caller_first);
        assert_eq!(locks, vec![0]);
        assert_eq!(polls, 0);
        assert_eq!(returned, 3000);
    }
}

#[test]
fn supervised_run_of_a_locked_screen_locks_once() {
    let (locks, polls, returned) = simulate(
        Duration::from_secs(10),
        Timing::standard(),
        &|_| true,
        true,
    );
    assert_eq!(locks, vec![0]);
    // Polls at 3.0 s, 3.5 s, ... 9.5 s.
    assert_eq!(polls, 14);
    assert_eq!(returned, 10_000);
}

#[test]
fn supervised_run_of_an_unlocked_screen_keeps_relocking_at_a_limited_rate() {
    let timing = Timing::standard();
    let (locks, _, _) = simulate(Duration::from_secs(60), timing, &|_| false, true);
    assert!(locks.len() > 10);
    assert_eq!(locks[0], 0);
    // The first re-lock comes after the settle delay and the grace period.
    assert_eq!(locks[1], 4000);
    for pair in locks[1..].windows(2) {
        assert!(pair[1] - pair[0] >= timing.grace_ms + timing.cooldown_ms);
        assert_eq!(pair[1] - pair[0], 3500);
    }
}

#[test]
fn fatal_relock_makes_the_monitor_abort() {
    let timing = Timing::standard();
    let m = monitor(MonitorPhase::Relocking, 5);
    assert_eq!(
        m.step(&timing, MonitorEvent::Locked(LockResult::Fatal)),
        Some((monitor(MonitorPhase::Aborted, 5), MonitorAction::Abort))
    );
    for result in [LockResult::Locked, LockResult::Failed, LockResult::Unsupported] {
        assert_eq!(
            m.step(&timing, MonitorEvent::Locked(result)),
            Some((monitor(MonitorPhase::Cooldown, 5), MonitorAction::Sleep(2000)))
        );
    }
    for event in [
        MonitorEvent::Done,
        MonitorEvent::StopSignal(true),
        MonitorEvent::LockStatus(false),
        MonitorEvent::Locked(LockResult::Locked),
        MonitorEvent::Locked(LockResult::Fatal),
    ] {
        assert_eq!(monitor(MonitorPhase::Aborted, 5).step(&timing, event), None);
    }
}

#[test]
fn fatal_initial_lock_fails_the_run_at_once() {
    let mut run = continuously_lock_screen(Duration::from_secs(300));
    assert_eq!(run.advance(), RunAction::Lock);
    run.lock_done(LockResult::Fatal);
    assert_eq!(run.phase, RunPhase::Failed);
    assert_eq!(run.advance(), RunAction::Abort);
    assert_eq!(run.advance(), RunAction::Abort);
    assert_eq!(run.phase, RunPhase::Failed);
}

#[test]
fn lock_that_is_not_fatal_lets_the_run_go_on() {
    for result in [LockResult::Locked, LockResult::Failed, LockResult::Unsupported] {
        let mut run = continuously_lock_screen(Duration::from_secs(300));
        assert_eq!(run.advance(), RunAction::Lock);
        run.lock_done(result);
        assert_eq!(run.phase, RunPhase::LockedInitial);
        assert_eq!(run.advance(), RunAction::StartMonitor);
    }
}

#[test]
fn lock_result_counts_only_after_the_initial_lock() {
    let mut run = continuously_lock_screen(Duration::from_secs(300));
    run.lock_done(LockResult::Fatal);
    assert_eq!(run.phase, RunPhase::Idle);
    assert_eq!(run.advance(), RunAction::Lock);
    assert_eq!(run.advance(), RunAction::StartMonitor);
    run.lock_done(LockResult::Fatal);
    assert_eq!(run.phase, RunPhase::Monitoring);
}

#[test]
fn aborted_monitor_fails_the_run_at_the_join() {
    let mut run = continuously_lock_screen(Duration::from_secs(300));
    for _ in 0..4 {
        run.advance();
    }
    // An early word of the monitor changes nothing: the caller learns at the join.
    run.monitor_joined(MonitorPhase::Aborted);
    assert_eq!(run.phase, RunPhase::Stopping);
    assert_eq!(run.advance(), RunAction::JoinMonitor);
    run.monitor_joined(MonitorPhase::Aborted);
    assert_eq!(run.phase, RunPhase::Failed);
    assert_eq!(run.advance(), RunAction::Abort);

    let mut run = continuously_lock_screen(Duration::from_secs(300));
    for _ in 0..5 {
        run.advance();
    }
    run.monitor_joined(MonitorPhase::Exited);
    assert_eq!(run.phase, RunPhase::Stopped);
    assert_eq!(run.advance(), RunAction::Return);
}

#[test]
fn supervised_run_with_a_fatal_initial_lock_starts_nothing() {
    for caller_first in [true, false] {
        let (locks, polls, ended, aborted) = simulate_with_locks(
            Duration::from_secs(10),
            Timing::standard(),
            &|_| false,
            &|_| LockResult::Fatal,
            caller_first,
        );
        assert!(aborted);
        assert_eq!(locks, vec![0]);
        assert_eq!(polls, 0);
        assert_eq!(ended, 0);
    }
}

#[test]
fn supervised_run_with_a_fatal_relock_does_not_return_normally() {
    for caller_first in [true, false] {
        let (locks, polls, ended, aborted) = simulate_with_locks(
            Duration::from_secs(10),
            Timing::standard(),
            &|_| false,
            &|lock| if lock == 0 { LockResult::Locked } else { LockResult::Fatal },
            caller_first,
        );
        assert!(aborted);
        // The initial lock, and the one re-lock that was fatal: none after it.
        assert_eq!(locks, vec![0, 4000]);
        assert_eq!(polls, 1);
        // The caller sleeps through its duration and learns at the join.
        assert_eq!(ended, 10_000);
    }
}
