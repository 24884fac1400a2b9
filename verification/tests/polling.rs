use tesla::daemon::{is_online, Action, CycleEnd, Event, Phase, Scheduler};
use tesla::error::TeslaError;
use tesla::poll::{PollState, DEFAULT_POLL_INTERVAL, MAX_POLL_INTERVAL};

fn step(s: &mut Scheduler, event: Event, now: u64) -> Action {
    s.step(&event, now).expect("the event fits the phase")
}

/// Drives a daemon from the top of a cycle to the status fetch.
fn to_status_fetch(s: &mut Scheduler, now: u64) {
    assert_eq!(s.phase, Phase::Idle);
    assert_eq!(step(s, Event::Cancellation(false), now), Action::Refresh);
    assert_eq!(step(s, Event::Refreshed(true), now), Action::FetchStatus);
    assert_eq!(s.phase, Phase::FetchingStatus);
}

#[test]
fn standard_intervals() {
    assert_eq!(DEFAULT_POLL_INTERVAL, 10);
    assert_eq!(MAX_POLL_INTERVAL, 600);
    let p = PollState::standard(1000);
    assert_eq!(
        p,
        PollState { current_interval: 10, default_interval: 10, max_interval: 600, next_poll_at: 1000 }
    );
    assert!(p.is_due(1001));
    assert!(!p.is_due(1000));
    assert!(!p.is_due(999));
}

#[test]
fn new_refuses_a_default_above_the_maximum() {
    assert_eq!(PollState::new(11, 10, 0), Err(TeslaError::SystemError));
    assert_eq!(
        PollState::new(10, 10, 5),
        Ok(PollState { current_interval: 10, default_interval: 10, max_interval: 10, next_poll_at: 5 })
    );
}

#[test]
fn backoff_doubles_up_to_the_maximum() {
    let mut p = PollState::standard(0);
    let mut seen = Vec::new();
    for n in 0..8u64 {
        p.back_off(100 + n);
        seen.push(p.current_interval);
        assert_eq!(p.next_poll_at, 100 + n + p.current_interval);
    }
    assert_eq!(seen, vec![20, 40, 80, 160, 320, 600, 600, 600]);
}

#[test]
fn backoff_matches_the_closed_form() {
    for (default, max) in [(10u64, 600u64), (1, 1000), (7, 7), (0, 5), (3, 100)] {
        let mut p = PollState::new(default, max, 0).unwrap();
        for n in 1..=12u32 {
            p.back_off(0);
            let expected = std::cmp::min(default as u128 * 2u128.pow(n), max as u128) as u64;
            assert_eq!(p.current_interval, expected);
        }
    }
}

#[test]
fn backoff_near_the_top_of_the_range_does_not_overflow() {
    let mut p = PollState::new(u64::MAX / 2 + 1, u64::MAX, 0).unwrap();
    p.back_off(0);
    assert_eq!(p.current_interval, u64::MAX);
    assert_eq!(p.next_poll_at, u64::MAX);
}

#[test]
fn one_success_resets_the_interval() {
    let mut p = PollState::standard(0);
    p.back_off(1);
    p.back_off(2);
    p.back_off(3);
    assert_eq!(p.current_interval, 80);
    p.restore(50);
    assert_eq!(p.current_interval, 10);
    assert_eq!(p.next_poll_at, 60);
    assert_eq!(p.default_interval, 10);
    assert_eq!(p.max_interval, 600);
}

#[test]
fn online_is_the_only_state_that_counts() {
    assert!(is_online("online"));
    assert!(!is_online("asleep"));
    assert!(!is_online("offline"));
    assert!(!is_online("Online"));
    assert!(!is_online(""));
}

#[test]
fn daemon_starts_by_reading_the_stop_flag() {
    let (s, action) = Scheduler::start(PollState::standard(0));
    assert_eq!(s.phase, Phase::Idle);
    assert_eq!(action, Action::CheckCancellation);
}

#[test]
fn successful_cycle_saves_and_sleeps_for_the_default() {
    let (mut s, _) = Scheduler::start(PollState::standard(0));
    s.poll.back_off(0);
    assert_eq!(s.poll.current_interval, 20);
    to_status_fetch(&mut s, 100);
    assert_eq!(step(&mut s, Event::Status(Some("online".to_string())), 100), Action::FetchTelemetry);
    assert_eq!(s.phase, Phase::FetchingTelemetry);
    assert_eq!(step(&mut s, Event::Telemetry(true), 101), Action::Save);
    assert_eq!(s.phase, Phase::Saving);
    assert_eq!(s.poll.current_interval, 20);
    assert_eq!(step(&mut s, Event::Saved, 102), Action::Sleep(10, CycleEnd::Saved));
    assert_eq!(s.phase, Phase::Sleeping);
    assert_eq!(s.poll.current_interval, 10);
    assert_eq!(s.poll.next_poll_at, 112);
    assert_eq!(step(&mut s, Event::Cancellation(false), 112), Action::CheckCancellation);
    assert_eq!(s.phase, Phase::Idle);
}

#[test]
fn asleep_vehicle_skips_telemetry_and_doubles_the_interval() {
    let (mut s, _) = Scheduler::start(PollState::standard(0));
    to_status_fetch(&mut s, 50);
    let action = step(&mut s, Event::Status(Some("asleep".to_string())), 50);
    assert_eq!(action, Action::Sleep(20, CycleEnd::NotOnline));
    assert_eq!(s.phase, Phase::Sleeping);
    assert_eq!(s.poll.current_interval, 20);
    assert_eq!(s.poll.next_poll_at, 70);
    // Neither the telemetry nor the sink can be reached from here.
    assert_eq!(s.step(&Event::Telemetry(true), 51), Err(TeslaError::SystemError));
    assert_eq!(s.step(&Event::Saved, 51), Err(TeslaError::SystemError));
    assert_eq!(s.phase, Phase::Sleeping);
    assert_eq!(s.poll.current_interval, 20);
}

#[test]
fn failed_status_fetch_backs_off() {
    let (mut s, _) = Scheduler::start(PollState::standard(0));
    to_status_fetch(&mut s, 0);
    assert_eq!(step(&mut s, Event::Status(None), 5), Action::Sleep(20, CycleEnd::StatusFailed));
    assert_eq!(s.poll.next_poll_at, 25);
}

#[test]
fn failed_telemetry_fetch_backs_off_without_the_sink() {
    let (mut s, _) = Scheduler::start(PollState::standard(0));
    to_status_fetch(&mut s, 0);
    step(&mut s, Event::Status(Some("online".to_string())), 0);
    assert_eq!(step(&mut s, Event::Telemetry(false), 0), Action::Sleep(20, CycleEnd::TelemetryFailed));
    assert_eq!(s.phase, Phase::Sleeping);
}

#[test]
fn failed_refresh_backs_off_and_keeps_the_daemon_alive() {
    let (mut s, _) = Scheduler::start(PollState::standard(0));
    assert_eq!(step(&mut s, Event::Cancellation(false), 0), Action::Refresh);
    assert_eq!(step(&mut s, Event::Refreshed(false), 0), Action::Sleep(20, CycleEnd::RefreshFailed));
    assert_eq!(s.phase, Phase::Sleeping);
    assert_eq!(step(&mut s, Event::Cancellation(false), 20), Action::CheckCancellation);
}

#[test]
fn consecutive_failures_grow_the_sleep() {
    let (mut s, _) = Scheduler::start(PollState::standard(0));
    let mut sleeps = Vec::new();
    for _ in 0..7 {
        to_status_fetch(&mut s, 0);
        match step(&mut s, Event::Status(Some("asleep".to_string())), 0) {
            Action::Sleep(seconds, CycleEnd::NotOnline) => sleeps.push(seconds),
            other => panic!("unexpected action {:?}", other),
        }
        assert_eq!(step(&mut s, Event::Cancellation(false), 0), Action::CheckCancellation);
    }
    assert_eq!(sleeps, vec![20, 40, 80, 160, 320, 600, 600]);
}

#[test]
fn cancellation_during_sleep_shuts_down_once() {
    let (mut s, _) = Scheduler::start(PollState::standard(0));
    to_status_fetch(&mut s, 0);
    step(&mut s, Event::Status(Some("asleep".to_string())), 0);
    assert_eq!(s.phase, Phase::Sleeping);
    // The flag was set while the daemon slept.
    assert_eq!(step(&mut s, Event::Cancellation(true), 20), Action::Shutdown);
    assert_eq!(s.phase, Phase::Stopped);
    // Nothing follows: no status fetch, no second shutdown.
    for event in [
        Event::Cancellation(true),
        Event::Cancellation(false),
        Event::Refreshed(true),
        Event::Status(Some("online".to_string())),
        Event::Status(None),
        Event::Telemetry(true),
        Event::Saved,
    ] {
        assert_eq!(s.step(&event, 21), Err(TeslaError::SystemError));
        assert_eq!(s.phase, Phase::Stopped);
    }
}

#[test]
fn cancellation_at_the_top_of_a_cycle_shuts_down() {
    let (mut s, _) = Scheduler::start(PollState::standard(0));
    assert_eq!(step(&mut s, Event::Cancellation(true), 0), Action::Shutdown);
    assert_eq!(s.phase, Phase::Stopped);
    assert_eq!(s.poll, PollState::standard(0));
}

#[test]
fn cancellation_is_not_seen_in_the_middle_of_a_cycle() {
    let (mut s, _) = Scheduler::start(PollState::standard(0));
    to_status_fetch(&mut s, 0);
    let before = s;
    assert_eq!(s.step(&Event::Cancellation(true), 0), Err(TeslaError::SystemError));
    assert_eq!(s, before);
}

#[test]
fn events_out_of_turn_change_nothing() {
    let (mut s, _) = Scheduler::start(PollState::standard(0));
    let before = s;
    assert_eq!(s.step(&Event::Status(Some("online".to_string())), 0), Err(TeslaError::SystemError));
    assert_eq!(s.step(&Event::Refreshed(true), 0), Err(TeslaError::SystemError));
    assert_eq!(s.step(&Event::Saved, 0), Err(TeslaError::SystemError));
    assert_eq!(s, before);
}
