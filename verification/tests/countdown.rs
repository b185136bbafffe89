use lola::countdown::{MAX_PAUSED_NANOS, MAX_START_SECONDS};
use lola::{CountdownError, CountdownState, Phase, Timestamp};

fn at(secs: i64) -> Timestamp {
    Timestamp::new(secs, 0)
}

fn running(seconds: u64, since: i64) -> CountdownState {
    let mut state = CountdownState::new();
    assert_eq!(state.start(seconds, at(since)), Ok(()));
    state
}

#[test]
fn new_state_is_stopped_and_empty() {
    let state = CountdownState::new();
    assert_eq!(state.phase(), Phase::Stopped);
    assert_eq!(state.start_time(), None);
    assert_eq!(state.duration(), 0);
    assert!(!state.is_paused());
    assert_eq!(state.pause_start(), None);
    assert_eq!(state.paused_nanos(), 0);
    assert!(!state.announced());
    assert_eq!(state, CountdownState::default());
}

#[test]
fn status_of_a_stopped_countdown() {
    let mut state = CountdownState::new();
    let report = state.status(at(1_000));
    assert_eq!(report.status.remaining_seconds, 0);
    assert_eq!(report.status.status, "stopped");
    assert!(!report.announce);
    assert_eq!(state, CountdownState::new());
}

#[test]
fn start_records_the_run() {
    let mut state = CountdownState::new();
    assert_eq!(state.start(100, Timestamp::new(1_000, 250)), Ok(()));
    assert_eq!(state.start_time(), Some(Timestamp::new(1_000, 250)));
    assert_eq!(state.duration(), 100);
    assert!(!state.is_paused());
    assert_eq!(state.pause_start(), None);
    assert_eq!(state.paused_nanos(), 0);
    assert!(!state.announced());
    assert_eq!(state.phase(), Phase::Running);
}

#[test]
fn status_right_after_start_shows_the_whole_run() {
    let mut state = running(100, 1_000);
    let report = state.status(at(1_000));
    assert_eq!(report.status.remaining_seconds, 100);
    assert_eq!(report.status.status, "running");
    assert!(!report.announce);
}

#[test]
fn start_accepts_three_hours_to_the_second() {
    let mut state = CountdownState::new();
    assert_eq!(MAX_START_SECONDS, 10_800);
    assert_eq!(state.start(10_800, at(5)), Ok(()));
    assert_eq!(state.remaining_seconds(at(5)), 10_800);
    assert_eq!(state.start(0, at(6)), Ok(()));
    assert_eq!(state.remaining_seconds(at(6)), 0);
}

#[test]
fn start_refuses_more_than_three_hours_and_keeps_the_state() {
    let mut fresh = CountdownState::new();
    assert_eq!(fresh.start(10_801, at(1_000)), Err(CountdownError::InvalidDuration));
    assert_eq!(fresh, CountdownState::new());

    let mut state = running(100, 1_000);
    assert_eq!(state.pause(at(1_010)), Ok(()));
    let before = state;
    assert_eq!(state.start(10_801, at(1_020)), Err(CountdownError::InvalidDuration));
    assert_eq!(state.start(u64::MAX, at(1_020)), Err(CountdownError::InvalidDuration));
    assert_eq!(state, before);
    assert_eq!(state.remaining_seconds(at(1_020)), 90);
    assert_eq!(state.phase(), Phase::Paused);
}

#[test]
fn start_replaces_a_run_in_progress() {
    let mut state = running(100, 1_000);
    assert_eq!(state.pause(at(1_010)), Ok(()));
    assert_eq!(state.resume(at(1_020)), Ok(()));
    assert!(state.status(at(2_000)).announce);
    assert_eq!(state.start(50, at(3_000)), Ok(()));
    assert_eq!(state, running(50, 3_000));
}

#[test]
fn remaining_counts_whole_seconds_used() {
    let state = running(100, 1_000);
    assert_eq!(state.remaining_seconds(Timestamp::new(1_000, 999_999_999)), 100);
    assert_eq!(state.remaining_seconds(at(1_001)), 99);
    assert_eq!(state.remaining_seconds(Timestamp::new(1_001, 999_999_999)), 99);
    assert_eq!(state.remaining_seconds(at(1_030)), 70);
    assert_eq!(state.remaining_seconds(Timestamp::new(1_099, 999_999_999)), 1);
    assert_eq!(state.remaining_seconds(at(1_100)), 0);
    assert_eq!(state.remaining_seconds(at(5_000)), 0);
}

#[test]
fn remaining_counts_from_the_nanosecond_of_the_start() {
    let mut state = CountdownState::new();
    assert_eq!(state.start(100, Timestamp::new(1_000, 500_000_000)), Ok(()));
    assert_eq!(state.remaining_seconds(Timestamp::new(1_001, 499_999_999)), 100);
    assert_eq!(state.remaining_seconds(Timestamp::new(1_001, 500_000_000)), 99);
}

#[test]
fn remaining_grows_where_the_clock_went_back() {
    let state = running(100, 1_000);
    assert_eq!(state.remaining_seconds(Timestamp::new(999, 500_000_000)), 100);
    assert_eq!(state.remaining_seconds(at(999)), 101);
    assert_eq!(state.remaining_seconds(at(990)), 110);
}

#[test]
fn remaining_stops_at_the_largest_count() {
    let mut state = CountdownState::new();
    assert_eq!(state.restart(u64::MAX, at(1_000)), Ok(()));
    assert_eq!(state.remaining_seconds(at(1_000)), u64::MAX);
    assert_eq!(state.remaining_seconds(at(1_001)), u64::MAX - 1);
    assert_eq!(state.remaining_seconds(at(990)), u64::MAX);
    assert_eq!(state.restart(5, Timestamp::new(i64::MAX, 0)), Ok(()));
    assert_eq!(state.remaining_seconds(Timestamp::new(i64::MIN, 0)), u64::MAX);
    assert_eq!(state.restart(5, Timestamp::new(i64::MIN, 0)), Ok(()));
    assert_eq!(state.remaining_seconds(Timestamp::new(i64::MAX, u32::MAX)), 0);
}

#[test]
fn pause_needs_a_started_countdown() {
    let mut state = CountdownState::new();
    assert_eq!(state.pause(at(1_000)), Err(CountdownError::NotStarted));
    assert_eq!(state, CountdownState::new());
}

#[test]
fn pause_records_its_beginning() {
    let mut state = running(100, 1_000);
    assert_eq!(state.pause(Timestamp::new(1_010, 7)), Ok(()));
    assert!(state.is_paused());
    assert_eq!(state.pause_start(), Some(Timestamp::new(1_010, 7)));
    assert_eq!(state.paused_nanos(), 0);
    assert_eq!(state.start_time(), Some(at(1_000)));
    assert_eq!(state.duration(), 100);
    assert_eq!(state.phase(), Phase::Paused);
    let report = state.status(at(1_500));
    assert_eq!(report.status.status, "paused");
    assert_eq!(report.status.remaining_seconds, 90);
}

#[test]
fn pause_on_a_paused_countdown_resumes_it() {
    let mut state = running(100, 1_000);
    assert_eq!(state.pause(at(1_010)), Ok(()));
    assert_eq!(state.pause(at(1_030)), Ok(()));
    assert!(!state.is_paused());
    assert_eq!(state.pause_start(), None);
    assert_eq!(state.paused_nanos(), 20_000_000_000);
    assert_eq!(state.phase(), Phase::Running);
    assert_eq!(state.remaining_seconds(at(1_030)), 90);
}

#[test]
fn resume_without_a_pause_is_refused() {
    let mut fresh = CountdownState::new();
    assert_eq!(fresh.resume(at(1_000)), Err(CountdownError::NotPaused));
    assert_eq!(fresh, CountdownState::new());

    let mut state = running(100, 1_000);
    let before = state;
    assert_eq!(state.resume(at(1_050)), Err(CountdownError::NotPaused));
    assert_eq!(state, before);
    assert_eq!(state.start_time(), Some(at(1_000)));
    assert_eq!(state.paused_nanos(), 0);
    assert_eq!(state.remaining_seconds(at(1_050)), 50);
}

#[test]
fn resume_after_a_resume_is_refused() {
    let mut state = running(100, 1_000);
    assert_eq!(state.pause(at(1_010)), Ok(()));
    assert_eq!(state.resume(at(1_020)), Ok(()));
    let before = state;
    assert_eq!(state.resume(at(1_030)), Err(CountdownError::NotPaused));
    assert_eq!(state, before);
}

#[test]
fn pause_then_resume_at_once_changes_nothing() {
    let mut state = running(100, 1_000);
    let before = state;
    let moment = Timestamp::new(1_002, 300_000_000);
    assert_eq!(state.pause(moment), Ok(()));
    assert_eq!(state.resume(moment), Ok(()));
    assert_eq!(state, before);
    assert_eq!(state.remaining_seconds(moment), 98);
    assert_eq!(state.remaining_seconds(at(1_050)), 50);
}

#[test]
fn time_spent_paused_does_not_count() {
    let mut state = running(100, 1_000);
    assert_eq!(state.pause(at(1_002)), Ok(()));
    assert_eq!(state.remaining_seconds(at(1_004)), 98);
    assert_eq!(state.resume(at(1_007)), Ok(()));
    let report = state.status(at(1_007));
    assert_eq!(report.status.remaining_seconds, 98);
    assert_eq!(report.status.status, "running");
    assert_eq!(state.paused_nanos(), 5_000_000_000);
    assert_eq!(state.remaining_seconds(at(1_017)), 88);
}

#[test]
fn pauses_add_up() {
    let mut state = running(100, 1_000);
    assert_eq!(state.pause(at(1_010)), Ok(()));
    assert_eq!(state.resume(Timestamp::new(1_020, 500_000_000)), Ok(()));
    assert_eq!(state.paused_nanos(), 10_500_000_000);
    assert_eq!(state.pause(at(1_030)), Ok(()));
    assert_eq!(state.resume(Timestamp::new(1_031, 500_000_000)), Ok(()));
    assert_eq!(state.paused_nanos(), 12_000_000_000);
    assert_eq!(state.remaining_seconds(at(1_052)), 60);
}

#[test]
fn a_pause_that_ends_before_it_began_shortens_the_total() {
    let mut state = running(100, 1_000);
    assert_eq!(state.pause(at(1_010)), Ok(()));
    assert_eq!(state.resume(at(1_005)), Ok(()));
    assert_eq!(state.paused_nanos(), -5_000_000_000);
    assert_eq!(state.remaining_seconds(at(1_005)), 90);
}

#[test]
fn resume_refuses_a_total_it_cannot_keep() {
    assert_eq!(MAX_PAUSED_NANOS, 9_223_372_036_854_775_807_000_000);
    let mut state = running(100, 0);
    assert_eq!(state.pause(at(0)), Ok(()));
    let before = state;
    assert_eq!(state.resume(at(i64::MAX)), Err(CountdownError::PauseOutOfRange));
    assert_eq!(state, before);
    assert_eq!(state.pause(at(i64::MAX)), Err(CountdownError::PauseOutOfRange));
    assert_eq!(state, before);
    assert_eq!(state.resume(at(i64::MIN)), Err(CountdownError::PauseOutOfRange));
    assert_eq!(state, before);

    let last = Timestamp::new(9_223_372_036_854_775, 807_000_000);
    let mut kept = before;
    assert_eq!(kept.resume(last), Ok(()));
    assert_eq!(kept.paused_nanos(), MAX_PAUSED_NANOS);

    let past = Timestamp::new(9_223_372_036_854_775, 807_000_001);
    let mut refused = before;
    assert_eq!(refused.resume(past), Err(CountdownError::PauseOutOfRange));
    assert_eq!(refused, before);
}

#[test]
fn restart_begins_a_run_from_any_state() {
    let mut stopped = CountdownState::new();
    assert_eq!(stopped.restart(30, at(500)), Ok(()));
    assert_eq!(stopped, running(30, 500));

    let mut paused = running(100, 1_000);
    assert_eq!(paused.pause(at(1_010)), Ok(()));
    assert_eq!(paused.restart(30, at(2_000)), Ok(()));
    assert_eq!(paused, running(30, 2_000));
    assert!(!paused.is_paused());
    assert_eq!(paused.pause_start(), None);
    assert_eq!(paused.paused_nanos(), 0);

    let mut expired = running(10, 1_000);
    assert!(expired.status(at(1_010)).announce);
    assert!(expired.announced());
    assert_eq!(expired.restart(30, at(2_000)), Ok(()));
    assert!(!expired.announced());
    let report = expired.status(at(2_000));
    assert_eq!(report.status.remaining_seconds, 30);
    assert_eq!(report.status.status, "running");
    assert!(!report.announce);
}

#[test]
fn restart_takes_runs_longer_than_three_hours() {
    let mut state = CountdownState::new();
    assert_eq!(state.restart(10_801, at(1_000)), Ok(()));
    assert_eq!(state.duration(), 10_801);
    assert_eq!(state.remaining_seconds(at(1_001)), 10_800);
    assert_eq!(state.restart(1_000_000, at(2_000)), Ok(()));
    assert_eq!(state.remaining_seconds(at(2_000)), 1_000_000);
}

#[test]
fn reset_stops_the_countdown_from_any_state() {
    let mut fresh = CountdownState::new();
    assert_eq!(fresh.reset(), Ok(()));
    assert_eq!(fresh, CountdownState::new());

    let mut run = running(100, 1_000);
    assert_eq!(run.reset(), Ok(()));
    assert_eq!(run, CountdownState::new());

    let mut paused = running(100, 1_000);
    assert_eq!(paused.pause(at(1_010)), Ok(()));
    assert_eq!(paused.reset(), Ok(()));
    assert_eq!(paused, CountdownState::new());

    let mut expired = running(10, 1_000);
    assert!(expired.status(at(1_020)).announce);
    assert_eq!(expired.reset(), Ok(()));
    assert_eq!(expired, CountdownState::new());
    let report = expired.status(at(1_030));
    assert_eq!(report.status.remaining_seconds, 0);
    assert_eq!(report.status.status, "stopped");
    assert!(!report.announce);
}

#[test]
fn expiry_is_announced_once_in_a_run() {
    let mut state = running(10, 1_000);
    assert!(!state.status(at(1_009)).announce);
    assert!(!state.announced());

    let first = state.status(at(1_010));
    assert_eq!(first.status.remaining_seconds, 0);
    assert_eq!(first.status.status, "running");
    assert!(first.announce);
    assert!(state.announced());

    assert!(!state.status(at(1_010)).announce);
    assert!(!state.status(at(1_500)).announce);
    assert_eq!(state.pause(at(1_600)), Ok(()));
    assert!(!state.status(at(1_700)).announce);
    assert_eq!(state.resume(at(1_800)), Ok(()));
    let late = state.status(at(1_900));
    assert_eq!(late.status.remaining_seconds, 0);
    assert!(!late.announce);
}

#[test]
fn expiry_is_announced_again_in_the_next_run() {
    let mut state = running(10, 1_000);
    assert!(state.status(at(1_010)).announce);
    assert_eq!(state.start(10, at(2_000)), Ok(()));
    assert!(!state.status(at(2_005)).announce);
    assert!(state.status(at(2_010)).announce);
    assert!(!state.status(at(2_011)).announce);
    assert_eq!(state.restart(0, at(3_000)), Ok(()));
    assert!(state.status(at(3_000)).announce);
    assert!(!state.status(at(3_000)).announce);
}

#[test]
fn expiry_is_announced_while_paused() {
    let mut state = running(0, 1_000);
    assert_eq!(state.pause(at(1_000)), Ok(()));
    let report = state.status(at(1_000));
    assert_eq!(report.status.status, "paused");
    assert_eq!(report.status.remaining_seconds, 0);
    assert!(report.announce);
    assert!(!state.status(at(1_001)).announce);
}

#[test]
fn status_changes_nothing_but_the_announcement() {
    let mut state = running(100, 1_000);
    let before = state;
    let report = state.status(at(1_050));
    assert_eq!(report.status.remaining_seconds, 50);
    assert!(!report.announce);
    assert_eq!(state, before);
    assert!(state.status(at(1_100)).announce);
    assert_eq!(state.start_time(), before.start_time());
    assert_eq!(state.duration(), before.duration());
    assert_eq!(state.paused_nanos(), before.paused_nanos());
    assert_eq!(state.is_paused(), before.is_paused());
}

#[test]
fn phases_have_their_labels() {
    assert_eq!(Phase::Stopped.label(), "stopped");
    assert_eq!(Phase::Paused.label(), "paused");
    assert_eq!(Phase::Running.label(), "running");
}

#[test]
fn refusals_have_their_messages() {
    assert_eq!(
        CountdownError::InvalidDuration.message(),
        "Duration cannot exceed 3 hours (10800 seconds)"
    );
    assert_eq!(CountdownError::NotStarted.message(), "Countdown not started");
    assert_eq!(CountdownError::NotPaused.message(), "Countdown is not paused");
    assert_eq!(CountdownError::PauseOutOfRange.message(), "Paused time is out of range");
}
