use selection_replace::activation::{
    ActivationConfig, ActivationState, Observation, ACTIVATION_TIMEOUT, POLL_INTERVAL,
    SETTLE_DELAY,
};
use selection_replace::resolver::WindowHandle;

const TARGET: WindowHandle = WindowHandle(42);
const OTHER: WindowHandle = WindowHandle(7);

fn config(poll_interval: u64, timeout: u64) -> ActivationConfig {
    ActivationConfig { poll_interval, timeout, settle: 0 }
}

fn polls_until_settled(config: &ActivationConfig, clock: impl Fn(u64) -> u64) -> (u64, ActivationState) {
    let mut state = ActivationState::Polling;
    let mut polls = 0u64;
    while state == ActivationState::Polling {
        let seen = Observation { foreground: OTHER, elapsed: clock(polls) };
        state = state.foreground_seen(config, TARGET, seen);
        polls += 1;
        assert!(polls < 1_000_000, "polling does not end");
    }
    (polls, state)
}

fn ceil_div(a: u64, b: u64) -> u64 {
    (a + b - 1) / b
}

#[test]
fn reference_config_has_the_usual_times() {
    let config = ActivationConfig::reference();
    assert_eq!(config.poll_interval, 50_000_000);
    assert_eq!(config.timeout, 2_000_000_000);
    assert_eq!(config.settle, 300_000_000);
    assert_eq!(POLL_INTERVAL, 50_000_000);
    assert_eq!(ACTIVATION_TIMEOUT, 2_000_000_000);
    assert_eq!(SETTLE_DELAY, 300_000_000);
}

#[test]
fn accepted_request_starts_polling() {
    assert_eq!(ActivationState::Requested.request_answered(true), ActivationState::Polling);
}

#[test]
fn refused_request_is_denied() {
    assert_eq!(ActivationState::Requested.request_answered(false), ActivationState::Denied);
}

#[test]
fn answer_changes_nothing_once_requested_is_left() {
    for state in [
        ActivationState::Polling,
        ActivationState::Activated,
        ActivationState::TimedOut,
        ActivationState::Denied,
    ] {
        assert_eq!(state.request_answered(true), state);
        assert_eq!(state.request_answered(false), state);
    }
}

#[test]
fn target_in_front_activates() {
    let config = ActivationConfig::reference();
    let seen = Observation { foreground: TARGET, elapsed: 0 };
    assert_eq!(ActivationState::Polling.foreground_seen(&config, TARGET, seen), ActivationState::Activated);
}

#[test]
fn target_in_front_activates_even_after_the_timeout() {
    let config = ActivationConfig::reference();
    let seen = Observation { foreground: TARGET, elapsed: ACTIVATION_TIMEOUT + 1 };
    assert_eq!(ActivationState::Polling.foreground_seen(&config, TARGET, seen), ActivationState::Activated);
}

#[test]
fn other_window_in_front_keeps_polling_until_time_is_up() {
    let config = ActivationConfig::reference();
    let early = Observation { foreground: OTHER, elapsed: 0 };
    let at_limit = Observation { foreground: OTHER, elapsed: ACTIVATION_TIMEOUT };
    let late = Observation { foreground: OTHER, elapsed: ACTIVATION_TIMEOUT + 1 };
    assert_eq!(ActivationState::Polling.foreground_seen(&config, TARGET, early), ActivationState::Polling);
    assert_eq!(ActivationState::Polling.foreground_seen(&config, TARGET, at_limit), ActivationState::Polling);
    assert_eq!(ActivationState::Polling.foreground_seen(&config, TARGET, late), ActivationState::TimedOut);
}

#[test]
fn look_changes_nothing_outside_polling() {
    let config = ActivationConfig::reference();
    let seen = Observation { foreground: TARGET, elapsed: u64::MAX };
    for state in [
        ActivationState::Requested,
        ActivationState::Activated,
        ActivationState::TimedOut,
        ActivationState::Denied,
    ] {
        assert_eq!(state.foreground_seen(&config, TARGET, seen), state);
    }
}

#[test]
fn timeout_comes_within_the_poll_bound_with_reference_times() {
    let config = ActivationConfig::reference();
    let (polls, state) = polls_until_settled(&config, |k| k * POLL_INTERVAL + 1);
    assert_eq!(state, ActivationState::TimedOut);
    assert_eq!(polls, 41);
    assert!(polls <= ceil_div(config.timeout, config.poll_interval) + 1);
}

#[test]
fn timeout_comes_within_the_poll_bound_for_many_intervals() {
    for (interval, timeout) in [(1u64, 0u64), (1, 1), (3, 10), (10, 3), (50, 2000), (7, 7), (1000, 1)] {
        let config = config(interval, timeout);
        let (polls, state) = polls_until_settled(&config, |k| k * interval + 1);
        assert_eq!(state, ActivationState::TimedOut);
        assert!(polls <= ceil_div(timeout, interval) + 1, "{} {}", interval, timeout);
    }
}

#[test]
fn timeout_comes_sooner_when_looks_are_slow() {
    let config = config(50, 2000);
    let (polls, state) = polls_until_settled(&config, |k| k * 700 + 5);
    assert_eq!(state, ActivationState::TimedOut);
    assert_eq!(polls, 4);
}

#[test]
fn clock_that_reads_exact_multiples_takes_one_more_look() {
    let config = config(50, 2000);
    let (polls, state) = polls_until_settled(&config, |k| k * 50);
    assert_eq!(state, ActivationState::TimedOut);
    assert_eq!(polls, 42);
}

#[test]
fn activation_after_some_polls() {
    let config = ActivationConfig::reference();
    let mut state = ActivationState::Requested.request_answered(true);
    for k in 0..5u64 {
        let seen = Observation { foreground: OTHER, elapsed: k * POLL_INTERVAL + 1000 };
        state = state.foreground_seen(&config, TARGET, seen);
        assert_eq!(state, ActivationState::Polling);
    }
    let seen = Observation { foreground: TARGET, elapsed: 5 * POLL_INTERVAL + 1000 };
    state = state.foreground_seen(&config, TARGET, seen);
    assert_eq!(state, ActivationState::Activated);
}
