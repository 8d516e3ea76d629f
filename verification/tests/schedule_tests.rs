use stress_test::schedule::{
    dispatch_over, ideal_dispatch_count, pacing_interval_us, probe_decision, ConfigError,
    ProbeDecision,
};

#[test]
fn pacing_interval_is_a_million_over_the_rate() {
    assert_eq!(pacing_interval_us(1), Ok(1_000_000));
    assert_eq!(pacing_interval_us(5), Ok(200_000));
    assert_eq!(pacing_interval_us(1000), Ok(1_000));
    assert_eq!(pacing_interval_us(3), Ok(333_333));
}

#[test]
fn zero_rate_is_a_configuration_error() {
    assert_eq!(pacing_interval_us(0), Err(ConfigError::ZeroRate));
}

#[test]
fn dispatch_stops_at_the_duration() {
    assert!(!dispatch_over(0, 30));
    assert!(!dispatch_over(29, 30));
    assert!(dispatch_over(30, 30));
    assert!(dispatch_over(31, 30));
    assert!(dispatch_over(0, 0));
}

#[test]
fn nominal_dispatch_window() {
    assert_eq!(ideal_dispatch_count(2, 5), 11);
    assert_eq!(ideal_dispatch_count(30, 1), 31);
    assert_eq!(ideal_dispatch_count(0, 10), 1);
}

#[test]
fn probe_decisions() {
    assert_eq!(probe_decision(true, 0, 5), ProbeDecision::Ready);
    assert_eq!(probe_decision(true, 4, 5), ProbeDecision::Ready);
    assert_eq!(probe_decision(false, 0, 5), ProbeDecision::Retry);
    assert_eq!(probe_decision(false, 3, 5), ProbeDecision::Retry);
    assert_eq!(probe_decision(false, 4, 5), ProbeDecision::GiveUp);
    assert_eq!(probe_decision(false, 0, 1), ProbeDecision::GiveUp);
}
