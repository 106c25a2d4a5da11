use drone_bridge::cors::CORS;
use drone_bridge::resilience::{
    check_mqtt_connection, ProbeEvent, ProbePhase, Retry, RetryPolicy, RetryStep, HEALTH_CHECK_TIMEOUT_SECS,
};

#[test]
fn unacknowledged_probe_is_unhealthy() {
    assert_eq!(HEALTH_CHECK_TIMEOUT_SECS, 5);
    let p = check_mqtt_connection(ProbePhase::Publishing, ProbeEvent::Published);
    assert_eq!(p, ProbePhase::AwaitingAck);
    let p = check_mqtt_connection(p, ProbeEvent::Outgoing);
    assert_eq!(p, ProbePhase::AwaitingAck);
    assert!(!p.is_settled());
    let p = check_mqtt_connection(p, ProbeEvent::TimedOut);
    assert_eq!(p, ProbePhase::Unhealthy);
    assert!(p.is_settled());
    assert_eq!(check_mqtt_connection(p, ProbeEvent::Incoming), ProbePhase::Unhealthy);
}

#[test]
fn acknowledged_probe_is_healthy() {
    let p = check_mqtt_connection(ProbePhase::Publishing, ProbeEvent::Published);
    assert_eq!(check_mqtt_connection(p, ProbeEvent::Incoming), ProbePhase::Healthy);
}

#[test]
fn publish_failure_is_unhealthy() {
    assert_eq!(check_mqtt_connection(ProbePhase::Publishing, ProbeEvent::PublishFailed), ProbePhase::Unhealthy);
    assert_eq!(check_mqtt_connection(ProbePhase::Publishing, ProbeEvent::TimedOut), ProbePhase::Unhealthy);
    assert_eq!(check_mqtt_connection(ProbePhase::AwaitingAck, ProbeEvent::PollFailed), ProbePhase::Unhealthy);
}

#[test]
fn budget_of_failed_checks_exhausts() {
    let policy = RetryPolicy::standard();
    assert_eq!(policy.max_attempts, 10);
    assert_eq!(policy.backoff_secs, 1);
    let mut r = Retry::new(policy);
    for _ in 0..9 {
        assert!(r.may_attempt());
        assert_eq!(r.record(false), RetryStep::Backoff { secs: 1 });
    }
    assert_eq!(r.record(false), RetryStep::Exhausted);
    assert!(!r.may_attempt());
    assert_eq!(r.record(true), RetryStep::Exhausted);
}

#[test]
fn success_within_budget_proceeds() {
    let mut r = Retry::new(RetryPolicy { max_attempts: 3, backoff_secs: 2 });
    assert_eq!(r.record(false), RetryStep::Backoff { secs: 2 });
    assert_eq!(r.record(true), RetryStep::Proceed);
    assert_eq!(r.attempts_left, 2);
}

#[test]
fn zero_budget_is_exhausted_at_once() {
    let mut r = Retry::new(RetryPolicy { max_attempts: 0, backoff_secs: 1 });
    assert!(!r.may_attempt());
    assert_eq!(r.record(true), RetryStep::Exhausted);
}

#[test]
fn cors_headers() {
    let h = CORS.headers();
    assert_eq!(h.len(), 4);
    assert_eq!(h[0], ("Access-Control-Allow-Origin".to_string(), "*".to_string()));
    assert_eq!(h[1].1, "POST, GET, PATCH, OPTIONS");
    assert_eq!(h[3], ("Access-Control-Allow-Credentials".to_string(), "true".to_string()));
}
