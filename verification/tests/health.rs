use sidecar_supervisor::health::{classify, HealthStatus, ProbeOutcome};

#[test]
fn success_class_is_healthy() {
    assert_eq!(classify(ProbeOutcome::Responded(200)), HealthStatus::Healthy);
    assert_eq!(classify(ProbeOutcome::Responded(204)), HealthStatus::Healthy);
    assert_eq!(classify(ProbeOutcome::Responded(299)), HealthStatus::Healthy);
}

#[test]
fn codes_beside_the_success_class_are_unhealthy() {
    assert_eq!(classify(ProbeOutcome::Responded(100)), HealthStatus::Unhealthy);
    assert_eq!(classify(ProbeOutcome::Responded(199)), HealthStatus::Unhealthy);
    assert_eq!(classify(ProbeOutcome::Responded(300)), HealthStatus::Unhealthy);
    assert_eq!(classify(ProbeOutcome::Responded(404)), HealthStatus::Unhealthy);
    assert_eq!(classify(ProbeOutcome::Responded(500)), HealthStatus::Unhealthy);
    assert_eq!(classify(ProbeOutcome::Responded(999)), HealthStatus::Unhealthy);
}

#[test]
fn numbers_that_are_no_status_code_are_unhealthy() {
    assert_eq!(classify(ProbeOutcome::Responded(0)), HealthStatus::Unhealthy);
    assert_eq!(classify(ProbeOutcome::Responded(99)), HealthStatus::Unhealthy);
    assert_eq!(classify(ProbeOutcome::Responded(1000)), HealthStatus::Unhealthy);
    assert_eq!(classify(ProbeOutcome::Responded(u16::MAX)), HealthStatus::Unhealthy);
}

#[test]
fn transport_errors_and_timeouts_are_unhealthy() {
    assert_eq!(classify(ProbeOutcome::TransportError), HealthStatus::Unhealthy);
    assert_eq!(classify(ProbeOutcome::TimedOut), HealthStatus::Unhealthy);
}

#[test]
fn every_code_gets_one_of_the_two_verdicts() {
    let mut code: u16 = 0;
    loop {
        let verdict = classify(ProbeOutcome::Responded(code));
        let expected = if (200..=299).contains(&code) {
            HealthStatus::Healthy
        } else {
            HealthStatus::Unhealthy
        };
        assert_eq!(verdict, expected);
        if code == u16::MAX {
            break;
        }
        code += 1;
    }
}
