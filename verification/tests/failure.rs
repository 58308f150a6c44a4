use sidecar_supervisor::failure::LaunchError;

#[test]
fn message_for_a_missing_candidate() {
    assert_eq!(
        LaunchError::CandidateNotFound.message(),
        "Could not find or start server executable"
    );
}

#[test]
fn message_for_a_spawn_failure_holds_the_reason() {
    let error = LaunchError::SpawnFailure("No such file or directory (os error 2)".to_string());
    assert_eq!(
        error.message(),
        "Failed to start server: No such file or directory (os error 2)"
    );
    assert_eq!(LaunchError::SpawnFailure(String::new()).message(), "Failed to start server: ");
}

#[test]
fn message_for_an_early_exit_holds_the_code() {
    assert_eq!(
        LaunchError::EarlyExit(1).message(),
        "Server process exited early with status: 1"
    );
    assert_eq!(
        LaunchError::EarlyExit(0).message(),
        "Server process exited early with status: 0"
    );
    assert_eq!(
        LaunchError::EarlyExit(-1073741819).message(),
        "Server process exited early with status: -1073741819"
    );
    assert_eq!(
        LaunchError::EarlyExit(i32::MIN).message(),
        "Server process exited early with status: -2147483648"
    );
}

#[test]
fn message_for_unknown_liveness() {
    assert_eq!(
        LaunchError::LivenessUnknown("No child processes (os error 10)".to_string()).message(),
        "Error checking server process: No child processes (os error 10)"
    );
    assert_eq!(
        LaunchError::LivenessUnknown(String::new()).message(),
        "Error checking server process: "
    );
}

#[test]
fn message_for_a_timeout_counts_whole_seconds() {
    let standard = LaunchError::HealthCheckTimeout { attempts: 30, interval_ms: 1000 };
    assert_eq!(standard.message(), "Server failed to start within 30 seconds");
    let short = LaunchError::HealthCheckTimeout { attempts: 3, interval_ms: 500 };
    assert_eq!(short.message(), "Server failed to start within 1 seconds");
    let none = LaunchError::HealthCheckTimeout { attempts: 0, interval_ms: 1000 };
    assert_eq!(none.message(), "Server failed to start within 0 seconds");
    let huge = LaunchError::HealthCheckTimeout { attempts: u32::MAX, interval_ms: u64::MAX };
    assert_eq!(huge.message(), "Server failed to start within 79228162495817593515539431 seconds");
}

#[test]
fn duplicate_is_equal() {
    let errors = vec![
        LaunchError::CandidateNotFound,
        LaunchError::SpawnFailure("denied".to_string()),
        LaunchError::EarlyExit(9),
        LaunchError::LivenessUnknown("gone".to_string()),
        LaunchError::HealthCheckTimeout { attempts: 30, interval_ms: 1000 },
    ];
    for error in errors {
        assert_eq!(error.duplicate(), error);
    }
}
