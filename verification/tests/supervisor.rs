use sidecar_supervisor::candidate::{CandidateKind, ServerCandidate};
use sidecar_supervisor::failure::LaunchError;
use sidecar_supervisor::health::ProbeOutcome;
use sidecar_supervisor::launcher::{
    LaunchPlan, LifecycleState, LivenessCheck, ProcessHandle, SpawnOutcome, StdioPolicy,
};
use sidecar_supervisor::readiness::{ReadinessPolicy, WaitPhase, WaitState};
use sidecar_supervisor::supervisor::{
    Action, Event, Phase, StartStrategy, Supervisor, SupervisorConfig, SupervisorState,
};

const ENDPOINT: &str = "http://localhost:3000/health";
const EMBEDDED: &str = "/opt/nyx/resources/nyx-server.exe";

fn locations() -> Vec<String> {
    vec![
        "./server/start.js".to_string(),
        "../server/start.js".to_string(),
        "./server/dist/nyx-server.exe".to_string(),
        "../server/dist/nyx-server.exe".to_string(),
        "nyx-server.exe".to_string(),
    ]
}

fn config_with(embedded: Option<&str>, locations: Vec<String>) -> SupervisorConfig {
    SupervisorConfig::standard(
        ENDPOINT.to_string(),
        embedded.map(|path| path.to_string()),
        locations,
        ".js".to_string(),
        "node".to_string(),
    )
}

fn standard() -> Supervisor {
    Supervisor::new(config_with(Some(EMBEDDED), locations()))
}

fn first_probe() -> Action {
    Action::Probe { endpoint: ENDPOINT.to_string(), timeout_ms: 5000 }
}

fn waiting_probe() -> Action {
    Action::Probe { endpoint: ENDPOINT.to_string(), timeout_ms: 999 }
}

fn refused() -> Event {
    Event::ProbeCompleted(ProbeOutcome::TransportError)
}

fn check(path: &str) -> Action {
    Action::CheckExists { path: path.to_string() }
}

fn count_spawns(actions: &[Action]) -> usize {
    actions.iter().filter(|action| matches!(action, Action::Spawn(_))).count()
}

#[test]
fn standard_configuration() {
    let config = config_with(Some(EMBEDDED), locations());
    assert_eq!(config.endpoint, ENDPOINT);
    assert_eq!(config.probe_timeout_ms, 5000);
    assert_eq!(config.embedded, Some(EMBEDDED.to_string()));
    assert_eq!(config.locations, locations());
    assert_eq!(config.script_suffix, ".js");
    assert_eq!(config.interpreter, "node");
    assert_eq!(config.working_dir, None);
    assert_eq!(config.grace_ms, 3000);
    assert_eq!(config.readiness, ReadinessPolicy::standard());
}

#[test]
fn new_supervisor_is_idle() {
    let supervisor = standard();
    assert_eq!(supervisor.state(), SupervisorState::Idle);
    assert_eq!(supervisor.phase(), Phase::Idle);
    assert!(!supervisor.is_busy());
    assert_eq!(supervisor.last_error(), None);
    let progress = supervisor.progress();
    assert_eq!(progress.handle, None);
    assert_eq!(progress.launched, None);
    assert_eq!(supervisor.config().grace_ms, 3000);
}

#[test]
fn running_server_is_left_untouched() {
    let mut supervisor = standard();
    let mut actions = Vec::new();
    actions.push(supervisor.step(Event::StartRequested(StartStrategy::EmbeddedFirst)));
    assert_eq!(actions[0], first_probe());
    assert_eq!(supervisor.state(), SupervisorState::ProbingExistingServer);
    actions.push(supervisor.step(Event::ProbeCompleted(ProbeOutcome::Responded(200))));
    assert_eq!(actions[1], Action::ReportReady);
    assert_eq!(supervisor.state(), SupervisorState::Ready);
    assert_eq!(count_spawns(&actions), 0);
    assert_eq!(supervisor.progress().handle, None);
    assert_eq!(supervisor.progress().launched, None);
}

#[test]
fn external_script_is_started_and_becomes_ready() {
    let mut supervisor =
        Supervisor::new(config_with(Some(EMBEDDED), vec!["./server/start.js".to_string()]));
    assert_eq!(supervisor.step(Event::StartRequested(StartStrategy::EmbeddedFirst)), first_probe());
    assert_eq!(supervisor.step(refused()), check(EMBEDDED));
    assert_eq!(supervisor.state(), SupervisorState::LaunchingEmbedded);
    assert_eq!(supervisor.step(Event::ExistenceChecked(false)), check("./server/start.js"));
    assert_eq!(supervisor.state(), SupervisorState::LaunchingExternal);
    assert_eq!(
        supervisor.step(Event::ExistenceChecked(true)),
        Action::Spawn(LaunchPlan {
            program: "node".to_string(),
            args: vec!["./server/start.js".to_string()],
            working_dir: Some("./server".to_string()),
            stdio: StdioPolicy::Discard,
        })
    );
    assert_eq!(supervisor.state(), SupervisorState::LaunchingExternal);
    assert_eq!(
        supervisor.step(Event::SpawnCompleted(SpawnOutcome::Started(4711))),
        waiting_probe()
    );
    assert_eq!(supervisor.state(), SupervisorState::WaitingForReadiness);
    let mut pauses: u64 = 0;
    for _ in 0..4 {
        assert_eq!(supervisor.step(refused()), Action::Sleep { interval_ms: 1000 });
        pauses += 1;
        assert_eq!(supervisor.step(Event::SleepElapsed), waiting_probe());
    }
    assert_eq!(
        supervisor.step(Event::ProbeCompleted(ProbeOutcome::Responded(200))),
        Action::ReportReady
    );
    assert!(pauses * 1000 <= 30 * 1000);
    assert_eq!(supervisor.state(), SupervisorState::Ready);
    let progress = supervisor.progress();
    assert_eq!(progress.handle, Some(ProcessHandle::started(4711, StdioPolicy::Discard)));
    assert_eq!(
        progress.launched,
        Some(ServerCandidate::new("./server/start.js".to_string(), CandidateKind::Script))
    );
}

#[test]
fn early_exit_of_the_packaged_server_falls_back_to_discovery() {
    let mut supervisor = standard();
    supervisor.step(Event::StartRequested(StartStrategy::EmbeddedFirst));
    assert_eq!(supervisor.step(refused()), check(EMBEDDED));
    assert_eq!(
        supervisor.step(Event::ExistenceChecked(true)),
        Action::Spawn(LaunchPlan {
            program: EMBEDDED.to_string(),
            args: Vec::new(),
            working_dir: None,
            stdio: StdioPolicy::Capture,
        })
    );
    assert_eq!(
        supervisor.step(Event::SpawnCompleted(SpawnOutcome::Started(100))),
        Action::AwaitGrace { grace_ms: 3000 }
    );
    assert_eq!(supervisor.phase(), Phase::GracePeriod);
    assert_eq!(supervisor.state(), SupervisorState::LaunchingEmbedded);
    let action = supervisor.step(Event::GraceElapsed(LivenessCheck::Exited(Some(1))));
    assert_eq!(action, check("./server/start.js"));
    assert_eq!(supervisor.state(), SupervisorState::LaunchingExternal);
    assert_eq!(supervisor.phase(), Phase::LocatingExternal(0));
    assert_eq!(supervisor.last_error(), Some(LaunchError::EarlyExit(1)));
    let progress = supervisor.progress();
    assert_eq!(
        progress.handle,
        Some(
            ProcessHandle::started(100, StdioPolicy::Capture)
                .observed(LifecycleState::ExitedEarly(1))
        )
    );
    assert_eq!(progress.launched, None);
}

#[test]
fn nothing_anywhere_fails_with_the_last_error() {
    let mut supervisor = standard();
    let mut actions = Vec::new();
    actions.push(supervisor.step(Event::StartRequested(StartStrategy::EmbeddedFirst)));
    actions.push(supervisor.step(refused()));
    actions.push(supervisor.step(Event::ExistenceChecked(false)));
    assert_eq!(actions[2], check("./server/start.js"));
    let expected = ["../server/start.js", "./server/dist/nyx-server.exe",
        "../server/dist/nyx-server.exe", "nyx-server.exe"];
    for path in expected {
        let action = supervisor.step(Event::ExistenceChecked(false));
        assert_eq!(action, check(path));
        actions.push(action);
    }
    let last = supervisor.step(Event::ExistenceChecked(false));
    assert_eq!(last, Action::ReportFailed(LaunchError::CandidateNotFound));
    actions.push(last);
    assert_eq!(supervisor.state(), SupervisorState::Failed);
    assert_eq!(count_spawns(&actions), 0);
    let reason = supervisor.last_error().expect("a failed attempt has a reason");
    assert_eq!(reason, LaunchError::CandidateNotFound);
    assert_eq!(reason.message(), "Could not find or start server executable");
}

#[test]
fn start_request_in_flight_is_turned_away() {
    let mut supervisor = standard();
    supervisor.step(Event::StartRequested(StartStrategy::EmbeddedFirst));
    assert!(supervisor.is_busy());
    assert_eq!(supervisor.step(Event::StartRequested(StartStrategy::EmbeddedFirst)), Action::Reject);
    assert_eq!(supervisor.phase(), Phase::ProbingExisting(StartStrategy::EmbeddedFirst));
    supervisor.step(refused());
    supervisor.step(Event::ExistenceChecked(true));
    let before = supervisor.progress();
    for _ in 0..3 {
        assert_eq!(supervisor.step(Event::StartRequested(StartStrategy::EmbeddedFirst)), Action::Reject);
    }
    assert_eq!(supervisor.progress(), before);
    supervisor.step(Event::SpawnCompleted(SpawnOutcome::Started(5)));
    assert_eq!(supervisor.step(Event::StartRequested(StartStrategy::EmbeddedFirst)), Action::Reject);
    supervisor.step(Event::GraceElapsed(LivenessCheck::StillRunning));
    assert_eq!(supervisor.state(), SupervisorState::WaitingForReadiness);
    assert_eq!(supervisor.step(Event::StartRequested(StartStrategy::EmbeddedFirst)), Action::Reject);
    assert_eq!(supervisor.state(), SupervisorState::WaitingForReadiness);
}

#[test]
fn packaged_server_that_survives_its_grace_period_is_polled() {
    let mut supervisor = standard();
    supervisor.step(Event::StartRequested(StartStrategy::EmbeddedFirst));
    supervisor.step(Event::ProbeCompleted(ProbeOutcome::Responded(503)));
    supervisor.step(Event::ExistenceChecked(true));
    supervisor.step(Event::SpawnCompleted(SpawnOutcome::Started(100)));
    assert_eq!(supervisor.step(Event::GraceElapsed(LivenessCheck::StillRunning)), waiting_probe());
    assert_eq!(
        supervisor.phase(),
        Phase::Waiting(WaitState { phase: WaitPhase::Probing, failed: 0 })
    );
    assert_eq!(
        supervisor.step(Event::ProbeCompleted(ProbeOutcome::Responded(204))),
        Action::ReportReady
    );
    assert_eq!(supervisor.state(), SupervisorState::Ready);
    assert_eq!(
        supervisor.progress().launched,
        Some(ServerCandidate::new(EMBEDDED.to_string(), CandidateKind::Executable))
    );
    assert_eq!(supervisor.last_error(), None);
}

#[test]
fn refused_packaged_launch_falls_back() {
    let mut supervisor = standard();
    supervisor.step(Event::StartRequested(StartStrategy::EmbeddedFirst));
    supervisor.step(Event::ProbeCompleted(ProbeOutcome::TimedOut));
    supervisor.step(Event::ExistenceChecked(true));
    let action =
        supervisor.step(Event::SpawnCompleted(SpawnOutcome::Refused("denied".to_string())));
    assert_eq!(action, check("./server/start.js"));
    assert_eq!(supervisor.phase(), Phase::LocatingExternal(0));
    assert_eq!(supervisor.last_error(), Some(LaunchError::SpawnFailure("denied".to_string())));
    assert_eq!(supervisor.progress().handle, None);
}

#[test]
fn unknown_liveness_ends_the_attempt_without_a_second_launch() {
    let mut supervisor = standard();
    let mut actions = Vec::new();
    actions.push(supervisor.step(Event::StartRequested(StartStrategy::EmbeddedFirst)));
    actions.push(supervisor.step(refused()));
    actions.push(supervisor.step(Event::ExistenceChecked(true)));
    actions.push(supervisor.step(Event::SpawnCompleted(SpawnOutcome::Started(11))));
    let cause = "Operation not permitted (os error 1)";
    let action =
        supervisor.step(Event::GraceElapsed(LivenessCheck::Unreadable(cause.to_string())));
    assert_eq!(action, Action::ReportFailed(LaunchError::LivenessUnknown(cause.to_string())));
    actions.push(action);
    assert_eq!(supervisor.state(), SupervisorState::Failed);
    assert_eq!(
        supervisor.last_error().expect("a reason").message(),
        "Error checking server process: Operation not permitted (os error 1)"
    );
    let progress = supervisor.progress();
    assert_eq!(
        progress.handle,
        Some(ProcessHandle::started(11, StdioPolicy::Capture).observed(LifecycleState::Unknown))
    );
    assert_eq!(
        progress.launched,
        Some(ServerCandidate::new(EMBEDDED.to_string(), CandidateKind::Executable))
    );
    let later = supervisor.step(Event::ExistenceChecked(true));
    assert_eq!(later, Action::Ignore);
    actions.push(later);
    assert_eq!(count_spawns(&actions), 1);
    assert_eq!(supervisor.progress().handle, progress.handle);
}

#[test]
fn exit_without_a_code_counts_as_minus_one() {
    let mut supervisor = standard();
    supervisor.step(Event::StartRequested(StartStrategy::EmbeddedFirst));
    supervisor.step(refused());
    supervisor.step(Event::ExistenceChecked(true));
    supervisor.step(Event::SpawnCompleted(SpawnOutcome::Started(100)));
    let action = supervisor.step(Event::GraceElapsed(LivenessCheck::Exited(None)));
    assert_eq!(action, check("./server/start.js"));
    assert_eq!(supervisor.last_error(), Some(LaunchError::EarlyExit(-1)));
    assert_eq!(
        supervisor.progress().handle,
        Some(
            ProcessHandle::started(100, StdioPolicy::Capture)
                .observed(LifecycleState::ExitedEarly(-1))
        )
    );
}

#[test]
fn early_exit_then_external_launch_becomes_ready() {
    let mut supervisor = standard();
    supervisor.step(Event::StartRequested(StartStrategy::EmbeddedFirst));
    supervisor.step(refused());
    supervisor.step(Event::ExistenceChecked(true));
    supervisor.step(Event::SpawnCompleted(SpawnOutcome::Started(100)));
    supervisor.step(Event::GraceElapsed(LivenessCheck::Exited(Some(1))));
    assert_ne!(supervisor.state(), SupervisorState::Failed);
    supervisor.step(Event::ExistenceChecked(true));
    assert_ne!(supervisor.state(), SupervisorState::Failed);
    assert_eq!(
        supervisor.step(Event::SpawnCompleted(SpawnOutcome::Started(101))),
        waiting_probe()
    );
    assert_eq!(
        supervisor.step(Event::ProbeCompleted(ProbeOutcome::Responded(200))),
        Action::ReportReady
    );
    assert_eq!(supervisor.state(), SupervisorState::Ready);
    assert_eq!(
        supervisor.progress().handle,
        Some(ProcessHandle::started(101, StdioPolicy::Discard))
    );
}

#[test]
fn early_exit_with_no_location_fails_for_want_of_a_candidate() {
    let mut supervisor = Supervisor::new(config_with(Some(EMBEDDED), Vec::new()));
    supervisor.step(Event::StartRequested(StartStrategy::EmbeddedFirst));
    supervisor.step(refused());
    supervisor.step(Event::ExistenceChecked(true));
    supervisor.step(Event::SpawnCompleted(SpawnOutcome::Started(100)));
    let action = supervisor.step(Event::GraceElapsed(LivenessCheck::Exited(Some(1))));
    assert_eq!(action, Action::ReportFailed(LaunchError::CandidateNotFound));
    assert_eq!(supervisor.last_error(), Some(LaunchError::CandidateNotFound));
}

#[test]
fn external_only_request_passes_the_packaged_artifact_by() {
    let mut supervisor = standard();
    let mut actions = Vec::new();
    actions.push(supervisor.step(Event::StartRequested(StartStrategy::ExternalOnly)));
    assert_eq!(actions[0], first_probe());
    assert_eq!(supervisor.phase(), Phase::ProbingExisting(StartStrategy::ExternalOnly));
    actions.push(supervisor.step(refused()));
    assert_eq!(actions[1], check("./server/start.js"));
    assert_eq!(supervisor.state(), SupervisorState::LaunchingExternal);
    assert_eq!(supervisor.last_error(), None);
    actions.push(supervisor.step(Event::ExistenceChecked(true)));
    actions.push(supervisor.step(Event::SpawnCompleted(SpawnOutcome::Started(3))));
    actions.push(supervisor.step(Event::ProbeCompleted(ProbeOutcome::Responded(200))));
    assert_eq!(actions.last(), Some(&Action::ReportReady));
    assert_eq!(count_spawns(&actions), 1);
    assert!(!actions.contains(&check(EMBEDDED)));
}

#[test]
fn external_only_request_leaves_a_running_server_alone() {
    let mut supervisor = standard();
    supervisor.step(Event::StartRequested(StartStrategy::ExternalOnly));
    assert_eq!(
        supervisor.step(Event::ProbeCompleted(ProbeOutcome::Responded(200))),
        Action::ReportReady
    );
    assert_eq!(supervisor.progress().handle, None);
}

#[test]
fn request_of_either_kind_is_turned_away_in_flight() {
    let mut supervisor = standard();
    supervisor.step(Event::StartRequested(StartStrategy::EmbeddedFirst));
    assert_eq!(supervisor.step(Event::StartRequested(StartStrategy::ExternalOnly)), Action::Reject);
    assert_eq!(supervisor.phase(), Phase::ProbingExisting(StartStrategy::EmbeddedFirst));
}

#[test]
fn refused_external_launch_fails_the_attempt() {
    let mut supervisor = standard();
    supervisor.step(Event::StartRequested(StartStrategy::EmbeddedFirst));
    supervisor.step(refused());
    supervisor.step(Event::ExistenceChecked(false));
    supervisor.step(Event::ExistenceChecked(false));
    assert_eq!(supervisor.phase(), Phase::LocatingExternal(1));
    let spawn = supervisor.step(Event::ExistenceChecked(true));
    assert_eq!(
        spawn,
        Action::Spawn(LaunchPlan {
            program: "node".to_string(),
            args: vec!["../server/start.js".to_string()],
            working_dir: Some("../server".to_string()),
            stdio: StdioPolicy::Discard,
        })
    );
    assert_eq!(supervisor.phase(), Phase::SpawningExternal(1));
    let reason = "No such file or directory (os error 2)";
    let action = supervisor.step(Event::SpawnCompleted(SpawnOutcome::Refused(reason.to_string())));
    assert_eq!(action, Action::ReportFailed(LaunchError::SpawnFailure(reason.to_string())));
    assert_eq!(supervisor.state(), SupervisorState::Failed);
    assert_eq!(
        supervisor.last_error().expect("a reason").message(),
        "Failed to start server: No such file or directory (os error 2)"
    );
}

#[test]
fn discovered_executable_is_run_directly() {
    let mut supervisor = Supervisor::new(config_with(None, locations()));
    supervisor.step(Event::StartRequested(StartStrategy::EmbeddedFirst));
    assert_eq!(supervisor.step(refused()), check("./server/start.js"));
    assert_eq!(supervisor.last_error(), Some(LaunchError::CandidateNotFound));
    supervisor.step(Event::ExistenceChecked(false));
    supervisor.step(Event::ExistenceChecked(false));
    assert_eq!(
        supervisor.step(Event::ExistenceChecked(true)),
        Action::Spawn(LaunchPlan {
            program: "./server/dist/nyx-server.exe".to_string(),
            args: Vec::new(),
            working_dir: None,
            stdio: StdioPolicy::Discard,
        })
    );
}

#[test]
fn readiness_timeout_fails_the_attempt() {
    let mut supervisor = standard();
    supervisor.step(Event::StartRequested(StartStrategy::EmbeddedFirst));
    supervisor.step(refused());
    supervisor.step(Event::ExistenceChecked(false));
    supervisor.step(Event::ExistenceChecked(true));
    let mut action = supervisor.step(Event::SpawnCompleted(SpawnOutcome::Started(9)));
    let mut probes: u32 = 0;
    let mut slept_ms: u64 = 0;
    loop {
        match action {
            Action::Probe { timeout_ms, .. } => {
                assert_eq!(timeout_ms, 999);
                probes += 1;
                action = supervisor.step(Event::ProbeCompleted(ProbeOutcome::Responded(500)));
            }
            Action::Sleep { interval_ms } => {
                slept_ms += interval_ms;
                action = supervisor.step(Event::SleepElapsed);
            }
            other => {
                assert_eq!(
                    other,
                    Action::ReportFailed(LaunchError::HealthCheckTimeout {
                        attempts: 30,
                        interval_ms: 1000,
                    })
                );
                break;
            }
        }
    }
    assert_eq!(probes, 30);
    assert_eq!(slept_ms, 30 * 1000);
    assert_eq!(supervisor.state(), SupervisorState::Failed);
    assert_eq!(
        supervisor.last_error().expect("a reason").message(),
        "Server failed to start within 30 seconds"
    );
    assert_eq!(supervisor.progress().handle, Some(ProcessHandle::started(9, StdioPolicy::Discard)));
}

#[test]
fn nothing_to_try_fails_at_once() {
    let mut supervisor = Supervisor::new(config_with(None, Vec::new()));
    supervisor.step(Event::StartRequested(StartStrategy::EmbeddedFirst));
    assert_eq!(
        supervisor.step(refused()),
        Action::ReportFailed(LaunchError::CandidateNotFound)
    );
    assert_eq!(supervisor.state(), SupervisorState::Failed);
}

#[test]
fn no_probe_allowed_fails_after_the_launch() {
    let mut config = config_with(None, locations());
    config.readiness = ReadinessPolicy::new(0, 1000).expect("a positive pause");
    let mut supervisor = Supervisor::new(config);
    supervisor.step(Event::StartRequested(StartStrategy::EmbeddedFirst));
    supervisor.step(refused());
    supervisor.step(Event::ExistenceChecked(true));
    assert_eq!(
        supervisor.step(Event::SpawnCompleted(SpawnOutcome::Started(1))),
        Action::ReportFailed(LaunchError::HealthCheckTimeout { attempts: 0, interval_ms: 1000 })
    );
    assert_eq!(supervisor.state(), SupervisorState::Failed);
}

#[test]
fn configured_working_directory_is_used() {
    let mut config = config_with(Some("start.js"), vec!["bin/server".to_string()]);
    config.working_dir = Some("/srv/nyx".to_string());
    config.grace_ms = 10;
    config.probe_timeout_ms = 7;
    let mut supervisor = Supervisor::new(config);
    assert_eq!(
        supervisor.step(Event::StartRequested(StartStrategy::EmbeddedFirst)),
        Action::Probe { endpoint: ENDPOINT.to_string(), timeout_ms: 7 }
    );
    supervisor.step(refused());
    assert_eq!(
        supervisor.step(Event::ExistenceChecked(true)),
        Action::Spawn(LaunchPlan {
            program: "node".to_string(),
            args: vec!["start.js".to_string()],
            working_dir: Some("/srv/nyx".to_string()),
            stdio: StdioPolicy::Capture,
        })
    );
    assert_eq!(
        supervisor.step(Event::SpawnCompleted(SpawnOutcome::Started(2))),
        Action::AwaitGrace { grace_ms: 10 }
    );
    supervisor.step(Event::GraceElapsed(LivenessCheck::Exited(Some(2))));
    assert_eq!(
        supervisor.step(Event::ExistenceChecked(true)),
        Action::Spawn(LaunchPlan {
            program: "bin/server".to_string(),
            args: Vec::new(),
            working_dir: Some("/srv/nyx".to_string()),
            stdio: StdioPolicy::Discard,
        })
    );
    assert_eq!(
        supervisor.step(Event::SpawnCompleted(SpawnOutcome::Started(3))),
        Action::Probe { endpoint: ENDPOINT.to_string(), timeout_ms: 7 }
    );
}

#[test]
fn events_that_answer_nothing_are_passed_over() {
    let mut supervisor = standard();
    let stray = vec![
        Event::ProbeCompleted(ProbeOutcome::Responded(200)),
        Event::ExistenceChecked(true),
        Event::SpawnCompleted(SpawnOutcome::Started(1)),
        Event::GraceElapsed(LivenessCheck::StillRunning),
        Event::SleepElapsed,
    ];
    for event in stray {
        assert_eq!(supervisor.step(event), Action::Ignore);
        assert_eq!(supervisor.phase(), Phase::Idle);
    }
    supervisor.step(Event::StartRequested(StartStrategy::EmbeddedFirst));
    assert_eq!(supervisor.step(Event::ExistenceChecked(true)), Action::Ignore);
    assert_eq!(supervisor.step(Event::SleepElapsed), Action::Ignore);
    assert_eq!(supervisor.phase(), Phase::ProbingExisting(StartStrategy::EmbeddedFirst));
    supervisor.step(refused());
    assert_eq!(supervisor.step(refused()), Action::Ignore);
    assert_eq!(supervisor.step(Event::SpawnCompleted(SpawnOutcome::Started(1))), Action::Ignore);
    assert_eq!(supervisor.phase(), Phase::LocatingEmbedded);
}

#[test]
fn ended_attempt_stays_ended_until_the_next_request() {
    let mut supervisor = standard();
    supervisor.step(Event::StartRequested(StartStrategy::EmbeddedFirst));
    supervisor.step(Event::ProbeCompleted(ProbeOutcome::Responded(200)));
    assert_eq!(supervisor.step(Event::SleepElapsed), Action::Ignore);
    assert_eq!(supervisor.step(refused()), Action::Ignore);
    assert_eq!(supervisor.step(Event::ExistenceChecked(true)), Action::Ignore);
    assert_eq!(supervisor.state(), SupervisorState::Ready);
    assert!(!supervisor.is_busy());
}

#[test]
fn new_attempt_starts_from_a_clean_pass() {
    let mut supervisor = Supervisor::new(config_with(None, vec!["nyx-server.exe".to_string()]));
    supervisor.step(Event::StartRequested(StartStrategy::EmbeddedFirst));
    supervisor.step(refused());
    supervisor.step(Event::ExistenceChecked(true));
    supervisor.step(Event::SpawnCompleted(SpawnOutcome::Refused("denied".to_string())));
    assert_eq!(supervisor.state(), SupervisorState::Failed);
    assert!(supervisor.last_error().is_some());
    assert_eq!(supervisor.step(Event::StartRequested(StartStrategy::EmbeddedFirst)), first_probe());
    assert_eq!(supervisor.state(), SupervisorState::ProbingExistingServer);
    assert_eq!(supervisor.last_error(), None);
    assert_eq!(supervisor.progress().handle, None);
    assert_eq!(supervisor.progress().launched, None);
    assert_eq!(supervisor.step(refused()), check("nyx-server.exe"));
}

#[test]
fn at_most_two_launches_in_one_attempt() {
    let mut supervisor = standard();
    let events = vec![
        Event::StartRequested(StartStrategy::EmbeddedFirst),
        Event::StartRequested(StartStrategy::EmbeddedFirst),
        refused(),
        Event::ExistenceChecked(true),
        Event::StartRequested(StartStrategy::EmbeddedFirst),
        Event::SpawnCompleted(SpawnOutcome::Started(1)),
        Event::StartRequested(StartStrategy::EmbeddedFirst),
        Event::GraceElapsed(LivenessCheck::Exited(Some(1))),
        Event::StartRequested(StartStrategy::EmbeddedFirst),
        Event::ExistenceChecked(true),
        Event::StartRequested(StartStrategy::EmbeddedFirst),
        Event::SpawnCompleted(SpawnOutcome::Started(2)),
        Event::StartRequested(StartStrategy::EmbeddedFirst),
        Event::ProbeCompleted(ProbeOutcome::Responded(200)),
    ];
    let mut actions = Vec::new();
    for event in events {
        actions.push(supervisor.step(event));
    }
    assert_eq!(count_spawns(&actions), 2);
    assert_eq!(actions.iter().filter(|action| **action == Action::Reject).count(), 6);
    assert_eq!(actions.last(), Some(&Action::ReportReady));
    assert_eq!(supervisor.state(), SupervisorState::Ready);
    assert_eq!(supervisor.progress().handle, Some(ProcessHandle::started(2, StdioPolicy::Discard)));
}
