use sidecar_supervisor::candidate::{CandidateKind, ServerCandidate};
use sidecar_supervisor::commands::{
    attempt_report, greet, managed_start_report, open_failure, plan_managed_start,
    plan_open_folder, rejection_message, started_message, wait_report, ManagedRun, Platform,
};
use sidecar_supervisor::health::ProbeOutcome;
use sidecar_supervisor::launcher::{LaunchPlan, LivenessCheck, SpawnOutcome, StdioPolicy};
use sidecar_supervisor::readiness::{ReadinessPolicy, WaitResult};
use sidecar_supervisor::supervisor::{Event, StartStrategy, Supervisor, SupervisorConfig};

fn supervisor_for(locations: Vec<String>) -> Supervisor {
    Supervisor::new(SupervisorConfig::standard(
        "http://localhost:3000/health".to_string(),
        None,
        locations,
        ".js".to_string(),
        "node".to_string(),
    ))
}

#[test]
fn greeting_names_the_guest() {
    assert_eq!(greet("Nyx"), "Hello, Nyx! You've been greeted from Rust!");
    assert_eq!(greet(""), "Hello, ! You've been greeted from Rust!");
}

#[test]
fn started_message_names_the_path() {
    let candidate = ServerCandidate::new("./server/start.js".to_string(), CandidateKind::Script);
    assert_eq!(started_message(&candidate), "Server started from ./server/start.js");
}

#[test]
fn each_platform_has_its_opener() {
    let expected = vec![
        (Platform::Windows, "explorer"),
        (Platform::MacOs, "open"),
        (Platform::Linux, "xdg-open"),
    ];
    for (platform, program) in expected {
        assert_eq!(
            plan_open_folder(platform, "./server"),
            Some(LaunchPlan {
                program: program.to_string(),
                args: vec!["./server".to_string()],
                working_dir: None,
                stdio: StdioPolicy::Capture,
            })
        );
    }
}

#[test]
fn other_platforms_run_nothing() {
    assert_eq!(plan_open_folder(Platform::Other, "./server"), None);
}

#[test]
fn open_failure_holds_the_reason() {
    assert_eq!(open_failure("not found"), "Failed to open folder: not found");
}

#[test]
fn managed_start_runs_the_script_in_the_server_directory() {
    assert_eq!(
        plan_managed_start("pnpm", "start", "/home/nyx/server".to_string()),
        LaunchPlan {
            program: "pnpm".to_string(),
            args: vec!["start".to_string()],
            working_dir: Some("/home/nyx/server".to_string()),
            stdio: StdioPolicy::Capture,
        }
    );
}

#[test]
fn managed_start_reports() {
    assert_eq!(
        managed_start_report(&ManagedRun::Succeeded),
        Ok("Server started successfully".to_string())
    );
    assert_eq!(
        managed_start_report(&ManagedRun::NoParentDirectory),
        Err("Could not find parent directory".to_string())
    );
    assert_eq!(
        managed_start_report(&ManagedRun::DirectoryMissing),
        Err("Server directory not found".to_string())
    );
    assert_eq!(
        managed_start_report(&ManagedRun::Refused("program not found".to_string())),
        Err("Failed to start server: program not found".to_string())
    );
    assert_eq!(
        managed_start_report(&ManagedRun::Failed("ELIFECYCLE".to_string())),
        Err("Failed to start server: ELIFECYCLE".to_string())
    );
}

#[test]
fn rejection_says_that_a_start_is_in_progress() {
    assert_eq!(rejection_message(), "Server start is already in progress");
}

#[test]
fn attempt_in_flight_reports_nothing() {
    let mut supervisor = supervisor_for(vec!["nyx-server.exe".to_string()]);
    assert_eq!(attempt_report(&supervisor.progress()), None);
    supervisor.step(Event::StartRequested(StartStrategy::EmbeddedFirst));
    assert_eq!(attempt_report(&supervisor.progress()), None);
}

#[test]
fn attempt_that_found_a_running_server_says_so() {
    let mut supervisor = supervisor_for(vec!["nyx-server.exe".to_string()]);
    supervisor.step(Event::StartRequested(StartStrategy::EmbeddedFirst));
    supervisor.step(Event::ProbeCompleted(ProbeOutcome::Responded(200)));
    assert_eq!(
        attempt_report(&supervisor.progress()),
        Some(Ok("Server is already running".to_string()))
    );
}

#[test]
fn attempt_that_started_a_server_names_its_path() {
    let mut supervisor = supervisor_for(vec!["nyx-server.exe".to_string()]);
    supervisor.step(Event::StartRequested(StartStrategy::EmbeddedFirst));
    supervisor.step(Event::ProbeCompleted(ProbeOutcome::TransportError));
    supervisor.step(Event::ExistenceChecked(true));
    supervisor.step(Event::SpawnCompleted(SpawnOutcome::Started(8)));
    assert_eq!(attempt_report(&supervisor.progress()), None);
    supervisor.step(Event::ProbeCompleted(ProbeOutcome::Responded(200)));
    assert_eq!(
        attempt_report(&supervisor.progress()),
        Some(Ok("Server started from nyx-server.exe".to_string()))
    );
}

#[test]
fn attempt_that_failed_gives_its_reason() {
    let mut supervisor = supervisor_for(Vec::new());
    supervisor.step(Event::StartRequested(StartStrategy::EmbeddedFirst));
    supervisor.step(Event::ProbeCompleted(ProbeOutcome::TransportError));
    assert_eq!(
        attempt_report(&supervisor.progress()),
        Some(Err("Could not find or start server executable".to_string()))
    );
    let mut refused = supervisor_for(vec!["nyx-server.exe".to_string()]);
    refused.step(Event::StartRequested(StartStrategy::EmbeddedFirst));
    refused.step(Event::ProbeCompleted(ProbeOutcome::TransportError));
    refused.step(Event::ExistenceChecked(true));
    refused.step(Event::SpawnCompleted(SpawnOutcome::Refused("denied".to_string())));
    assert_eq!(
        attempt_report(&refused.progress()),
        Some(Err("Failed to start server: denied".to_string()))
    );
}

#[test]
fn wait_reports() {
    let standard = ReadinessPolicy::standard();
    assert_eq!(wait_report(&standard, WaitResult::Ready), Ok(true));
    assert_eq!(
        wait_report(&standard, WaitResult::TimedOut),
        Err("Server failed to start within 30 seconds".to_string())
    );
    let short = ReadinessPolicy::new(4, 500).expect("a positive pause");
    assert_eq!(
        wait_report(&short, WaitResult::TimedOut),
        Err("Server failed to start within 2 seconds".to_string())
    );
}

#[test]
fn attempt_that_lost_sight_of_its_process_gives_the_cause() {
    let mut supervisor = Supervisor::new(SupervisorConfig::standard(
        "http://localhost:3000/health".to_string(),
        Some("/opt/nyx/nyx-server.exe".to_string()),
        Vec::new(),
        ".js".to_string(),
        "node".to_string(),
    ));
    supervisor.step(Event::StartRequested(StartStrategy::EmbeddedFirst));
    supervisor.step(Event::ProbeCompleted(ProbeOutcome::TransportError));
    supervisor.step(Event::ExistenceChecked(true));
    supervisor.step(Event::SpawnCompleted(SpawnOutcome::Started(8)));
    supervisor.step(Event::GraceElapsed(LivenessCheck::Unreadable("no child".to_string())));
    assert_eq!(
        attempt_report(&supervisor.progress()),
        Some(Err("Error checking server process: no child".to_string()))
    );
}
