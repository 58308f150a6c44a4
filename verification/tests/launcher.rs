use sidecar_supervisor::candidate::{CandidateKind, ServerCandidate};
use sidecar_supervisor::failure::LaunchError;
use sidecar_supervisor::launcher::{
    conclude_launch, judge_after_grace, lifecycle_after, plan_launch, LaunchPlan, LifecycleState,
    LivenessCheck, ProcessHandle, SpawnOutcome, StdioPolicy, StreamSink,
};

#[test]
fn script_runs_through_the_interpreter_in_its_own_directory() {
    let candidate = ServerCandidate::new("./server/start.js".to_string(), CandidateKind::Script);
    let plan = plan_launch(&candidate, "node", None, StdioPolicy::Discard);
    assert_eq!(
        plan,
        LaunchPlan {
            program: "node".to_string(),
            args: vec!["./server/start.js".to_string()],
            working_dir: Some("./server".to_string()),
            stdio: StdioPolicy::Discard,
        }
    );
}

#[test]
fn script_directory_overrides_the_given_one() {
    let candidate = ServerCandidate::new("../server/start.js".to_string(), CandidateKind::Script);
    let plan = plan_launch(&candidate, "node", Some("/opt/app".to_string()), StdioPolicy::Capture);
    assert_eq!(plan.working_dir, Some("../server".to_string()));
    assert_eq!(plan.stdio, StdioPolicy::Capture);
}

#[test]
fn script_without_directory_runs_in_the_given_one() {
    let candidate = ServerCandidate::new("start.js".to_string(), CandidateKind::Script);
    let plan = plan_launch(&candidate, "node", Some("/opt/app".to_string()), StdioPolicy::Discard);
    assert_eq!(plan.program, "node");
    assert_eq!(plan.args, vec!["start.js".to_string()]);
    assert_eq!(plan.working_dir, Some("/opt/app".to_string()));
    let inherited = plan_launch(&candidate, "node", None, StdioPolicy::Discard);
    assert_eq!(inherited.working_dir, None);
}

#[test]
fn executable_runs_by_its_own_path() {
    let candidate = ServerCandidate::new(
        "./server/dist/nyx-server.exe".to_string(),
        CandidateKind::Executable,
    );
    let plan = plan_launch(&candidate, "node", None, StdioPolicy::Capture);
    assert_eq!(
        plan,
        LaunchPlan {
            program: "./server/dist/nyx-server.exe".to_string(),
            args: Vec::new(),
            working_dir: None,
            stdio: StdioPolicy::Capture,
        }
    );
    let placed = plan_launch(&candidate, "node", Some("/srv".to_string()), StdioPolicy::Capture);
    assert_eq!(placed.working_dir, Some("/srv".to_string()));
}

#[test]
fn started_handle_runs_with_sinks_by_policy() {
    let quiet = ProcessHandle::started(4711, StdioPolicy::Discard);
    assert_eq!(
        quiet,
        ProcessHandle {
            process_id: 4711,
            stdout: StreamSink::Null,
            stderr: StreamSink::Null,
            lifecycle: LifecycleState::Running,
        }
    );
    let piped = ProcessHandle::started(12, StdioPolicy::Capture);
    assert_eq!(piped.stdout, StreamSink::Pipe);
    assert_eq!(piped.stderr, StreamSink::Pipe);
    assert!(piped.is_running());
}

#[test]
fn observed_handle_keeps_all_but_its_lifecycle() {
    let handle = ProcessHandle::started(12, StdioPolicy::Capture);
    let gone = handle.observed(LifecycleState::ExitedEarly(3));
    assert_eq!(gone.process_id, 12);
    assert_eq!(gone.stdout, StreamSink::Pipe);
    assert_eq!(gone.lifecycle, LifecycleState::ExitedEarly(3));
    assert!(!gone.is_running());
    assert!(!handle.observed(LifecycleState::Unknown).is_running());
    assert!(handle.observed(LifecycleState::Running).is_running());
}

#[test]
fn grace_period_verdicts() {
    assert_eq!(judge_after_grace(&LivenessCheck::StillRunning), None);
    assert_eq!(
        judge_after_grace(&LivenessCheck::Exited(Some(1))),
        Some(LaunchError::EarlyExit(1))
    );
    assert_eq!(
        judge_after_grace(&LivenessCheck::Exited(Some(0))),
        Some(LaunchError::EarlyExit(0))
    );
    assert_eq!(judge_after_grace(&LivenessCheck::Exited(None)), Some(LaunchError::EarlyExit(-1)));
    assert_eq!(
        judge_after_grace(&LivenessCheck::Unreadable("no child processes".to_string())),
        Some(LaunchError::LivenessUnknown("no child processes".to_string()))
    );
}

#[test]
fn lifecycle_read_off_a_look_at_the_process() {
    assert_eq!(lifecycle_after(&LivenessCheck::StillRunning), LifecycleState::Running);
    assert_eq!(lifecycle_after(&LivenessCheck::Exited(Some(3))), LifecycleState::ExitedEarly(3));
    assert_eq!(lifecycle_after(&LivenessCheck::Exited(None)), LifecycleState::ExitedEarly(-1));
    assert_eq!(
        lifecycle_after(&LivenessCheck::Unreadable("gone".to_string())),
        LifecycleState::Unknown
    );
}

#[test]
fn only_an_exit_counts_as_ended() {
    let handle = ProcessHandle::started(12, StdioPolicy::Capture);
    assert!(!handle.has_exited());
    assert!(handle.observed(LifecycleState::ExitedEarly(0)).has_exited());
    assert!(!handle.observed(LifecycleState::Unknown).has_exited());
}

#[test]
fn launch_ends_in_a_handle_or_a_spawn_failure() {
    assert_eq!(
        conclude_launch(SpawnOutcome::Started(77), StdioPolicy::Discard),
        Ok(ProcessHandle::started(77, StdioPolicy::Discard))
    );
    assert_eq!(
        conclude_launch(SpawnOutcome::Refused("permission denied".to_string()), StdioPolicy::Capture),
        Err(LaunchError::SpawnFailure("permission denied".to_string()))
    );
}
