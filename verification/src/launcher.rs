//! Planning the launch of a candidate and keeping account of the process
//! that came of it. Creating the process is the host's part.

use crate::candidate::{CandidateKind, CandidateModel, ServerCandidate};
use crate::failure::{ErrorModel, LaunchError};
use crate::text::{containing_directory, parent_of};
use vstd::prelude::*;

verus! {

/// What becomes of the child's standard output and standard error.
#[derive(Clone, Copy, Debug, PartialEq, Eq, Structural)]
pub enum StdioPolicy {
    /// Both streams go to the null sink: fire and forget.
    Discard,
    /// Both streams go to pipes, so that a failure can be told in the
    /// child's own words.
    Capture,
}

/// Where one standard stream of a child ends.
#[derive(Clone, Copy, Debug, PartialEq, Eq, Structural)]
pub enum StreamSink {
    Null,
    Pipe,
}

/// What is known of a process that was started.
#[derive(Clone, Copy, Debug, PartialEq, Eq, Structural)]
pub enum LifecycleState {
    Running,
    ExitedEarly(i32),
    Unknown,
}

/// The command that starts a candidate.
#[derive(Debug, PartialEq, Eq)]
pub struct LaunchPlan {
    pub program: String,
    pub args: Vec<String>,
    pub working_dir: Option<String>,
    pub stdio: StdioPolicy,
}

/// Mathematical content of a `LaunchPlan`.
pub struct PlanModel {
    pub program: Seq<char>,
    pub args: Seq<Seq<char>>,
    pub working_dir: Option<Seq<char>>,
    pub stdio: StdioPolicy,
}

impl View for LaunchPlan {
    type V = PlanModel;

    open spec fn view(&self) -> PlanModel {
        PlanModel {
            program: self.program@,
            args: self.args.deep_view(),
            working_dir: self.working_dir.deep_view(),
            stdio: self.stdio,
        }
    }
}

/// The command for a candidate. A script is handed to the interpreter as
/// its one argument and runs in the directory that holds it, or in the
/// given working directory where its path names no directory. An
/// executable is run by its own path, in the given working directory.
pub open spec fn launch_plan(
    candidate: CandidateModel,
    interpreter: Seq<char>,
    working_directory: Option<Seq<char>>,
    stdio: StdioPolicy,
) -> PlanModel {
    match candidate.kind {
        CandidateKind::Script => PlanModel {
            program: interpreter,
            args: seq![candidate.path],
            working_dir: match parent_of(candidate.path) {
                Some(dir) => Some(dir),
                None => working_directory,
            },
            stdio,
        },
        CandidateKind::Executable => PlanModel {
            program: candidate.path,
            args: Seq::empty(),
            working_dir: working_directory,
            stdio,
        },
    }
}

/// Plans the launch of `candidate`.
pub fn plan_launch(
    candidate: &ServerCandidate,
    interpreter: &str,
    working_directory: Option<String>,
    stdio: StdioPolicy,
) -> (plan: LaunchPlan)
    ensures
        plan@ == launch_plan(candidate@, interpreter@, working_directory.deep_view(), stdio),
{
    match candidate.kind() {
        CandidateKind::Script => {
            let mut args: Vec<String> = Vec::new();
            args.push(candidate.path().clone());
            let working_dir: Option<String> = match containing_directory(
                candidate.path().as_str(),
            ) {
                Some(dir) => Some(dir),
                None => working_directory,
            };
            let plan = LaunchPlan { program: interpreter.to_owned(), args, working_dir, stdio };
            assert(plan@.args =~= seq![candidate@.path]);
            plan
        },
        CandidateKind::Executable => {
            let plan = LaunchPlan {
                program: candidate.path().clone(),
                args: Vec::new(),
                working_dir: working_directory,
                stdio,
            };
            assert(plan@.args =~= Seq::<Seq<char>>::empty());
            plan
        },
    }
}

/// The sink that a policy gives to each standard stream.
pub open spec fn sink_for(stdio: StdioPolicy) -> StreamSink {
    match stdio {
        StdioPolicy::Discard => StreamSink::Null,
        StdioPolicy::Capture => StreamSink::Pipe,
    }
}

/// A started process, as its one owner sees it.
#[derive(Clone, Copy, Debug, PartialEq, Eq, Structural)]
pub struct ProcessHandle {
    pub process_id: u32,
    pub stdout: StreamSink,
    pub stderr: StreamSink,
    pub lifecycle: LifecycleState,
}

impl ProcessHandle {
    /// The handle of a process that has just been started under `stdio`.
    pub fn started(process_id: u32, stdio: StdioPolicy) -> (handle: ProcessHandle)
        ensures
            handle == (ProcessHandle {
                process_id,
                stdout: sink_for(stdio),
                stderr: sink_for(stdio),
                lifecycle: LifecycleState::Running,
            }),
    {
        let sink = match stdio {
            StdioPolicy::Discard => StreamSink::Null,
            StdioPolicy::Capture => StreamSink::Pipe,
        };
        ProcessHandle { process_id, stdout: sink, stderr: sink, lifecycle: LifecycleState::Running }
    }

    /// The same process after a look at its liveness.
    pub fn observed(self, lifecycle: LifecycleState) -> (handle: ProcessHandle)
        ensures
            handle == (ProcessHandle { lifecycle, ..self }),
    {
        ProcessHandle { lifecycle, ..self }
    }

    /// Whether the process is known to have ended.
    pub fn has_exited(&self) -> (exited: bool)
        ensures
            exited == (self.lifecycle is ExitedEarly),
    {
        match self.lifecycle {
            LifecycleState::ExitedEarly(_) => true,
            _ => false,
        }
    }

    /// Whether the process was running when last looked at.
    pub fn is_running(&self) -> (running: bool)
        ensures
            running == (self.lifecycle == LifecycleState::Running),
    {
        match self.lifecycle {
            LifecycleState::Running => true,
            _ => false,
        }
    }
}

/// What came of the request to create a process.
#[derive(Debug, PartialEq, Eq)]
pub enum SpawnOutcome {
    /// The process exists and has this id.
    Started(u32),
    /// The operating system refused; its words.
    Refused(String),
}

/// Mathematical content of a `SpawnOutcome`.
pub enum SpawnModel {
    Started(u32),
    Refused(Seq<char>),
}

impl View for SpawnOutcome {
    type V = SpawnModel;

    open spec fn view(&self) -> SpawnModel {
        match self {
            SpawnOutcome::Started(process_id) => SpawnModel::Started(*process_id),
            SpawnOutcome::Refused(reason) => SpawnModel::Refused(reason@),
        }
    }
}

/// What a look at a started process found.
#[derive(Debug, PartialEq, Eq)]
pub enum LivenessCheck {
    /// The process has not ended.
    StillRunning,
    /// The process has ended, with this exit code if it gave one.
    Exited(Option<i32>),
    /// The look itself failed; the operating system's words.
    Unreadable(String),
}

/// Mathematical content of a `LivenessCheck`.
pub enum LivenessModel {
    StillRunning,
    Exited(Option<i32>),
    Unreadable(Seq<char>),
}

impl View for LivenessCheck {
    type V = LivenessModel;

    open spec fn view(&self) -> LivenessModel {
        match self {
            LivenessCheck::StillRunning => LivenessModel::StillRunning,
            LivenessCheck::Exited(code) => LivenessModel::Exited(*code),
            LivenessCheck::Unreadable(cause) => LivenessModel::Unreadable(cause@),
        }
    }
}

/// The exit code that a process counts as having ended with: its own, or
/// -1 where it gave none, as one ended by a signal.
pub open spec fn exit_code_of(code: Option<i32>) -> i32 {
    match code {
        Some(c) => c,
        None => -1i32,
    }
}

/// The lifecycle that a look at the process shows.
pub open spec fn lifecycle_of(check: LivenessModel) -> LifecycleState {
    match check {
        LivenessModel::StillRunning => LifecycleState::Running,
        LivenessModel::Exited(code) => LifecycleState::ExitedEarly(exit_code_of(code)),
        LivenessModel::Unreadable(_) => LifecycleState::Unknown,
    }
}

/// The verdict on a process after its grace period: it counts as launched
/// only where it is still running.
pub open spec fn grace_verdict(check: LivenessModel) -> Option<ErrorModel> {
    match check {
        LivenessModel::StillRunning => None,
        LivenessModel::Exited(code) => Some(ErrorModel::EarlyExit(exit_code_of(code))),
        LivenessModel::Unreadable(cause) => Some(ErrorModel::LivenessUnknown(cause)),
    }
}

/// Reads the lifecycle off a look at the process.
pub fn lifecycle_after(check: &LivenessCheck) -> (lifecycle: LifecycleState)
    ensures
        lifecycle == lifecycle_of(check@),
{
    match check {
        LivenessCheck::StillRunning => LifecycleState::Running,
        LivenessCheck::Exited(Some(code)) => LifecycleState::ExitedEarly(*code),
        LivenessCheck::Exited(None) => LifecycleState::ExitedEarly(-1),
        LivenessCheck::Unreadable(_) => LifecycleState::Unknown,
    }
}

/// Judges a process after its grace period. An exit within the period is a
/// failure of the launch, not of readiness; so is a look that failed.
pub fn judge_after_grace(check: &LivenessCheck) -> (verdict: Option<LaunchError>)
    ensures
        verdict.deep_view() == grace_verdict(check@),
{
    match check {
        LivenessCheck::StillRunning => None,
        LivenessCheck::Exited(Some(code)) => Some(LaunchError::EarlyExit(*code)),
        LivenessCheck::Exited(None) => Some(LaunchError::EarlyExit(-1)),
        LivenessCheck::Unreadable(cause) => Some(LaunchError::LivenessUnknown(cause.clone())),
    }
}

/// The handle or the failure that a spawn outcome stands for.
pub open spec fn launch_result(outcome: SpawnModel, stdio: StdioPolicy) -> Result<
    ProcessHandle,
    ErrorModel,
> {
    match outcome {
        SpawnModel::Started(process_id) => Ok(
            ProcessHandle {
                process_id,
                stdout: sink_for(stdio),
                stderr: sink_for(stdio),
                lifecycle: LifecycleState::Running,
            },
        ),
        SpawnModel::Refused(reason) => Err(ErrorModel::SpawnFailure(reason)),
    }
}

/// Completes a launch: a handle on the new process, or the failure that
/// ends this launch attempt. Nothing is retried here.
pub fn conclude_launch(outcome: SpawnOutcome, stdio: StdioPolicy) -> (result: Result<
    ProcessHandle,
    LaunchError,
>)
    ensures
        match result {
            Ok(handle) => launch_result(outcome@, stdio) == Ok::<ProcessHandle, ErrorModel>(handle),
            Err(error) => launch_result(outcome@, stdio) == Err::<ProcessHandle, ErrorModel>(
                error@,
            ),
        },
{
    match outcome {
        SpawnOutcome::Started(process_id) => Ok(ProcessHandle::started(process_id, stdio)),
        SpawnOutcome::Refused(reason) => Err(LaunchError::SpawnFailure(reason)),
    }
}

} // verus!
