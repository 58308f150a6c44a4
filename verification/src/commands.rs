//! What the host's commands say and run beside supervision: the sentence
//! for a started server, the command that opens the server's folder, and
//! the start through a package manager.

use crate::candidate::{CandidateModel, ServerCandidate};
use crate::failure::{message_text, ErrorModel, LaunchError};
use crate::launcher::{LaunchPlan, PlanModel, StdioPolicy};
use crate::readiness::{Pacing, ReadinessPolicy, WaitResult};
use crate::supervisor::{Phase, Progress, ProgressModel};
use vstd::prelude::*;
use vstd::string::*;

verus! {

/// The sentence that tells from where the server was started.
pub open spec fn started_text(candidate: CandidateModel) -> Seq<char> {
    "Server started from "@ + candidate.path
}

/// Tells from where the server was started.
pub fn started_message(candidate: &ServerCandidate) -> (text: String)
    ensures
        text@ == started_text(candidate@),
{
    let mut text: String = "Server started from ".to_owned();
    text.append(candidate.path().as_str());
    text
}

/// What a supervision attempt has to tell, once it has ended: from where
/// the server was started, or that it ran already, or why the attempt
/// failed. An attempt that has not ended tells nothing.
pub open spec fn attempt_text(progress: ProgressModel) -> Option<Result<Seq<char>, Seq<char>>> {
    match progress.phase {
        Phase::Ready => match progress.launched {
            Some(candidate) => Some(Ok(started_text(candidate))),
            None => Some(Ok("Server is already running"@)),
        },
        Phase::Failed => match progress.last_error {
            Some(error) => Some(Err(message_text(error))),
            None => Some(Err("Could not find or start server executable"@)),
        },
        _ => None,
    }
}

/// Reports on a supervision attempt that has ended.
pub fn attempt_report(progress: &Progress) -> (report: Option<Result<String, String>>)
    ensures
        match report {
            Some(Ok(text)) => attempt_text(progress@) == Some(
                Ok::<Seq<char>, Seq<char>>(text@),
            ),
            Some(Err(text)) => attempt_text(progress@) == Some(
                Err::<Seq<char>, Seq<char>>(text@),
            ),
            None => attempt_text(progress@) is None,
        },
{
    match progress.phase {
        Phase::Ready => match &progress.launched {
            Some(candidate) => Some(Ok(started_message(candidate))),
            None => Some(Ok("Server is already running".to_owned())),
        },
        Phase::Failed => match &progress.last_error {
            Some(error) => Some(Err(error.message())),
            None => Some(Err("Could not find or start server executable".to_owned())),
        },
        _ => None,
    }
}

/// What a wait for readiness has to tell: that the server answers, or for
/// how long it did not.
pub open spec fn wait_text(pacing: Pacing, result: WaitResult) -> Result<bool, Seq<char>> {
    match result {
        WaitResult::Ready => Ok(true),
        WaitResult::TimedOut => Err(
            message_text(
                ErrorModel::HealthCheckTimeout {
                    attempts: pacing.max_attempts,
                    interval_ms: pacing.interval_ms,
                },
            ),
        ),
    }
}

/// Reports on a wait for readiness that has ended under `policy`.
pub fn wait_report(policy: &ReadinessPolicy, result: WaitResult) -> (report: Result<bool, String>)
    ensures
        match report {
            Ok(ready) => wait_text(policy@, result) == Ok::<bool, Seq<char>>(ready),
            Err(text) => wait_text(policy@, result) == Err::<bool, Seq<char>>(text@),
        },
{
    match result {
        WaitResult::Ready => Ok(true),
        WaitResult::TimedOut => {
            let error = LaunchError::HealthCheckTimeout {
                attempts: policy.max_attempts(),
                interval_ms: policy.interval_ms(),
            };
            Err(error.message())
        },
    }
}

/// The sentence for a request that was turned away.
pub open spec fn rejection_text() -> Seq<char> {
    "Server start is already in progress"@
}

/// Tells that a request to start was turned away because an attempt is in
/// flight.
pub fn rejection_message() -> (text: String)
    ensures
        text@ == rejection_text(),
{
    "Server start is already in progress".to_owned()
}

/// The greeting for `name`.
pub open spec fn greeting_text(name: Seq<char>) -> Seq<char> {
    "Hello, "@ + name + "! You've been greeted from Rust!"@
}

/// Greets `name`.
pub fn greet(name: &str) -> (text: String)
    ensures
        text@ == greeting_text(name@),
{
    let mut text: String = "Hello, ".to_owned();
    text.append(name);
    text.append("! You've been greeted from Rust!");
    text
}

/// The operating systems that have a program to show a folder.
#[derive(Clone, Copy, Debug, PartialEq, Eq, Structural)]
pub enum Platform {
    Windows,
    MacOs,
    Linux,
    /// Any other system: there is nothing to run.
    Other,
}

/// The program that shows a folder on a platform.
pub open spec fn opener_of(platform: Platform) -> Option<Seq<char>> {
    match platform {
        Platform::Windows => Some("explorer"@),
        Platform::MacOs => Some("open"@),
        Platform::Linux => Some("xdg-open"@),
        Platform::Other => None,
    }
}

/// The command that shows `folder` on a platform. Its output is captured,
/// and it runs where the host runs.
pub open spec fn open_folder_plan(platform: Platform, folder: Seq<char>) -> Option<PlanModel> {
    match opener_of(platform) {
        Some(program) => Some(
            PlanModel {
                program,
                args: seq![folder],
                working_dir: None,
                stdio: StdioPolicy::Capture,
            },
        ),
        None => None,
    }
}

/// Plans the command that shows `folder`, where the platform has one.
pub fn plan_open_folder(platform: Platform, folder: &str) -> (plan: Option<LaunchPlan>)
    ensures
        match plan {
            Some(p) => open_folder_plan(platform, folder@) == Some(p@),
            None => open_folder_plan(platform, folder@) is None,
        },
{
    let program: &str = match platform {
        Platform::Windows => "explorer",
        Platform::MacOs => "open",
        Platform::Linux => "xdg-open",
        Platform::Other => {
            return None;
        },
    };
    let mut args: Vec<String> = Vec::new();
    args.push(folder.to_owned());
    let plan = LaunchPlan {
        program: program.to_owned(),
        args,
        working_dir: None,
        stdio: StdioPolicy::Capture,
    };
    assert(plan@.args =~= seq![folder@]);
    Some(plan)
}

/// The sentence for a folder that could not be shown.
pub open spec fn open_failure_text(reason: Seq<char>) -> Seq<char> {
    "Failed to open folder: "@ + reason
}

/// Tells that the folder could not be shown, and why.
pub fn open_failure(reason: &str) -> (text: String)
    ensures
        text@ == open_failure_text(reason@),
{
    let mut text: String = "Failed to open folder: ".to_owned();
    text.append(reason);
    text
}

/// The command that starts the server through a package manager: the
/// manager runs one script in the server's directory, and its output is
/// captured.
pub open spec fn managed_start_plan(
    manager: Seq<char>,
    script: Seq<char>,
    server_dir: Seq<char>,
) -> PlanModel {
    PlanModel {
        program: manager,
        args: seq![script],
        working_dir: Some(server_dir),
        stdio: StdioPolicy::Capture,
    }
}

/// Plans the start of the server through a package manager.
pub fn plan_managed_start(manager: &str, script: &str, server_dir: String) -> (plan: LaunchPlan)
    ensures
        plan@ == managed_start_plan(manager@, script@, server_dir@),
{
    let mut args: Vec<String> = Vec::new();
    args.push(script.to_owned());
    let plan = LaunchPlan {
        program: manager.to_owned(),
        args,
        working_dir: Some(server_dir),
        stdio: StdioPolicy::Capture,
    };
    assert(plan@.args =~= seq![script@]);
    plan
}

/// What came of a start through a package manager.
#[derive(Debug, PartialEq, Eq)]
pub enum ManagedRun {
    /// The host's directory has no parent to look in.
    NoParentDirectory,
    /// The server's directory does not exist.
    DirectoryMissing,
    /// The manager could not be run; the operating system's words.
    Refused(String),
    /// The manager ran to its end and reported success.
    Succeeded,
    /// The manager ran to its end and reported failure; what it wrote to
    /// standard error.
    Failed(String),
}

/// Mathematical content of a `ManagedRun`.
pub enum ManagedRunModel {
    NoParentDirectory,
    DirectoryMissing,
    Refused(Seq<char>),
    Succeeded,
    Failed(Seq<char>),
}

impl View for ManagedRun {
    type V = ManagedRunModel;

    open spec fn view(&self) -> ManagedRunModel {
        match self {
            ManagedRun::NoParentDirectory => ManagedRunModel::NoParentDirectory,
            ManagedRun::DirectoryMissing => ManagedRunModel::DirectoryMissing,
            ManagedRun::Refused(reason) => ManagedRunModel::Refused(reason@),
            ManagedRun::Succeeded => ManagedRunModel::Succeeded,
            ManagedRun::Failed(errors) => ManagedRunModel::Failed(errors@),
        }
    }
}

/// The message for a start through a package manager: a confirmation for
/// a run that succeeded, and for every other run the reason why not.
pub open spec fn managed_start_text(run: ManagedRunModel) -> Result<Seq<char>, Seq<char>> {
    match run {
        ManagedRunModel::NoParentDirectory => Err("Could not find parent directory"@),
        ManagedRunModel::DirectoryMissing => Err("Server directory not found"@),
        ManagedRunModel::Refused(reason) => Err("Failed to start server: "@ + reason),
        ManagedRunModel::Succeeded => Ok("Server started successfully"@),
        ManagedRunModel::Failed(errors) => Err("Failed to start server: "@ + errors),
    }
}

/// Reports on a start through a package manager.
pub fn managed_start_report(run: &ManagedRun) -> (report: Result<String, String>)
    ensures
        match report {
            Ok(text) => managed_start_text(run@) == Ok::<Seq<char>, Seq<char>>(text@),
            Err(text) => managed_start_text(run@) == Err::<Seq<char>, Seq<char>>(text@),
        },
{
    match run {
        ManagedRun::NoParentDirectory => Err("Could not find parent directory".to_owned()),
        ManagedRun::DirectoryMissing => Err("Server directory not found".to_owned()),
        ManagedRun::Refused(reason) => {
            let mut text: String = "Failed to start server: ".to_owned();
            text.append(reason.as_str());
            Err(text)
        },
        ManagedRun::Succeeded => Ok("Server started successfully".to_owned()),
        ManagedRun::Failed(errors) => {
            let mut text: String = "Failed to start server: ".to_owned();
            text.append(errors.as_str());
            Err(text)
        },
    }
}

} // verus!
