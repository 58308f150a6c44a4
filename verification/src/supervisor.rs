//! The supervisor: one state machine that checks for a running server,
//! tries the packaged artifact, falls back to the discovered ones and waits
//! for readiness.
//!
//! Every strategy is tried only after the one before it has conclusively
//! failed. The supervisor asks for one thing at a time and owns the handle
//! of the process that it had started.

use crate::candidate::{
    candidate_at, first_existing_is_selected, nothing_exists_nothing_found, resolution,
    CandidateModel, ServerCandidate,
};
use crate::failure::{ErrorModel, LaunchError};
use crate::health::{classify, health_of, HealthStatus, ProbeOutcome};
use crate::launcher::{
    exit_code_of, grace_verdict, judge_after_grace, launch_plan, lifecycle_after, lifecycle_of,
    plan_launch, sink_for, LaunchPlan, LifecycleState, LivenessCheck, LivenessModel, PlanModel,
    ProcessHandle, SpawnModel, SpawnOutcome, StdioPolicy,
};
use crate::readiness::{
    advance_wait, begin_wait, outstanding, probe_timeout, wait_accepts, wait_begin, wait_next,
    wait_wf, Pacing, ReadinessPolicy, WaitAction, WaitEvent, WaitPhase, WaitResult, WaitState,
};
use vstd::prelude::*;

verus! {

/// What the supervisor works with, fixed when it is made.
#[derive(Debug)]
pub struct SupervisorConfig {
    /// The health endpoint.
    pub endpoint: String,
    /// Timeout of the one probe that looks for a running server.
    pub probe_timeout_ms: u64,
    /// Where the packaged artifact would lie, if that can be told.
    pub embedded: Option<String>,
    /// Where else an artifact may lie, in priority order.
    pub locations: Vec<String>,
    /// The suffix that marks a script.
    pub script_suffix: String,
    /// The program that runs scripts.
    pub interpreter: String,
    /// Working directory of what is launched, where the plan names none.
    pub working_dir: Option<String>,
    /// How long a packaged server may take to crash at once.
    pub grace_ms: u64,
    /// How readiness is polled.
    pub readiness: ReadinessPolicy,
}

/// Mathematical content of a `SupervisorConfig`.
pub struct ConfigModel {
    pub endpoint: Seq<char>,
    pub probe_timeout_ms: u64,
    pub embedded: Option<Seq<char>>,
    pub locations: Seq<Seq<char>>,
    pub script_suffix: Seq<char>,
    pub interpreter: Seq<char>,
    pub working_dir: Option<Seq<char>>,
    pub grace_ms: u64,
    pub pacing: Pacing,
}

impl View for SupervisorConfig {
    type V = ConfigModel;

    open spec fn view(&self) -> ConfigModel {
        ConfigModel {
            endpoint: self.endpoint@,
            probe_timeout_ms: self.probe_timeout_ms,
            embedded: self.embedded.deep_view(),
            locations: self.locations.deep_view(),
            script_suffix: self.script_suffix@,
            interpreter: self.interpreter@,
            working_dir: self.working_dir.deep_view(),
            grace_ms: self.grace_ms,
            pacing: self.readiness@,
        }
    }
}

/// The states of a supervision attempt.
#[derive(Clone, Copy, Debug, PartialEq, Eq, Structural)]
pub enum SupervisorState {
    Idle,
    ProbingExistingServer,
    LaunchingEmbedded,
    LaunchingExternal,
    WaitingForReadiness,
    Ready,
    Failed,
}

/// Which strategies a request to start asks for.
#[derive(Clone, Copy, Debug, PartialEq, Eq, Structural)]
pub enum StartStrategy {
    /// The packaged artifact first, then the external locations.
    EmbeddedFirst,
    /// The external locations only.
    ExternalOnly,
}

/// Where exactly the supervisor stands, and so what it waits for.
#[derive(Clone, Copy, Debug, PartialEq, Eq, Structural)]
pub enum Phase {
    /// Nothing was asked yet.
    Idle,
    /// The probe for a running server is outstanding, in an attempt that
    /// was asked for with this strategy.
    ProbingExisting(StartStrategy),
    /// The check for the packaged artifact is outstanding.
    LocatingEmbedded,
    /// The packaged artifact is being started.
    SpawningEmbedded,
    /// The packaged server runs its grace period.
    GracePeriod,
    /// The check for the location of this index is outstanding.
    LocatingExternal(usize),
    /// The artifact at the location of this index is being started.
    SpawningExternal(usize),
    /// Readiness is polled.
    Waiting(WaitState),
    /// The server answers.
    Ready,
    /// The attempt failed.
    Failed,
}

/// The state that a phase belongs to.
pub open spec fn state_of(phase: Phase) -> SupervisorState {
    match phase {
        Phase::Idle => SupervisorState::Idle,
        Phase::ProbingExisting(_) => SupervisorState::ProbingExistingServer,
        Phase::LocatingEmbedded => SupervisorState::LaunchingEmbedded,
        Phase::SpawningEmbedded => SupervisorState::LaunchingEmbedded,
        Phase::GracePeriod => SupervisorState::LaunchingEmbedded,
        Phase::LocatingExternal(_) => SupervisorState::LaunchingExternal,
        Phase::SpawningExternal(_) => SupervisorState::LaunchingExternal,
        Phase::Waiting(_) => SupervisorState::WaitingForReadiness,
        Phase::Ready => SupervisorState::Ready,
        Phase::Failed => SupervisorState::Failed,
    }
}

/// An attempt is in flight from its first probe until it is ready or has
/// failed.
pub open spec fn in_flight(phase: Phase) -> bool {
    !(phase is Idle || phase is Ready || phase is Failed)
}

/// What the host reports to the supervisor.
#[derive(Debug, PartialEq, Eq)]
pub enum Event {
    /// Someone asks for the server: the application at its start, or a
    /// user.
    StartRequested(StartStrategy),
    /// The outstanding probe came to this.
    ProbeCompleted(ProbeOutcome),
    /// The outstanding existence check found the path or did not.
    ExistenceChecked(bool),
    /// The outstanding launch came to this.
    SpawnCompleted(SpawnOutcome),
    /// The grace period is over, and a look at the process found this.
    GraceElapsed(LivenessCheck),
    /// The outstanding pause is over.
    SleepElapsed,
}

/// Mathematical content of an `Event`.
pub enum EventModel {
    StartRequested(StartStrategy),
    ProbeCompleted(ProbeOutcome),
    ExistenceChecked(bool),
    SpawnCompleted(SpawnModel),
    GraceElapsed(LivenessModel),
    SleepElapsed,
}

impl View for Event {
    type V = EventModel;

    open spec fn view(&self) -> EventModel {
        match self {
            Event::StartRequested(strategy) => EventModel::StartRequested(*strategy),
            Event::ProbeCompleted(outcome) => EventModel::ProbeCompleted(*outcome),
            Event::ExistenceChecked(found) => EventModel::ExistenceChecked(*found),
            Event::SpawnCompleted(outcome) => EventModel::SpawnCompleted(outcome@),
            Event::GraceElapsed(check) => EventModel::GraceElapsed(check@),
            Event::SleepElapsed => EventModel::SleepElapsed,
        }
    }
}

/// What the supervisor asks of the host.
#[derive(Debug, PartialEq, Eq)]
pub enum Action {
    /// Probe `endpoint` once, giving up after `timeout_ms`; report
    /// `ProbeCompleted`.
    Probe { endpoint: String, timeout_ms: u64 },
    /// Tell whether `path` exists; report `ExistenceChecked`.
    CheckExists { path: String },
    /// Start the process of this plan; report `SpawnCompleted`.
    Spawn(LaunchPlan),
    /// Let `grace_ms` pass, then look whether the process still runs;
    /// report `GraceElapsed`.
    AwaitGrace { grace_ms: u64 },
    /// Pause for `interval_ms`; report `SleepElapsed`.
    Sleep { interval_ms: u64 },
    /// The attempt ended with a healthy server.
    ReportReady,
    /// The attempt ended without one, for this reason.
    ReportFailed(LaunchError),
    /// An attempt is in flight; the start request is turned away.
    Reject,
    /// The event answers nothing that is outstanding; nothing changed.
    Ignore,
}

/// Mathematical content of an `Action`.
pub enum ActionModel {
    Probe { endpoint: Seq<char>, timeout_ms: u64 },
    CheckExists { path: Seq<char> },
    Spawn(PlanModel),
    AwaitGrace { grace_ms: u64 },
    Sleep { interval_ms: u64 },
    ReportReady,
    ReportFailed(ErrorModel),
    Reject,
    Ignore,
}

impl View for Action {
    type V = ActionModel;

    open spec fn view(&self) -> ActionModel {
        match self {
            Action::Probe { endpoint, timeout_ms } => ActionModel::Probe {
                endpoint: endpoint@,
                timeout_ms: *timeout_ms,
            },
            Action::CheckExists { path } => ActionModel::CheckExists { path: path@ },
            Action::Spawn(plan) => ActionModel::Spawn(plan@),
            Action::AwaitGrace { grace_ms } => ActionModel::AwaitGrace { grace_ms: *grace_ms },
            Action::Sleep { interval_ms } => ActionModel::Sleep { interval_ms: *interval_ms },
            Action::ReportReady => ActionModel::ReportReady,
            Action::ReportFailed(error) => ActionModel::ReportFailed(error@),
            Action::Reject => ActionModel::Reject,
            Action::Ignore => ActionModel::Ignore,
        }
    }
}

/// What changes while the supervisor runs.
#[derive(Debug, PartialEq, Eq)]
pub struct Progress {
    pub phase: Phase,
    /// The process that this attempt started, as last seen.
    pub handle: Option<ProcessHandle>,
    /// The candidate that this attempt has running.
    pub launched: Option<ServerCandidate>,
    /// The last concrete error that this attempt met.
    pub last_error: Option<LaunchError>,
}

/// Mathematical content of a `Progress`.
pub struct ProgressModel {
    pub phase: Phase,
    pub handle: Option<ProcessHandle>,
    pub launched: Option<CandidateModel>,
    pub last_error: Option<ErrorModel>,
}

impl View for Progress {
    type V = ProgressModel;

    open spec fn view(&self) -> ProgressModel {
        ProgressModel {
            phase: self.phase,
            handle: self.handle,
            launched: self.launched.deep_view(),
            last_error: self.last_error.deep_view(),
        }
    }
}

/// A step of the supervisor: what it has become and what it asks for.
pub struct Reaction {
    pub progress: ProgressModel,
    pub action: ActionModel,
}

/// The progress of a supervisor that was not asked anything yet.
pub open spec fn idle_progress() -> ProgressModel {
    ProgressModel { phase: Phase::Idle, handle: None, launched: None, last_error: None }
}

/// Whether a handle is held on a process that was running when last seen.
pub open spec fn holds_running(handle: Option<ProcessHandle>) -> bool {
    handle matches Some(h) && h.lifecycle == LifecycleState::Running
}

/// Whether no process of this attempt can be alive: none was started, or
/// the one that was has been seen to have ended.
pub open spec fn no_live_process(handle: Option<ProcessHandle>) -> bool {
    handle matches Some(h) ==> h.lifecycle is ExitedEarly
}

/// The records of progress that a supervisor with this configuration can
/// be in. Discovery goes on only where no process of this attempt can be
/// alive.
pub open spec fn progress_wf(cfg: ConfigModel, p: ProgressModel) -> bool {
    match p.phase {
        Phase::Idle => p.handle is None,
        Phase::ProbingExisting(_) => p.handle is None,
        Phase::LocatingEmbedded => cfg.embedded is Some && p.handle is None,
        Phase::SpawningEmbedded => cfg.embedded is Some && p.handle is None,
        Phase::GracePeriod => cfg.embedded is Some && holds_running(p.handle) && p.launched
            is Some,
        Phase::LocatingExternal(i) => i < cfg.locations.len() && no_live_process(p.handle),
        Phase::SpawningExternal(i) => i < cfg.locations.len() && no_live_process(p.handle),
        Phase::Waiting(w) => {
            &&& wait_wf(cfg.pacing, w)
            &&& w.phase == WaitPhase::Probing || w.phase == WaitPhase::Sleeping
            &&& holds_running(p.handle)
            &&& p.launched is Some
        },
        Phase::Ready => p.handle is None || holds_running(p.handle),
        Phase::Failed => p.last_error is Some,
    }
}

/// The attempt fails for `error`.
pub open spec fn fail(p: ProgressModel, error: ErrorModel) -> Reaction {
    Reaction {
        progress: ProgressModel { phase: Phase::Failed, last_error: Some(error), ..p },
        action: ActionModel::ReportFailed(error),
    }
}

/// Discovery across the external locations begins, or fails at once where
/// there is none.
pub open spec fn enter_external(cfg: ConfigModel, p: ProgressModel) -> Reaction {
    if cfg.locations.len() == 0 {
        fail(p, ErrorModel::CandidateNotFound)
    } else {
        Reaction {
            progress: ProgressModel { phase: Phase::LocatingExternal(0), ..p },
            action: ActionModel::CheckExists { path: cfg.locations[0] },
        }
    }
}

/// The packaged launch is given up for `error`, and discovery begins.
pub open spec fn fall_back(cfg: ConfigModel, p: ProgressModel, error: ErrorModel) -> Reaction {
    enter_external(cfg, ProgressModel { last_error: Some(error), ..p })
}

/// The failure of a wait that exhausted its bound.
pub open spec fn wait_timeout(cfg: ConfigModel) -> ErrorModel {
    ErrorModel::HealthCheckTimeout {
        attempts: cfg.pacing.max_attempts,
        interval_ms: cfg.pacing.interval_ms,
    }
}

/// Where the supervisor stands once the waiter is in state `w`.
pub open spec fn follow_wait(cfg: ConfigModel, p: ProgressModel, w: WaitState) -> Reaction {
    match w.phase {
        WaitPhase::Probing => Reaction {
            progress: ProgressModel { phase: Phase::Waiting(w), ..p },
            action: ActionModel::Probe {
                endpoint: cfg.endpoint,
                timeout_ms: probe_timeout(cfg.pacing, cfg.probe_timeout_ms),
            },
        },
        WaitPhase::Sleeping => Reaction {
            progress: ProgressModel { phase: Phase::Waiting(w), ..p },
            action: ActionModel::Sleep { interval_ms: cfg.pacing.interval_ms },
        },
        WaitPhase::Ready => Reaction {
            progress: ProgressModel { phase: Phase::Ready, ..p },
            action: ActionModel::ReportReady,
        },
        WaitPhase::TimedOut => fail(p, wait_timeout(cfg)),
    }
}

/// The handle and the candidate of a launch that succeeded.
pub open spec fn with_process(
    p: ProgressModel,
    process_id: u32,
    stdio: StdioPolicy,
    candidate: CandidateModel,
) -> ProgressModel {
    ProgressModel {
        handle: Some(
            ProcessHandle {
                process_id,
                stdout: sink_for(stdio),
                stderr: sink_for(stdio),
                lifecycle: LifecycleState::Running,
            },
        ),
        launched: Some(candidate),
        ..p
    }
}

/// The plan by which the supervisor starts the artifact at `path`.
pub open spec fn plan_at(cfg: ConfigModel, path: Seq<char>, stdio: StdioPolicy) -> PlanModel {
    launch_plan(candidate_at(path, cfg.script_suffix), cfg.interpreter, cfg.working_dir, stdio)
}

/// A new attempt: what an earlier one left is dropped, and the probe for a
/// running server goes out.
pub open spec fn begin_attempt(cfg: ConfigModel, strategy: StartStrategy) -> Reaction {
    Reaction {
        progress: ProgressModel { phase: Phase::ProbingExisting(strategy), ..idle_progress() },
        action: ActionModel::Probe { endpoint: cfg.endpoint, timeout_ms: cfg.probe_timeout_ms },
    }
}

/// The event is answered with `action` and changes nothing.
pub open spec fn unmoved(p: ProgressModel, action: ActionModel) -> Reaction {
    Reaction { progress: p, action }
}

/// The supervisor's step: from its configuration, its progress and an
/// event to its new progress and what it asks for.
pub open spec fn react(cfg: ConfigModel, p: ProgressModel, event: EventModel) -> Reaction {
    match event {
        EventModel::StartRequested(strategy) => if in_flight(p.phase) {
            unmoved(p, ActionModel::Reject)
        } else {
            begin_attempt(cfg, strategy)
        },
        EventModel::ProbeCompleted(outcome) => match p.phase {
            Phase::ProbingExisting(strategy) => if health_of(outcome) == HealthStatus::Healthy {
                Reaction {
                    progress: ProgressModel { phase: Phase::Ready, ..p },
                    action: ActionModel::ReportReady,
                }
            } else {
                match strategy {
                    StartStrategy::EmbeddedFirst => match cfg.embedded {
                        Some(path) => Reaction {
                            progress: ProgressModel { phase: Phase::LocatingEmbedded, ..p },
                            action: ActionModel::CheckExists { path },
                        },
                        None => fall_back(cfg, p, ErrorModel::CandidateNotFound),
                    },
                    StartStrategy::ExternalOnly => enter_external(cfg, p),
                }
            },
            Phase::Waiting(w) => if w.phase == WaitPhase::Probing {
                follow_wait(
                    cfg,
                    p,
                    wait_next(cfg.pacing, w, WaitEvent::Probed(health_of(outcome))),
                )
            } else {
                unmoved(p, ActionModel::Ignore)
            },
            _ => unmoved(p, ActionModel::Ignore),
        },
        EventModel::ExistenceChecked(found) => match p.phase {
            Phase::LocatingEmbedded => if cfg.embedded is None {
                unmoved(p, ActionModel::Ignore)
            } else if found {
                Reaction {
                    progress: ProgressModel { phase: Phase::SpawningEmbedded, ..p },
                    action: ActionModel::Spawn(
                        plan_at(cfg, cfg.embedded->0, StdioPolicy::Capture),
                    ),
                }
            } else {
                fall_back(cfg, p, ErrorModel::CandidateNotFound)
            },
            Phase::LocatingExternal(i) => if i >= cfg.locations.len() {
                unmoved(p, ActionModel::Ignore)
            } else if found {
                Reaction {
                    progress: ProgressModel { phase: Phase::SpawningExternal(i), ..p },
                    action: ActionModel::Spawn(
                        plan_at(cfg, cfg.locations[i as int], StdioPolicy::Discard),
                    ),
                }
            } else if i + 1 < cfg.locations.len() {
                Reaction {
                    progress: ProgressModel {
                        phase: Phase::LocatingExternal((i + 1) as usize),
                        ..p
                    },
                    action: ActionModel::CheckExists { path: cfg.locations[i + 1] },
                }
            } else {
                fail(p, ErrorModel::CandidateNotFound)
            },
            _ => unmoved(p, ActionModel::Ignore),
        },
        EventModel::SpawnCompleted(outcome) => match p.phase {
            Phase::SpawningEmbedded => if cfg.embedded is None {
                unmoved(p, ActionModel::Ignore)
            } else {
                match outcome {
                    SpawnModel::Started(process_id) => Reaction {
                        progress: ProgressModel {
                            phase: Phase::GracePeriod,
                            ..with_process(
                                p,
                                process_id,
                                StdioPolicy::Capture,
                                candidate_at(cfg.embedded->0, cfg.script_suffix),
                            )
                        },
                        action: ActionModel::AwaitGrace { grace_ms: cfg.grace_ms },
                    },
                    SpawnModel::Refused(reason) => fall_back(
                        cfg,
                        p,
                        ErrorModel::SpawnFailure(reason),
                    ),
                }
            },
            Phase::SpawningExternal(i) => if i >= cfg.locations.len() {
                unmoved(p, ActionModel::Ignore)
            } else {
                match outcome {
                    SpawnModel::Started(process_id) => follow_wait(
                        cfg,
                        with_process(
                            p,
                            process_id,
                            StdioPolicy::Discard,
                            candidate_at(cfg.locations[i as int], cfg.script_suffix),
                        ),
                        wait_begin(cfg.pacing),
                    ),
                    SpawnModel::Refused(reason) => fail(p, ErrorModel::SpawnFailure(reason)),
                }
            },
            _ => unmoved(p, ActionModel::Ignore),
        },
        EventModel::GraceElapsed(check) => match p.phase {
            Phase::GracePeriod => match p.handle {
                Some(handle) => {
                    let seen = ProcessHandle { lifecycle: lifecycle_of(check), ..handle };
                    match grace_verdict(check) {
                        None => follow_wait(cfg, p, wait_begin(cfg.pacing)),
                        Some(error) => if seen.lifecycle is ExitedEarly {
                            fall_back(
                                cfg,
                                ProgressModel { handle: Some(seen), launched: None, ..p },
                                error,
                            )
                        } else {
                            fail(ProgressModel { handle: Some(seen), ..p }, error)
                        },
                    }
                },
                None => unmoved(p, ActionModel::Ignore),
            },
            _ => unmoved(p, ActionModel::Ignore),
        },
        EventModel::SleepElapsed => match p.phase {
            Phase::Waiting(w) => if w.phase == WaitPhase::Sleeping {
                follow_wait(cfg, p, wait_next(cfg.pacing, w, WaitEvent::Slept))
            } else {
                unmoved(p, ActionModel::Ignore)
            },
            _ => unmoved(p, ActionModel::Ignore),
        },
    }
}

fn copy_text(text: &Option<String>) -> (copy: Option<String>)
    ensures
        copy.deep_view() == text.deep_view(),
{
    match text {
        Some(t) => Some(t.clone()),
        None => None,
    }
}

fn copy_candidate(candidate: &Option<ServerCandidate>) -> (copy: Option<ServerCandidate>)
    ensures
        copy.deep_view() == candidate.deep_view(),
{
    match candidate {
        Some(c) => Some(c.duplicate()),
        None => None,
    }
}

fn copy_error(error: &Option<LaunchError>) -> (copy: Option<LaunchError>)
    ensures
        copy.deep_view() == error.deep_view(),
{
    match error {
        Some(e) => Some(e.duplicate()),
        None => None,
    }
}

impl Progress {
    /// A second record with the same content.
    pub fn duplicate(&self) -> (copy: Progress)
        ensures
            copy@ == self@,
    {
        Progress {
            phase: self.phase,
            handle: self.handle,
            launched: copy_candidate(&self.launched),
            last_error: copy_error(&self.last_error),
        }
    }
}

impl SupervisorConfig {
    /// A configuration with the standard timing: five seconds for the
    /// first probe, three seconds of grace, and the standard readiness
    /// policy. What is launched inherits the host's working directory.
    pub fn standard(
        endpoint: String,
        embedded: Option<String>,
        locations: Vec<String>,
        script_suffix: String,
        interpreter: String,
    ) -> (config: SupervisorConfig)
        ensures
            config@ == (ConfigModel {
                endpoint: endpoint@,
                probe_timeout_ms: 5000,
                embedded: embedded.deep_view(),
                locations: locations.deep_view(),
                script_suffix: script_suffix@,
                interpreter: interpreter@,
                working_dir: None,
                grace_ms: 3000,
                pacing: Pacing { max_attempts: 30, interval_ms: 1000 },
            }),
    {
        SupervisorConfig {
            endpoint,
            probe_timeout_ms: 5000,
            embedded,
            locations,
            script_suffix,
            interpreter,
            working_dir: None,
            grace_ms: 3000,
            readiness: ReadinessPolicy::standard(),
        }
    }
}

/// The supervisor of one sidecar server. At most one attempt is in flight
/// at any time.
#[derive(Debug)]
pub struct Supervisor {
    config: SupervisorConfig,
    progress: Progress,
}

/// Mathematical content of a `Supervisor`.
pub struct SupervisorModel {
    pub config: ConfigModel,
    pub progress: ProgressModel,
}

impl View for Supervisor {
    type V = SupervisorModel;

    closed spec fn view(&self) -> SupervisorModel {
        SupervisorModel { config: self.config@, progress: self.progress@ }
    }
}

impl Supervisor {
    #[verifier::type_invariant]
    spec fn well_formed(self) -> bool {
        progress_wf(self.config@, self.progress@)
    }

    /// An idle supervisor.
    pub fn new(config: SupervisorConfig) -> (supervisor: Supervisor)
        ensures
            supervisor@ == (SupervisorModel { config: config@, progress: idle_progress() }),
    {
        Supervisor {
            config,
            progress: Progress {
                phase: Phase::Idle,
                handle: None,
                launched: None,
                last_error: None,
            },
        }
    }

    /// What the supervisor works with.
    pub fn config(&self) -> (config: &SupervisorConfig)
        ensures
            config@ == self@.config,
    {
        &self.config
    }

    /// Where exactly the supervisor stands.
    pub fn phase(&self) -> (phase: Phase)
        ensures
            phase == self@.progress.phase,
    {
        self.progress.phase
    }

    /// The state of the attempt.
    pub fn state(&self) -> (state: SupervisorState)
        ensures
            state == state_of(self@.progress.phase),
    {
        match self.progress.phase {
            Phase::Idle => SupervisorState::Idle,
            Phase::ProbingExisting(_) => SupervisorState::ProbingExistingServer,
            Phase::LocatingEmbedded => SupervisorState::LaunchingEmbedded,
            Phase::SpawningEmbedded => SupervisorState::LaunchingEmbedded,
            Phase::GracePeriod => SupervisorState::LaunchingEmbedded,
            Phase::LocatingExternal(_) => SupervisorState::LaunchingExternal,
            Phase::SpawningExternal(_) => SupervisorState::LaunchingExternal,
            Phase::Waiting(_) => SupervisorState::WaitingForReadiness,
            Phase::Ready => SupervisorState::Ready,
            Phase::Failed => SupervisorState::Failed,
        }
    }

    /// Whether an attempt is in flight.
    pub fn is_busy(&self) -> (busy: bool)
        ensures
            busy == in_flight(self@.progress.phase),
    {
        match self.progress.phase {
            Phase::Idle => false,
            Phase::Ready => false,
            Phase::Failed => false,
            _ => true,
        }
    }

    /// The progress of the attempt, with all that it holds.
    pub fn progress(&self) -> (progress: Progress)
        ensures
            progress@ == self@.progress,
            progress_wf(self@.config, progress@),
    {
        proof {
            use_type_invariant(self);
        }
        self.progress.duplicate()
    }

    /// The reason of the failure, in a failed attempt; otherwise the last
    /// error that the attempt in flight got over, if any.
    pub fn last_error(&self) -> (error: Option<LaunchError>)
        ensures
            error.deep_view() == self@.progress.last_error,
            self@.progress.phase is Failed ==> error is Some,
    {
        proof {
            use_type_invariant(self);
        }
        copy_error(&self.progress.last_error)
    }

    fn plan_for(&self, path: &String, stdio: StdioPolicy) -> (plan: LaunchPlan)
        ensures
            plan@ == plan_at(self@.config, path@, stdio),
    {
        let candidate = ServerCandidate::at(path.clone(), self.config.script_suffix.as_str());
        plan_launch(
            &candidate,
            self.config.interpreter.as_str(),
            copy_text(&self.config.working_dir),
            stdio,
        )
    }

    fn candidate_for(&self, path: &String) -> (candidate: ServerCandidate)
        ensures
            candidate@ == candidate_at(path@, self@.config.script_suffix),
    {
        ServerCandidate::at(path.clone(), self.config.script_suffix.as_str())
    }

    fn failing(base: Progress, error: LaunchError) -> (step: (Progress, Action))
        ensures
            step.0@ == fail(base@, error@).progress,
            step.1@ == fail(base@, error@).action,
    {
        let progress = Progress {
            phase: Phase::Failed,
            handle: base.handle,
            launched: base.launched,
            last_error: Some(error.duplicate()),
        };
        (progress, Action::ReportFailed(error))
    }

    fn entering_external(&self, base: Progress) -> (step: (Progress, Action))
        ensures
            step.0@ == enter_external(self@.config, base@).progress,
            step.1@ == enter_external(self@.config, base@).action,
    {
        if self.config.locations.len() == 0 {
            Supervisor::failing(base, LaunchError::CandidateNotFound)
        } else {
            let progress = Progress {
                phase: Phase::LocatingExternal(0),
                handle: base.handle,
                launched: base.launched,
                last_error: base.last_error,
            };
            (progress, Action::CheckExists { path: self.config.locations[0].clone() })
        }
    }

    fn falling_back(&self, base: Progress, error: LaunchError) -> (step: (Progress, Action))
        ensures
            step.0@ == fall_back(self@.config, base@, error@).progress,
            step.1@ == fall_back(self@.config, base@, error@).action,
    {
        let noted = Progress {
            phase: base.phase,
            handle: base.handle,
            launched: base.launched,
            last_error: Some(error),
        };
        self.entering_external(noted)
    }

    fn following_wait(&self, base: Progress, wait: WaitState) -> (step: (Progress, Action))
        ensures
            step.0@ == follow_wait(self@.config, base@, wait).progress,
            step.1@ == follow_wait(self@.config, base@, wait).action,
    {
        let pending = outstanding(&self.config.readiness, self.config.probe_timeout_ms, wait);
        match pending {
            WaitAction::Probe { timeout_ms } => {
                let progress = Progress {
                    phase: Phase::Waiting(wait),
                    handle: base.handle,
                    launched: base.launched,
                    last_error: base.last_error,
                };
                (progress, Action::Probe { endpoint: self.config.endpoint.clone(), timeout_ms })
            },
            WaitAction::Sleep { interval_ms } => {
                let progress = Progress {
                    phase: Phase::Waiting(wait),
                    handle: base.handle,
                    launched: base.launched,
                    last_error: base.last_error,
                };
                (progress, Action::Sleep { interval_ms })
            },
            WaitAction::Finish(WaitResult::Ready) => {
                let progress = Progress {
                    phase: Phase::Ready,
                    handle: base.handle,
                    launched: base.launched,
                    last_error: base.last_error,
                };
                (progress, Action::ReportReady)
            },
            WaitAction::Finish(WaitResult::TimedOut) => {
                let error = LaunchError::HealthCheckTimeout {
                    attempts: self.config.readiness.max_attempts(),
                    interval_ms: self.config.readiness.interval_ms(),
                };
                Supervisor::failing(base, error)
            },
            WaitAction::Ignore => (base, Action::Ignore),
        }
    }

    fn decide(&self, event: Event) -> (step: (Progress, Action))
        ensures
            step.0@ == react(self@.config, self@.progress, event@).progress,
            step.1@ == react(self@.config, self@.progress, event@).action,
    {
        proof {
            use_type_invariant(self);
        }
        let base = self.progress.duplicate();
        match event {
            Event::StartRequested(strategy) => {
                if self.is_busy() {
                    (base, Action::Reject)
                } else {
                    let progress = Progress {
                        phase: Phase::ProbingExisting(strategy),
                        handle: None,
                        launched: None,
                        last_error: None,
                    };
                    let action = Action::Probe {
                        endpoint: self.config.endpoint.clone(),
                        timeout_ms: self.config.probe_timeout_ms,
                    };
                    (progress, action)
                }
            },
            Event::ProbeCompleted(outcome) => match base.phase {
                Phase::ProbingExisting(strategy) => match classify(outcome) {
                    HealthStatus::Healthy => {
                        let progress = Progress {
                            phase: Phase::Ready,
                            handle: base.handle,
                            launched: base.launched,
                            last_error: base.last_error,
                        };
                        (progress, Action::ReportReady)
                    },
                    HealthStatus::Unhealthy => match strategy {
                        StartStrategy::EmbeddedFirst => match &self.config.embedded {
                            Some(path) => {
                                let progress = Progress {
                                    phase: Phase::LocatingEmbedded,
                                    handle: base.handle,
                                    launched: base.launched,
                                    last_error: base.last_error,
                                };
                                (progress, Action::CheckExists { path: path.clone() })
                            },
                            None => self.falling_back(base, LaunchError::CandidateNotFound),
                        },
                        StartStrategy::ExternalOnly => self.entering_external(base),
                    },
                },
                Phase::Waiting(wait) => match wait.phase {
                    WaitPhase::Probing => {
                        let (next, _) = advance_wait(
                            &self.config.readiness,
                            self.config.probe_timeout_ms,
                            wait,
                            WaitEvent::Probed(classify(outcome)),
                        );
                        self.following_wait(base, next)
                    },
                    _ => (base, Action::Ignore),
                },
                _ => (base, Action::Ignore),
            },
            Event::ExistenceChecked(found) => match base.phase {
                Phase::LocatingEmbedded => match &self.config.embedded {
                    Some(path) => {
                        if found {
                            let progress = Progress {
                                phase: Phase::SpawningEmbedded,
                                handle: base.handle,
                                launched: base.launched,
                                last_error: base.last_error,
                            };
                            (progress, Action::Spawn(self.plan_for(path, StdioPolicy::Capture)))
                        } else {
                            self.falling_back(base, LaunchError::CandidateNotFound)
                        }
                    },
                    None => (base, Action::Ignore),
                },
                Phase::LocatingExternal(i) => {
                    if i >= self.config.locations.len() {
                        (base, Action::Ignore)
                    } else if found {
                        let progress = Progress {
                            phase: Phase::SpawningExternal(i),
                            handle: base.handle,
                            launched: base.launched,
                            last_error: base.last_error,
                        };
                        let plan = self.plan_for(&self.config.locations[i], StdioPolicy::Discard);
                        (progress, Action::Spawn(plan))
                    } else if i + 1 < self.config.locations.len() {
                        let progress = Progress {
                            phase: Phase::LocatingExternal(i + 1),
                            handle: base.handle,
                            launched: base.launched,
                            last_error: base.last_error,
                        };
                        let path = self.config.locations[i + 1].clone();
                        (progress, Action::CheckExists { path })
                    } else {
                        Supervisor::failing(base, LaunchError::CandidateNotFound)
                    }
                },
                _ => (base, Action::Ignore),
            },
            Event::SpawnCompleted(outcome) => match base.phase {
                Phase::SpawningEmbedded => match &self.config.embedded {
                    Some(path) => match outcome {
                        SpawnOutcome::Started(process_id) => {
                            let progress = Progress {
                                phase: Phase::GracePeriod,
                                handle: Some(
                                    ProcessHandle::started(process_id, StdioPolicy::Capture),
                                ),
                                launched: Some(self.candidate_for(path)),
                                last_error: base.last_error,
                            };
                            (progress, Action::AwaitGrace { grace_ms: self.config.grace_ms })
                        },
                        SpawnOutcome::Refused(reason) => self.falling_back(
                            base,
                            LaunchError::SpawnFailure(reason),
                        ),
                    },
                    None => (base, Action::Ignore),
                },
                Phase::SpawningExternal(i) => {
                    if i >= self.config.locations.len() {
                        (base, Action::Ignore)
                    } else {
                        match outcome {
                            SpawnOutcome::Started(process_id) => {
                                let started = Progress {
                                    phase: base.phase,
                                    handle: Some(
                                        ProcessHandle::started(process_id, StdioPolicy::Discard),
                                    ),
                                    launched: Some(self.candidate_for(&self.config.locations[i])),
                                    last_error: base.last_error,
                                };
                                self.following_wait(started, begin_wait(&self.config.readiness))
                            },
                            SpawnOutcome::Refused(reason) => Supervisor::failing(
                                base,
                                LaunchError::SpawnFailure(reason),
                            ),
                        }
                    }
                },
                _ => (base, Action::Ignore),
            },
            Event::GraceElapsed(check) => match base.phase {
                Phase::GracePeriod => match base.handle {
                    Some(handle) => {
                        let seen = handle.observed(lifecycle_after(&check));
                        match judge_after_grace(&check) {
                            None => self.following_wait(base, begin_wait(&self.config.readiness)),
                            Some(error) => {
                                if seen.has_exited() {
                                    let ended = Progress {
                                        phase: base.phase,
                                        handle: Some(seen),
                                        launched: None,
                                        last_error: base.last_error,
                                    };
                                    self.falling_back(ended, error)
                                } else {
                                    let unsure = Progress {
                                        phase: base.phase,
                                        handle: Some(seen),
                                        launched: base.launched,
                                        last_error: base.last_error,
                                    };
                                    Supervisor::failing(unsure, error)
                                }
                            },
                        }
                    },
                    None => (base, Action::Ignore),
                },
                _ => (base, Action::Ignore),
            },
            Event::SleepElapsed => match base.phase {
                Phase::Waiting(wait) => match wait.phase {
                    WaitPhase::Sleeping => {
                        let (next, _) = advance_wait(
                            &self.config.readiness,
                            self.config.probe_timeout_ms,
                            wait,
                            WaitEvent::Slept,
                        );
                        self.following_wait(base, next)
                    },
                    _ => (base, Action::Ignore),
                },
                _ => (base, Action::Ignore),
            },
        }
    }

    /// Takes an event in and names what the host is to do next. The new
    /// progress and the action are those of `react`; the configuration
    /// stays as it is.
    pub fn step(&mut self, event: Event) -> (action: Action)
        ensures
            final(self)@.config == old(self)@.config,
            final(self)@.progress == react(old(self)@.config, old(self)@.progress, event@).progress,
            action@ == react(old(self)@.config, old(self)@.progress, event@).action,
    {
        proof {
            use_type_invariant(&*self);
            react_keeps_wf(self@.config, self@.progress, event@);
        }
        let (progress, action) = self.decide(event);
        self.progress = progress;
        action
    }
}

/// The transitions of the chain, and the start of a new attempt once one
/// has ended.
pub open spec fn hop(from: SupervisorState, to: SupervisorState) -> bool {
    match (from, to) {
        (SupervisorState::Idle, SupervisorState::ProbingExistingServer) => true,
        (SupervisorState::ProbingExistingServer, SupervisorState::Ready) => true,
        (SupervisorState::ProbingExistingServer, SupervisorState::LaunchingEmbedded) => true,
        (SupervisorState::LaunchingEmbedded, SupervisorState::WaitingForReadiness) => true,
        (SupervisorState::LaunchingEmbedded, SupervisorState::LaunchingExternal) => true,
        (SupervisorState::LaunchingExternal, SupervisorState::WaitingForReadiness) => true,
        (SupervisorState::LaunchingExternal, SupervisorState::Failed) => true,
        (SupervisorState::WaitingForReadiness, SupervisorState::Ready) => true,
        (SupervisorState::WaitingForReadiness, SupervisorState::Failed) => true,
        (SupervisorState::Ready, SupervisorState::ProbingExistingServer) => true,
        (SupervisorState::Failed, SupervisorState::ProbingExistingServer) => true,
        _ => false,
    }
}

/// The one way out of the chain. A packaged server that was started and
/// cannot be told about ends the attempt: it may be alive, so that no
/// second server may be started beside it.
pub open spec fn gives_up(from: SupervisorState, to: SupervisorState) -> bool {
    from == SupervisorState::LaunchingEmbedded && to == SupervisorState::Failed
}

/// A state in which nothing is to be asked for: the packaged launch where
/// no packaged artifact is named or the request was for the external
/// locations only, discovery where no location is listed, and the wait
/// where no probe is allowed. The supervisor that stands at `at` passes
/// through such a state within one step.
pub open spec fn nothing_to_do(cfg: ConfigModel, at: Phase, state: SupervisorState) -> bool {
    match state {
        SupervisorState::LaunchingEmbedded => cfg.embedded is None || at
            == Phase::ProbingExisting(StartStrategy::ExternalOnly),
        SupervisorState::LaunchingExternal => cfg.locations.len() == 0,
        SupervisorState::WaitingForReadiness => cfg.pacing.max_attempts == 0,
        _ => false,
    }
}

/// Two transitions in one step, through a state with nothing to do.
pub open spec fn through(
    cfg: ConfigModel,
    at: Phase,
    mid: SupervisorState,
    to: SupervisorState,
) -> bool {
    hop(state_of(at), mid) && nothing_to_do(cfg, at, mid) && hop(mid, to)
}

/// What one step can do to the state of a supervisor that stands at `at`:
/// leave it, take one transition, pass through states with nothing to do,
/// or give up.
pub open spec fn route(cfg: ConfigModel, at: Phase, to: SupervisorState) -> bool {
    ||| state_of(at) == to
    ||| hop(state_of(at), to)
    ||| gives_up(state_of(at), to)
    ||| through(cfg, at, SupervisorState::LaunchingEmbedded, to)
    ||| through(cfg, at, SupervisorState::LaunchingExternal, to)
    ||| through(cfg, at, SupervisorState::WaitingForReadiness, to)
    ||| {
        &&& hop(state_of(at), SupervisorState::LaunchingEmbedded)
        &&& nothing_to_do(cfg, at, SupervisorState::LaunchingEmbedded)
        &&& hop(SupervisorState::LaunchingEmbedded, SupervisorState::LaunchingExternal)
        &&& nothing_to_do(cfg, at, SupervisorState::LaunchingExternal)
        &&& hop(SupervisorState::LaunchingExternal, to)
    }
}

/// Every step keeps the supervisor within its records of progress.
pub proof fn react_keeps_wf(cfg: ConfigModel, p: ProgressModel, event: EventModel)
    requires
        progress_wf(cfg, p),
    ensures
        progress_wf(cfg, react(cfg, p, event).progress),
{
}

/// The state moves along the chain only: existing server, packaged
/// artifact, discovered artifact, readiness, and then ready or failed.
pub proof fn react_follows_the_chain(cfg: ConfigModel, p: ProgressModel, event: EventModel)
    requires
        progress_wf(cfg, p),
    ensures
        route(cfg, p.phase, state_of(react(cfg, p, event).progress.phase)),
{
}

/// The packaged launch ends an attempt in three cases and no other: the
/// process cannot be told about; or it has failed and there is no
/// location to fall back to; or it runs and no probe is allowed.
pub proof fn failure_during_the_packaged_launch(
    cfg: ConfigModel,
    p: ProgressModel,
    event: EventModel,
)
    requires
        progress_wf(cfg, p),
        state_of(p.phase) == SupervisorState::LaunchingEmbedded,
        react(cfg, p, event).progress.phase is Failed,
    ensures
        ({
            let action = react(cfg, p, event).action;
            ||| {
                &&& p.phase is GracePeriod
                &&& event matches EventModel::GraceElapsed(LivenessModel::Unreadable(cause))
                &&& action == ActionModel::ReportFailed(ErrorModel::LivenessUnknown(cause))
            }
            ||| {
                &&& cfg.locations.len() == 0
                &&& action == ActionModel::ReportFailed(ErrorModel::CandidateNotFound)
            }
            ||| {
                &&& cfg.pacing.max_attempts == 0
                &&& p.phase is GracePeriod
                &&& event == EventModel::GraceElapsed(LivenessModel::StillRunning)
                &&& action == ActionModel::ReportFailed(wait_timeout(cfg))
            }
        }),
{
}

/// While an attempt is in flight, a request to start changes nothing and
/// is turned away: no second attempt begins beside the first, and so no
/// second process.
pub proof fn start_request_in_flight_is_rejected(
    cfg: ConfigModel,
    p: ProgressModel,
    strategy: StartStrategy,
)
    requires
        in_flight(p.phase),
    ensures
        react(cfg, p, EventModel::StartRequested(strategy)) == unmoved(p, ActionModel::Reject),
{
}

/// An attempt begins with a request to start and with nothing else; one
/// that has ended stays as it is until the next request.
pub proof fn only_a_request_begins_an_attempt(
    cfg: ConfigModel,
    p: ProgressModel,
    event: EventModel,
)
    requires
        !in_flight(p.phase),
    ensures
        event matches EventModel::StartRequested(strategy) ==> react(cfg, p, event)
            == begin_attempt(cfg, strategy),
        !(event is StartRequested) ==> react(cfg, p, event) == unmoved(p, ActionModel::Ignore),
{
}

/// A launch is asked for only in answer to an existence check that found
/// its path, only while a location is being checked, and only while no
/// process of this attempt can be alive: none was started, or the one that
/// was has been seen to have ended. The plan is that of the path which was
/// found.
pub proof fn launch_only_after_found(cfg: ConfigModel, p: ProgressModel, event: EventModel)
    requires
        progress_wf(cfg, p),
        react(cfg, p, event).action is Spawn,
    ensures
        event == EventModel::ExistenceChecked(true),
        p.handle is None || (p.handle matches Some(h) && h.lifecycle is ExitedEarly),
        match p.phase {
            Phase::LocatingEmbedded => p.handle is None && cfg.embedded is Some && react(
                cfg,
                p,
                event,
            ).action == ActionModel::Spawn(plan_at(cfg, cfg.embedded->0, StdioPolicy::Capture)),
            Phase::LocatingExternal(i) => i < cfg.locations.len() && react(cfg, p, event).action
                == ActionModel::Spawn(plan_at(cfg, cfg.locations[i as int], StdioPolicy::Discard)),
            _ => false,
        },
{
}

/// The attempt holds one process at a time. Only the report on a launch
/// puts a process into its hands, and then it held none or one that had
/// ended; only a look at the process changes what is known of it; and
/// only a new attempt lets go of it.
pub proof fn one_process_at_a_time(cfg: ConfigModel, p: ProgressModel, event: EventModel)
    requires
        progress_wf(cfg, p),
    ensures
        ({
            let next = react(cfg, p, event).progress;
            &&& next.handle != p.handle ==> event is SpawnCompleted || event is GraceElapsed
                || event is StartRequested
            &&& event is SpawnCompleted && next.handle != p.handle ==> no_live_process(p.handle)
                && holds_running(next.handle)
            &&& event matches EventModel::GraceElapsed(check) ==> next.handle == p.handle || (
            p.handle matches Some(h) && next.handle == Some(
                ProcessHandle { lifecycle: lifecycle_of(check), ..h },
            ))
            &&& event is StartRequested && next.handle != p.handle ==> next.handle is None
                && !in_flight(p.phase)
        }),
{
}

/// A healthy answer to the first probe ends the attempt at once: the
/// supervisor is ready, asks for nothing and holds no process.
pub proof fn running_server_is_left_alone(cfg: ConfigModel, p: ProgressModel, outcome: ProbeOutcome)
    requires
        progress_wf(cfg, p),
        p.phase is ProbingExisting,
        health_of(outcome) == HealthStatus::Healthy,
    ensures
        react(cfg, p, EventModel::ProbeCompleted(outcome)).action == ActionModel::ReportReady,
        react(cfg, p, EventModel::ProbeCompleted(outcome)).progress == (ProgressModel {
            phase: Phase::Ready,
            ..p
        }),
        react(cfg, p, EventModel::ProbeCompleted(outcome)).progress.handle is None,
{
}

/// A failed attempt knows why it failed, and says so when it fails: the
/// reason reported is the last error met. Success and failure are each
/// reported in the step that reaches them, and in no other.
pub proof fn outcome_is_reported_once(cfg: ConfigModel, p: ProgressModel, event: EventModel)
    requires
        progress_wf(cfg, p),
    ensures
        ({
            let step = react(cfg, p, event);
            &&& step.action is ReportFailed <==> step.progress.phase is Failed && in_flight(
                p.phase,
            )
            &&& step.action matches ActionModel::ReportFailed(error) ==> step.progress.last_error
                == Some(error)
            &&& step.action is ReportReady <==> step.progress.phase is Ready && in_flight(p.phase)
            &&& step.progress.phase is Failed ==> step.progress.last_error is Some
        }),
{
}

/// An early exit is never the reason of a failure: it sends the
/// supervisor on to discovery, and what fails then is discovery, the
/// external launch or the wait.
pub proof fn early_exit_is_never_the_reason(cfg: ConfigModel, p: ProgressModel, event: EventModel)
    requires
        progress_wf(cfg, p),
    ensures
        react(cfg, p, event).action matches ActionModel::ReportFailed(error) ==> !(error
            is EarlyExit),
{
}

/// A packaged server that has exited within its grace period sends the
/// supervisor on to the external locations, with the exit noted: the
/// handle shows the exit, nothing counts as launched, and the first
/// location is looked for. Only where no location is listed does the step
/// end the attempt, and then for want of a candidate.
pub proof fn early_exit_falls_back(cfg: ConfigModel, p: ProgressModel, code: Option<i32>)
    requires
        progress_wf(cfg, p),
        p.phase is GracePeriod,
    ensures
        ({
            let step = react(cfg, p, EventModel::GraceElapsed(LivenessModel::Exited(code)));
            &&& step.progress.handle matches Some(h) && h.lifecycle == LifecycleState::ExitedEarly(
                exit_code_of(code),
            )
            &&& step.progress.launched is None
            &&& cfg.locations.len() > 0 ==> step.progress.phase == Phase::LocatingExternal(0)
                && step.action == (ActionModel::CheckExists { path: cfg.locations[0] })
                && step.progress.last_error == Some(ErrorModel::EarlyExit(exit_code_of(code)))
            &&& cfg.locations.len() == 0 ==> step.progress.phase is Failed && step.action
                == ActionModel::ReportFailed(ErrorModel::CandidateNotFound)
        }),
{
}

/// A packaged server that cannot be told about ends the attempt, with the
/// cause in the reason. Nothing is looked for and nothing is launched
/// beside a process that may be alive; the handle stays in the
/// supervisor's hands, its liveness unknown.
pub proof fn unknown_liveness_ends_the_attempt(cfg: ConfigModel, p: ProgressModel, cause: Seq<char>)
    requires
        progress_wf(cfg, p),
        p.phase is GracePeriod,
    ensures
        ({
            let step = react(cfg, p, EventModel::GraceElapsed(LivenessModel::Unreadable(cause)));
            &&& step.action == ActionModel::ReportFailed(ErrorModel::LivenessUnknown(cause))
            &&& step.progress.phase is Failed
            &&& step.progress.last_error == Some(ErrorModel::LivenessUnknown(cause))
            &&& step.progress.handle matches Some(h) && h.lifecycle == LifecycleState::Unknown
            &&& step.progress.launched == p.launched
        }),
{
}

/// After an early exit of the packaged server the attempt can still
/// succeed: where the first location exists, its launch succeeds and the
/// server then answers, the attempt is ready, and it has failed at no
/// step on the way.
pub proof fn early_exit_then_external_launch_is_ready(
    cfg: ConfigModel,
    p: ProgressModel,
    code: Option<i32>,
    process_id: u32,
    outcome: ProbeOutcome,
)
    requires
        progress_wf(cfg, p),
        p.phase is GracePeriod,
        cfg.locations.len() > 0,
        cfg.pacing.max_attempts > 0,
        health_of(outcome) == HealthStatus::Healthy,
    ensures
        ({
            let exited = react(cfg, p, EventModel::GraceElapsed(LivenessModel::Exited(code)));
            let found = react(cfg, exited.progress, EventModel::ExistenceChecked(true));
            let started = react(
                cfg,
                found.progress,
                EventModel::SpawnCompleted(SpawnModel::Started(process_id)),
            );
            let answered = react(cfg, started.progress, EventModel::ProbeCompleted(outcome));
            &&& exited.progress.phase == Phase::LocatingExternal(0)
            &&& found.progress.phase == Phase::SpawningExternal(0)
            &&& found.action == ActionModel::Spawn(
                plan_at(cfg, cfg.locations[0], StdioPolicy::Discard),
            )
            &&& started.progress.phase == Phase::Waiting(wait_begin(cfg.pacing))
            &&& answered.progress.phase == Phase::Ready
            &&& answered.action == ActionModel::ReportReady
            &&& holds_running(answered.progress.handle)
        }),
{
}

/// The progress after a whole sequence of events.
pub open spec fn run(cfg: ConfigModel, p: ProgressModel, events: Seq<EventModel>) -> ProgressModel
    decreases events.len(),
{
    if events.len() == 0 {
        p
    } else {
        run(cfg, react(cfg, p, events[0]).progress, events.drop_first())
    }
}

/// The actions that a whole sequence of events is answered with, one for
/// each event.
pub open spec fn run_actions(cfg: ConfigModel, p: ProgressModel, events: Seq<EventModel>) -> Seq<
    ActionModel,
>
    decreases events.len(),
{
    if events.len() == 0 {
        Seq::empty()
    } else {
        seq![react(cfg, p, events[0]).action] + run_actions(
            cfg,
            react(cfg, p, events[0]).progress,
            events.drop_first(),
        )
    }
}

/// Whatever the events, the supervisor stays within its records of
/// progress and answers each event with one action.
pub proof fn run_keeps_wf(cfg: ConfigModel, p: ProgressModel, events: Seq<EventModel>)
    requires
        progress_wf(cfg, p),
    ensures
        progress_wf(cfg, run(cfg, p, events)),
        run_actions(cfg, p, events).len() == events.len(),
    decreases events.len(),
{
    if events.len() > 0 {
        react_keeps_wf(cfg, p, events[0]);
        run_keeps_wf(cfg, react(cfg, p, events[0]).progress, events.drop_first());
    }
}

/// Where no existence check finds anything, nothing is ever launched,
/// whatever else happens and however long.
pub proof fn nothing_found_nothing_launched(
    cfg: ConfigModel,
    p: ProgressModel,
    events: Seq<EventModel>,
)
    requires
        progress_wf(cfg, p),
        forall|i: int| 0 <= i < events.len() ==> events[i] != EventModel::ExistenceChecked(true),
    ensures
        forall|j: int|
            0 <= j < run_actions(cfg, p, events).len() ==> !(run_actions(cfg, p, events)[j]
                is Spawn),
    decreases events.len(),
{
    if events.len() > 0 {
        let step = react(cfg, p, events[0]);
        let rest = events.drop_first();
        react_keeps_wf(cfg, p, events[0]);
        if step.action is Spawn {
            launch_only_after_found(cfg, p, events[0]);
        }
        assert forall|i: int| 0 <= i < rest.len() implies rest[i] != EventModel::ExistenceChecked(
            true,
        ) by {
            assert(rest[i] == events[i + 1]);
        }
        nothing_found_nothing_launched(cfg, step.progress, rest);
        let tail = run_actions(cfg, step.progress, rest);
        assert forall|j: int| 0 <= j < run_actions(cfg, p, events).len() implies !(run_actions(
            cfg,
            p,
            events,
        )[j] is Spawn) by {
            if j > 0 {
                assert(run_actions(cfg, p, events)[j] == tail[j - 1]);
            }
        }
    }
}

/// However many requests to start arrive while an attempt is in flight,
/// the attempt stays where it is and nothing is launched for them.
pub proof fn repeated_requests_launch_nothing(
    cfg: ConfigModel,
    p: ProgressModel,
    strategy: StartStrategy,
    count: nat,
)
    requires
        in_flight(p.phase),
    ensures
        run(cfg, p, Seq::new(count, |i: int| EventModel::StartRequested(strategy))) == p,
        run_actions(cfg, p, Seq::new(count, |i: int| EventModel::StartRequested(strategy)))
            == Seq::new(count, |i: int| ActionModel::Reject),
    decreases count,
{
    let events = Seq::new(count, |i: int| EventModel::StartRequested(strategy));
    if count > 0 {
        let fewer = Seq::new((count - 1) as nat, |i: int| EventModel::StartRequested(strategy));
        assert(events.drop_first() =~= fewer);
        repeated_requests_launch_nothing(cfg, p, strategy, (count - 1) as nat);
        assert(run_actions(cfg, p, events) =~= Seq::new(count, |i: int| ActionModel::Reject));
    } else {
        assert(run_actions(cfg, p, events) =~= Seq::new(count, |i: int| ActionModel::Reject));
    }
}

/// An upper bound on the events that an attempt can still take in before
/// it ends.
pub open spec fn steps_left(cfg: ConfigModel, p: ProgressModel) -> int {
    let waiting = 2 * cfg.pacing.max_attempts;
    let external = cfg.locations.len() + waiting + 2;
    match p.phase {
        Phase::Idle => 0,
        Phase::ProbingExisting(_) => external + 4,
        Phase::LocatingEmbedded => external + 3,
        Phase::SpawningEmbedded => external + 2,
        Phase::GracePeriod => external + 1,
        Phase::LocatingExternal(i) => cfg.locations.len() - i + waiting + 1,
        Phase::SpawningExternal(_) => waiting + 1,
        Phase::Waiting(w) => 2 * (cfg.pacing.max_attempts - w.failed) + (if w.phase
            == WaitPhase::Sleeping {
            1int
        } else {
            0int
        }),
        Phase::Ready => 0,
        Phase::Failed => 0,
    }
}

/// Once started, an attempt runs to its end: every event that the
/// supervisor takes in while an attempt is in flight brings the end
/// nearer, and no attempt takes in more than two events per location and
/// per probe, and six more.
pub proof fn attempt_runs_to_its_end(cfg: ConfigModel, p: ProgressModel, event: EventModel)
    requires
        progress_wf(cfg, p),
        in_flight(p.phase),
        cfg.locations.len() <= usize::MAX,
    ensures
        ({
            let step = react(cfg, p, event);
            &&& 0 <= steps_left(cfg, step.progress)
            &&& steps_left(cfg, p) <= cfg.locations.len() + 2 * cfg.pacing.max_attempts + 6
            &&& step.action == ActionModel::Ignore || step.action == ActionModel::Reject
                ==> step.progress == p
            &&& step.action != ActionModel::Ignore && step.action != ActionModel::Reject
                ==> steps_left(cfg, step.progress) < steps_left(cfg, p)
            &&& steps_left(cfg, step.progress) == 0 <==> !in_flight(step.progress.phase)
        }),
{
}

/// The events by which the host answers a row of existence checks.
pub open spec fn existence_events(flags: Seq<bool>) -> Seq<EventModel> {
    Seq::new(flags.len(), |i: int| EventModel::ExistenceChecked(flags[i]))
}

proof fn scan_finds(cfg: ConfigModel, p: ProgressModel, i: usize, flags: Seq<bool>, k: int)
    requires
        p.phase == Phase::LocatingExternal(i),
        i <= k < cfg.locations.len(),
        cfg.locations.len() <= usize::MAX,
        flags.len() == k - i + 1,
        flags[k - i],
        forall|j: int| 0 <= j < k - i ==> !flags[j],
    ensures
        ({
            let events = existence_events(flags);
            let actions = run_actions(cfg, p, events);
            &&& run(cfg, p, events) == (ProgressModel {
                phase: Phase::SpawningExternal(k as usize),
                ..p
            })
            &&& actions.len() == flags.len()
            &&& actions[k - i] == ActionModel::Spawn(
                plan_at(cfg, cfg.locations[k], StdioPolicy::Discard),
            )
            &&& forall|j: int|
                0 <= j < k - i ==> actions[j] == (ActionModel::CheckExists {
                    path: cfg.locations[i + j + 1],
                })
        }),
    decreases k - i,
{
    let events = existence_events(flags);
    let step = react(cfg, p, events[0]);
    let rest = events.drop_first();
    assert(events[0] == EventModel::ExistenceChecked(flags[0]));
    assert(rest =~= existence_events(flags.drop_first()));
    if k == i {
        assert(rest.len() == 0);
        assert(run(cfg, step.progress, rest) == step.progress);
        assert(run_actions(cfg, step.progress, rest) =~= Seq::<ActionModel>::empty());
    } else {
        let tail_flags = flags.drop_first();
        assert(step.progress == (ProgressModel {
            phase: Phase::LocatingExternal((i + 1) as usize),
            ..p
        }));
        assert forall|j: int| 0 <= j < k - (i + 1) implies !tail_flags[j] by {
            assert(tail_flags[j] == flags[j + 1]);
        }
        assert(tail_flags[k - (i + 1)] == flags[k - i]);
        scan_finds(cfg, step.progress, (i + 1) as usize, tail_flags, k);
        let tail = run_actions(cfg, step.progress, rest);
        let actions = run_actions(cfg, p, events);
        assert(actions[k - i] == tail[k - i - 1]);
        assert forall|j: int| 0 <= j < k - i implies actions[j] == (ActionModel::CheckExists {
            path: cfg.locations[i + j + 1],
        }) by {
            if j > 0 {
                assert(actions[j] == tail[j - 1]);
            }
        }
    }
}

proof fn scan_finds_nothing(cfg: ConfigModel, p: ProgressModel, i: usize, flags: Seq<bool>)
    requires
        p.phase == Phase::LocatingExternal(i),
        i < cfg.locations.len(),
        cfg.locations.len() <= usize::MAX,
        flags.len() == cfg.locations.len() - i,
        forall|j: int| 0 <= j < flags.len() ==> !flags[j],
    ensures
        ({
            let events = existence_events(flags);
            let actions = run_actions(cfg, p, events);
            &&& run(cfg, p, events) == fail(p, ErrorModel::CandidateNotFound).progress
            &&& actions.len() == flags.len()
            &&& actions.last() == ActionModel::ReportFailed(ErrorModel::CandidateNotFound)
            &&& forall|j: int| 0 <= j < actions.len() ==> !(actions[j] is Spawn)
        }),
    decreases cfg.locations.len() - i,
{
    let events = existence_events(flags);
    let step = react(cfg, p, events[0]);
    let rest = events.drop_first();
    let actions = run_actions(cfg, p, events);
    assert(events[0] == EventModel::ExistenceChecked(flags[0]));
    assert(!flags[0]);
    assert(rest =~= existence_events(flags.drop_first()));
    if i + 1 < cfg.locations.len() {
        let tail_flags = flags.drop_first();
        assert forall|j: int| 0 <= j < tail_flags.len() implies !tail_flags[j] by {
            assert(tail_flags[j] == flags[j + 1]);
        }
        scan_finds_nothing(cfg, step.progress, (i + 1) as usize, tail_flags);
        let tail = run_actions(cfg, step.progress, rest);
        assert(actions.last() == tail.last());
        assert forall|j: int| 0 <= j < actions.len() implies !(actions[j] is Spawn) by {
            if j > 0 {
                assert(actions[j] == tail[j - 1]);
            }
        }
    } else {
        assert(rest.len() == 0);
        assert(run(cfg, step.progress, rest) == step.progress);
        assert(run_actions(cfg, step.progress, rest) =~= Seq::<ActionModel>::empty());
    }
}

/// Discovery by the supervisor is the resolver's: where location `k` is
/// the first that exists, the supervisor has checked the locations up to
/// it and no further, asks for the launch of the resolver's candidate, and
/// has asked for none before.
pub proof fn discovery_launches_the_resolved_candidate(
    cfg: ConfigModel,
    p: ProgressModel,
    flags: Seq<bool>,
    k: int,
)
    requires
        p.phase == Phase::LocatingExternal(0),
        0 <= k < cfg.locations.len(),
        cfg.locations.len() <= usize::MAX,
        flags.len() == k + 1,
        flags[k],
        forall|j: int| 0 <= j < k ==> !flags[j],
    ensures
        ({
            let actions = run_actions(cfg, p, existence_events(flags));
            &&& resolution(cfg.locations, flags, cfg.script_suffix) == Some(
                candidate_at(cfg.locations[k], cfg.script_suffix),
            )
            &&& run(cfg, p, existence_events(flags)) == (ProgressModel {
                phase: Phase::SpawningExternal(k as usize),
                ..p
            })
            &&& actions.len() == k + 1
            &&& actions[k] == ActionModel::Spawn(
                launch_plan(
                    candidate_at(cfg.locations[k], cfg.script_suffix),
                    cfg.interpreter,
                    cfg.working_dir,
                    StdioPolicy::Discard,
                ),
            )
            &&& forall|j: int|
                0 <= j < k ==> actions[j] == (ActionModel::CheckExists {
                    path: cfg.locations[j + 1],
                })
        }),
{
    first_existing_is_selected(cfg.locations, flags, cfg.script_suffix, k);
    scan_finds(cfg, p, 0, flags, k);
}

/// Where none of the locations exists, the resolver finds nothing, the
/// supervisor fails for want of a candidate once it has checked them all,
/// and no launch is asked for.
pub proof fn discovery_without_candidate_fails(
    cfg: ConfigModel,
    p: ProgressModel,
    flags: Seq<bool>,
)
    requires
        p.phase == Phase::LocatingExternal(0),
        0 < cfg.locations.len() <= usize::MAX,
        flags.len() == cfg.locations.len(),
        forall|j: int| 0 <= j < flags.len() ==> !flags[j],
    ensures
        ({
            let actions = run_actions(cfg, p, existence_events(flags));
            &&& resolution(cfg.locations, flags, cfg.script_suffix) is None
            &&& run(cfg, p, existence_events(flags)) == fail(
                p,
                ErrorModel::CandidateNotFound,
            ).progress
            &&& actions.len() == flags.len()
            &&& actions.last() == ActionModel::ReportFailed(ErrorModel::CandidateNotFound)
            &&& forall|j: int| 0 <= j < actions.len() ==> !(actions[j] is Spawn)
        }),
{
    nothing_exists_nothing_found(cfg.locations, flags, cfg.script_suffix);
    scan_finds_nothing(cfg, p, 0, flags);
}

} // verus!
