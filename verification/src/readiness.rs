//! Waiting for readiness: probe, pause, probe again, up to a bound.
//!
//! The waiter is a state machine. It names the probe or the pause that is
//! outstanding; the host performs it and reports back with an event.

use crate::health::HealthStatus;
use vstd::prelude::*;

verus! {

/// How often and how patiently readiness is polled. The pause between two
/// attempts is never zero, so that polling never turns into a busy loop.
#[derive(Clone, Copy, Debug, PartialEq, Eq)]
pub struct ReadinessPolicy {
    max_attempts: u32,
    interval_ms: u64,
}

/// Mathematical content of a `ReadinessPolicy`.
pub struct Pacing {
    pub max_attempts: u32,
    pub interval_ms: u64,
}

impl Pacing {
    /// A pacing is usable where its pause is positive.
    pub open spec fn valid(self) -> bool {
        self.interval_ms > 0
    }
}

impl View for ReadinessPolicy {
    type V = Pacing;

    closed spec fn view(&self) -> Pacing {
        Pacing { max_attempts: self.max_attempts, interval_ms: self.interval_ms }
    }
}

/// How waiting ended.
#[derive(Clone, Copy, Debug, PartialEq, Eq, Structural)]
pub enum WaitResult {
    Ready,
    TimedOut,
}

/// Where the waiter stands.
#[derive(Clone, Copy, Debug, PartialEq, Eq, Structural)]
pub enum WaitPhase {
    /// A probe is outstanding.
    Probing,
    /// A pause is outstanding.
    Sleeping,
    /// A probe was healthy; nothing is outstanding.
    Ready,
    /// The bound is exhausted; nothing is outstanding.
    TimedOut,
}

/// State of the waiter: its phase and the number of probes that failed.
#[derive(Clone, Copy, Debug, PartialEq, Eq, Structural)]
pub struct WaitState {
    pub phase: WaitPhase,
    pub failed: u32,
}

/// What the host reports to the waiter.
#[derive(Clone, Copy, Debug, PartialEq, Eq, Structural)]
pub enum WaitEvent {
    /// The outstanding probe gave this verdict.
    Probed(HealthStatus),
    /// The outstanding pause is over.
    Slept,
}

/// What the waiter asks of the host.
#[derive(Clone, Copy, Debug, PartialEq, Eq, Structural)]
pub enum WaitAction {
    /// Probe the health endpoint once, giving up after `timeout_ms`.
    Probe { timeout_ms: u64 },
    /// Pause for `interval_ms`.
    Sleep { interval_ms: u64 },
    /// Waiting is over.
    Finish(WaitResult),
    /// The event did not fit the state; nothing changed.
    Ignore,
}

/// The per-call timeout of the waiter's probes: the ceiling that the
/// caller sets, cut down to stay strictly below the pause.
pub open spec fn probe_timeout(pacing: Pacing, ceiling_ms: u64) -> u64 {
    if ceiling_ms < pacing.interval_ms {
        ceiling_ms
    } else {
        (pacing.interval_ms - 1) as u64
    }
}

/// The states that the waiter can be in under a pacing.
pub open spec fn wait_wf(pacing: Pacing, state: WaitState) -> bool {
    match state.phase {
        WaitPhase::Probing => state.failed < pacing.max_attempts,
        WaitPhase::Sleeping => 0 < state.failed <= pacing.max_attempts,
        WaitPhase::Ready => state.failed < pacing.max_attempts,
        WaitPhase::TimedOut => state.failed == pacing.max_attempts,
    }
}

/// The state in which waiting begins: probing, unless no attempt is
/// allowed at all.
pub open spec fn wait_begin(pacing: Pacing) -> WaitState {
    if pacing.max_attempts == 0 {
        WaitState { phase: WaitPhase::TimedOut, failed: 0 }
    } else {
        WaitState { phase: WaitPhase::Probing, failed: 0 }
    }
}

/// What is outstanding in a state.
pub open spec fn wait_action(pacing: Pacing, ceiling_ms: u64, state: WaitState) -> WaitAction {
    match state.phase {
        WaitPhase::Probing => WaitAction::Probe { timeout_ms: probe_timeout(pacing, ceiling_ms) },
        WaitPhase::Sleeping => WaitAction::Sleep { interval_ms: pacing.interval_ms },
        WaitPhase::Ready => WaitAction::Finish(WaitResult::Ready),
        WaitPhase::TimedOut => WaitAction::Finish(WaitResult::TimedOut),
    }
}

/// Whether an event answers what is outstanding in a state.
pub open spec fn wait_accepts(state: WaitState, event: WaitEvent) -> bool {
    match (state.phase, event) {
        (WaitPhase::Probing, WaitEvent::Probed(_)) => true,
        (WaitPhase::Sleeping, WaitEvent::Slept) => true,
        _ => false,
    }
}

/// The state after an event. A healthy probe ends the wait at once. A
/// failed probe is followed by a pause, the last one too. After a pause
/// comes the next probe, or the end where the bound is exhausted.
pub open spec fn wait_next(pacing: Pacing, state: WaitState, event: WaitEvent) -> WaitState {
    match (state.phase, event) {
        (WaitPhase::Probing, WaitEvent::Probed(HealthStatus::Healthy)) => WaitState {
            phase: WaitPhase::Ready,
            failed: state.failed,
        },
        (WaitPhase::Probing, WaitEvent::Probed(HealthStatus::Unhealthy)) => WaitState {
            phase: WaitPhase::Sleeping,
            failed: if state.failed < u32::MAX {
                (state.failed + 1) as u32
            } else {
                state.failed
            },
        },
        (WaitPhase::Sleeping, WaitEvent::Slept) => WaitState {
            phase: if state.failed < pacing.max_attempts {
                WaitPhase::Probing
            } else {
                WaitPhase::TimedOut
            },
            failed: state.failed,
        },
        _ => state,
    }
}

/// What the waiter answers to an event.
pub open spec fn wait_reply(
    pacing: Pacing,
    ceiling_ms: u64,
    state: WaitState,
    event: WaitEvent,
) -> WaitAction {
    if wait_accepts(state, event) {
        wait_action(pacing, ceiling_ms, wait_next(pacing, state, event))
    } else {
        WaitAction::Ignore
    }
}

/// What a whole wait came to: where it ended, and how many probes and
/// pauses it took.
pub struct WaitTrace {
    pub end: WaitState,
    pub probes: nat,
    pub pauses: nat,
}

/// The wait that unfolds from `state` when the host answers every probe
/// with the next of `verdicts` and every pause with its end. It stops where
/// nothing is outstanding or the verdicts run out.
pub open spec fn wait_run(pacing: Pacing, state: WaitState, verdicts: Seq<HealthStatus>) -> WaitTrace
    decreases
            verdicts.len(),
            (if state.phase == WaitPhase::Sleeping {
                1int
            } else {
                0int
            }),
{
    match state.phase {
        WaitPhase::Probing => if verdicts.len() == 0 {
            WaitTrace { end: state, probes: 0, pauses: 0 }
        } else {
            let rest = wait_run(
                pacing,
                wait_next(pacing, state, WaitEvent::Probed(verdicts[0])),
                verdicts.drop_first(),
            );
            WaitTrace { end: rest.end, probes: rest.probes + 1, pauses: rest.pauses }
        },
        WaitPhase::Sleeping => {
            let rest = wait_run(pacing, wait_next(pacing, state, WaitEvent::Slept), verdicts);
            WaitTrace { end: rest.end, probes: rest.probes, pauses: rest.pauses + 1 }
        },
        _ => WaitTrace { end: state, probes: 0, pauses: 0 },
    }
}

/// Probes that a state still allows.
pub open spec fn probes_left(pacing: Pacing, state: WaitState) -> int {
    match state.phase {
        WaitPhase::Probing => pacing.max_attempts - state.failed,
        WaitPhase::Sleeping => pacing.max_attempts - state.failed,
        _ => 0,
    }
}

/// Pauses that a state still allows.
pub open spec fn pauses_left(pacing: Pacing, state: WaitState) -> int {
    match state.phase {
        WaitPhase::Probing => pacing.max_attempts - state.failed,
        WaitPhase::Sleeping => pacing.max_attempts - state.failed + 1,
        _ => 0,
    }
}

/// Every step keeps the waiter within its states.
pub proof fn wait_next_keeps_wf(pacing: Pacing, state: WaitState, event: WaitEvent)
    requires
        wait_wf(pacing, state),
    ensures
        wait_wf(pacing, wait_next(pacing, state, event)),
{
}

/// Once waiting is over, no event changes anything and none is answered
/// with a probe: there is no polling after success.
pub proof fn finished_wait_is_final(
    pacing: Pacing,
    ceiling_ms: u64,
    state: WaitState,
    event: WaitEvent,
)
    requires
        state.phase == WaitPhase::Ready || state.phase == WaitPhase::TimedOut,
    ensures
        wait_next(pacing, state, event) == state,
        wait_reply(pacing, ceiling_ms, state, event) == WaitAction::Ignore,
{
}

/// Probes get less than a whole pause of time.
pub proof fn probe_timeout_below_pause(pacing: Pacing, ceiling_ms: u64)
    requires
        pacing.valid(),
    ensures
        probe_timeout(pacing, ceiling_ms) < pacing.interval_ms,
        probe_timeout(pacing, ceiling_ms) <= ceiling_ms,
{
}

/// From any state the wait takes no more probes and pauses than the state
/// allows, and with verdicts enough it ends.
pub proof fn wait_run_within(pacing: Pacing, state: WaitState, verdicts: Seq<HealthStatus>)
    requires
        wait_wf(pacing, state),
    ensures
        ({
            let run = wait_run(pacing, state, verdicts);
            &&& wait_wf(pacing, run.end)
            &&& run.probes <= probes_left(pacing, state)
            &&& run.pauses <= pauses_left(pacing, state)
            &&& run.probes <= verdicts.len()
            &&& verdicts.len() >= probes_left(pacing, state) ==> run.end.phase == WaitPhase::Ready
                || run.end.phase == WaitPhase::TimedOut
        }),
    decreases
            verdicts.len(),
            (if state.phase == WaitPhase::Sleeping {
                1int
            } else {
                0int
            }),
{
    match state.phase {
        WaitPhase::Probing => {
            if verdicts.len() > 0 {
                let next = wait_next(pacing, state, WaitEvent::Probed(verdicts[0]));
                wait_run_within(pacing, next, verdicts.drop_first());
            }
        },
        WaitPhase::Sleeping => {
            let next = wait_next(pacing, state, WaitEvent::Slept);
            wait_run_within(pacing, next, verdicts);
        },
        _ => {},
    }
}

/// A wait of at most N attempts, I apart, takes at most N probes and at
/// most N pauses, so that it pauses for N x I at most; each pause follows a
/// probe; and where N verdicts are at hand it ends, ready or timed out.
pub proof fn waiting_is_bounded(pacing: Pacing, verdicts: Seq<HealthStatus>)
    ensures
        ({
            let run = wait_run(pacing, wait_begin(pacing), verdicts);
            &&& run.probes <= pacing.max_attempts
            &&& run.pauses <= pacing.max_attempts
            &&& run.pauses * pacing.interval_ms <= pacing.max_attempts * pacing.interval_ms
            &&& verdicts.len() >= pacing.max_attempts ==> run.end.phase == WaitPhase::Ready
                || run.end.phase == WaitPhase::TimedOut
        }),
{
    wait_run_within(pacing, wait_begin(pacing), verdicts);
    let run = wait_run(pacing, wait_begin(pacing), verdicts);
    assert(run.pauses * pacing.interval_ms <= pacing.max_attempts * pacing.interval_ms)
        by (nonlinear_arith)
        requires
            run.pauses <= pacing.max_attempts,
            pacing.interval_ms >= 0,
    ;
}

proof fn wait_run_ready_from(pacing: Pacing, failed: u32, verdicts: Seq<HealthStatus>, k: int)
    requires
        0 <= k < verdicts.len(),
        failed + k < pacing.max_attempts,
        verdicts[k] == HealthStatus::Healthy,
        forall|j: int| 0 <= j < k ==> verdicts[j] == HealthStatus::Unhealthy,
    ensures
        ({
            let run = wait_run(
                pacing,
                WaitState { phase: WaitPhase::Probing, failed },
                verdicts,
            );
            &&& run.end == (WaitState { phase: WaitPhase::Ready, failed: (failed + k) as u32 })
            &&& run.probes == k + 1
            &&& run.pauses == k
        }),
    decreases k,
{
    let state = WaitState { phase: WaitPhase::Probing, failed };
    let rest = verdicts.drop_first();
    let after_probe = wait_next(pacing, state, WaitEvent::Probed(verdicts[0]));
    if k == 0 {
        assert(after_probe.phase == WaitPhase::Ready);
        assert(wait_run(pacing, after_probe, rest).probes == 0);
    } else {
        assert(verdicts[0] == HealthStatus::Unhealthy);
        let resumed = WaitState { phase: WaitPhase::Probing, failed: (failed + 1) as u32 };
        assert(after_probe == (WaitState {
            phase: WaitPhase::Sleeping,
            failed: (failed + 1) as u32,
        }));
        assert(wait_next(pacing, after_probe, WaitEvent::Slept) == resumed);
        assert forall|j: int| 0 <= j < k - 1 implies rest[j] == HealthStatus::Unhealthy by {
            assert(rest[j] == verdicts[j + 1]);
        }
        assert(rest[k - 1] == verdicts[k]);
        wait_run_ready_from(pacing, (failed + 1) as u32, rest, k - 1);
        let tail = wait_run(pacing, resumed, rest);
        let paused = wait_run(pacing, after_probe, rest);
        assert(paused.end == tail.end && paused.probes == tail.probes && paused.pauses
            == tail.pauses + 1);
    }
}

/// The wait is ready at the first healthy probe: it has taken one probe
/// more than there were failures before, a pause after each failure, and
/// nothing after the success.
pub proof fn waiting_ends_at_first_healthy(pacing: Pacing, verdicts: Seq<HealthStatus>, k: int)
    requires
        0 <= k < verdicts.len(),
        k < pacing.max_attempts,
        verdicts[k] == HealthStatus::Healthy,
        forall|j: int| 0 <= j < k ==> verdicts[j] == HealthStatus::Unhealthy,
    ensures
        ({
            let run = wait_run(pacing, wait_begin(pacing), verdicts);
            &&& run.end == (WaitState { phase: WaitPhase::Ready, failed: k as u32 })
            &&& run.probes == k + 1
            &&& run.pauses == k
        }),
{
    wait_run_ready_from(pacing, 0, verdicts, k);
}

proof fn wait_run_timeout_from(pacing: Pacing, failed: u32, verdicts: Seq<HealthStatus>)
    requires
        failed < pacing.max_attempts,
        verdicts.len() >= pacing.max_attempts - failed,
        forall|j: int|
            0 <= j < pacing.max_attempts - failed ==> verdicts[j] == HealthStatus::Unhealthy,
    ensures
        ({
            let run = wait_run(
                pacing,
                WaitState { phase: WaitPhase::Probing, failed },
                verdicts,
            );
            &&& run.end == (WaitState {
                phase: WaitPhase::TimedOut,
                failed: pacing.max_attempts,
            })
            &&& run.probes == pacing.max_attempts - failed
            &&& run.pauses == pacing.max_attempts - failed
        }),
    decreases pacing.max_attempts - failed,
{
    let state = WaitState { phase: WaitPhase::Probing, failed };
    let rest = verdicts.drop_first();
    assert(verdicts[0] == HealthStatus::Unhealthy);
    let after_probe = wait_next(pacing, state, WaitEvent::Probed(verdicts[0]));
    assert(after_probe == (WaitState { phase: WaitPhase::Sleeping, failed: (failed + 1) as u32 }));
    let after_pause = wait_next(pacing, after_probe, WaitEvent::Slept);
    let paused = wait_run(pacing, after_probe, rest);
    let tail = wait_run(pacing, after_pause, rest);
    assert(paused.end == tail.end && paused.probes == tail.probes && paused.pauses == tail.pauses
        + 1);
    if failed + 1 < pacing.max_attempts {
        assert forall|j: int| 0 <= j < pacing.max_attempts - (failed + 1) implies rest[j]
            == HealthStatus::Unhealthy by {
            assert(rest[j] == verdicts[j + 1]);
        }
        wait_run_timeout_from(pacing, (failed + 1) as u32, rest);
    } else {
        assert(after_pause.phase == WaitPhase::TimedOut);
        assert(tail.probes == 0 && tail.pauses == 0);
    }
}

/// Where none of the first N probes is healthy, the wait times out after
/// exactly N probes and N pauses: it has paused for N x I.
pub proof fn waiting_times_out_after_all_attempts(pacing: Pacing, verdicts: Seq<HealthStatus>)
    requires
        verdicts.len() >= pacing.max_attempts,
        forall|j: int| 0 <= j < pacing.max_attempts ==> verdicts[j] == HealthStatus::Unhealthy,
    ensures
        ({
            let run = wait_run(pacing, wait_begin(pacing), verdicts);
            &&& run.end == (WaitState {
                phase: WaitPhase::TimedOut,
                failed: pacing.max_attempts,
            })
            &&& run.probes == pacing.max_attempts
            &&& run.pauses == pacing.max_attempts
            &&& run.pauses * pacing.interval_ms == pacing.max_attempts * pacing.interval_ms
        }),
{
    if pacing.max_attempts > 0 {
        wait_run_timeout_from(pacing, 0, verdicts);
    }
}

impl ReadinessPolicy {
    #[verifier::type_invariant]
    spec fn positive_pause(self) -> bool {
        self.interval_ms > 0
    }

    /// A policy of at most `max_attempts` probes with a pause of
    /// `interval_ms` after each failed one. There is none with a pause of
    /// zero.
    pub fn new(max_attempts: u32, interval_ms: u64) -> (policy: Option<ReadinessPolicy>)
        ensures
            match policy {
                Some(p) => interval_ms > 0 && p@ == (Pacing { max_attempts, interval_ms }),
                None => interval_ms == 0,
            },
    {
        if interval_ms == 0 {
            None
        } else {
            Some(ReadinessPolicy { max_attempts, interval_ms })
        }
    }

    /// The standard policy: 30 attempts, one second apart.
    pub fn standard() -> (policy: ReadinessPolicy)
        ensures
            policy@ == (Pacing { max_attempts: 30, interval_ms: 1000 }),
    {
        ReadinessPolicy { max_attempts: 30, interval_ms: 1000 }
    }

    /// The bound on the number of probes.
    pub fn max_attempts(&self) -> (n: u32)
        ensures
            n == self@.max_attempts,
    {
        self.max_attempts
    }

    /// The pause after a failed probe, in milliseconds.
    pub fn interval_ms(&self) -> (ms: u64)
        ensures
            ms == self@.interval_ms,
            ms > 0,
            self@.valid(),
    {
        proof {
            use_type_invariant(self);
        }
        self.interval_ms
    }
}

/// The state in which waiting begins under `policy`.
pub fn begin_wait(policy: &ReadinessPolicy) -> (state: WaitState)
    ensures
        state == wait_begin(policy@),
        wait_wf(policy@, state),
{
    if policy.max_attempts() == 0 {
        WaitState { phase: WaitPhase::TimedOut, failed: 0 }
    } else {
        WaitState { phase: WaitPhase::Probing, failed: 0 }
    }
}

/// Names what is outstanding in `state`.
pub fn outstanding(policy: &ReadinessPolicy, ceiling_ms: u64, state: WaitState) -> (action:
    WaitAction)
    ensures
        action == wait_action(policy@, ceiling_ms, state),
        action matches WaitAction::Probe { timeout_ms } ==> timeout_ms < policy@.interval_ms,
        action matches WaitAction::Sleep { interval_ms } ==> interval_ms > 0,
        action != WaitAction::Ignore,
{
    let interval_ms: u64 = policy.interval_ms();
    match state.phase {
        WaitPhase::Probing => {
            let timeout_ms: u64 = if ceiling_ms < interval_ms {
                ceiling_ms
            } else {
                interval_ms - 1
            };
            WaitAction::Probe { timeout_ms }
        },
        WaitPhase::Sleeping => WaitAction::Sleep { interval_ms },
        WaitPhase::Ready => WaitAction::Finish(WaitResult::Ready),
        WaitPhase::TimedOut => WaitAction::Finish(WaitResult::TimedOut),
    }
}

/// One step of waiting: the state after `event` and the answer to it.
pub fn advance_wait(
    policy: &ReadinessPolicy,
    ceiling_ms: u64,
    state: WaitState,
    event: WaitEvent,
) -> (step: (WaitState, WaitAction))
    ensures
        step.0 == wait_next(policy@, state, event),
        step.1 == wait_reply(policy@, ceiling_ms, state, event),
        wait_wf(policy@, state) ==> wait_wf(policy@, step.0),
{
    match (state.phase, event) {
        (WaitPhase::Probing, WaitEvent::Probed(verdict)) => {
            let next = match verdict {
                HealthStatus::Healthy => WaitState { phase: WaitPhase::Ready, failed: state.failed },
                HealthStatus::Unhealthy => WaitState {
                    phase: WaitPhase::Sleeping,
                    failed: if state.failed < u32::MAX {
                        state.failed + 1
                    } else {
                        state.failed
                    },
                },
            };
            (next, outstanding(policy, ceiling_ms, next))
        },
        (WaitPhase::Sleeping, WaitEvent::Slept) => {
            let phase = if state.failed < policy.max_attempts() {
                WaitPhase::Probing
            } else {
                WaitPhase::TimedOut
            };
            let next = WaitState { phase, failed: state.failed };
            (next, outstanding(policy, ceiling_ms, next))
        },
        _ => (state, WaitAction::Ignore),
    }
}

/// The waiter: a policy, the ceiling on its probes' timeout, and where it
/// stands.
#[derive(Clone, Copy, Debug, PartialEq, Eq)]
pub struct ReadinessWaiter {
    policy: ReadinessPolicy,
    ceiling_ms: u64,
    state: WaitState,
}

/// Mathematical content of a `ReadinessWaiter`.
pub struct WaiterModel {
    pub pacing: Pacing,
    pub ceiling_ms: u64,
    pub state: WaitState,
}

impl View for ReadinessWaiter {
    type V = WaiterModel;

    closed spec fn view(&self) -> WaiterModel {
        WaiterModel { pacing: self.policy@, ceiling_ms: self.ceiling_ms, state: self.state }
    }
}

impl ReadinessWaiter {
    #[verifier::type_invariant]
    spec fn well_formed(self) -> bool {
        wait_wf(self.policy@, self.state)
    }

    /// A waiter at the start of its wait.
    pub fn new(policy: ReadinessPolicy, ceiling_ms: u64) -> (waiter: ReadinessWaiter)
        ensures
            waiter@ == (WaiterModel {
                pacing: policy@,
                ceiling_ms,
                state: wait_begin(policy@),
            }),
    {
        let state = begin_wait(&policy);
        ReadinessWaiter { policy, ceiling_ms, state }
    }

    /// Where the waiter stands.
    pub fn state(&self) -> (state: WaitState)
        ensures
            state == self@.state,
            wait_wf(self@.pacing, state),
    {
        proof {
            use_type_invariant(self);
        }
        self.state
    }

    /// What the host is to do now.
    pub fn pending(&self) -> (action: WaitAction)
        ensures
            action == wait_action(self@.pacing, self@.ceiling_ms, self@.state),
    {
        outstanding(&self.policy, self.ceiling_ms, self.state)
    }

    /// How waiting ended, once it has.
    pub fn result(&self) -> (result: Option<WaitResult>)
        ensures
            result == match self@.state.phase {
                WaitPhase::Ready => Some(WaitResult::Ready),
                WaitPhase::TimedOut => Some(WaitResult::TimedOut),
                _ => None,
            },
    {
        match self.state.phase {
            WaitPhase::Ready => Some(WaitResult::Ready),
            WaitPhase::TimedOut => Some(WaitResult::TimedOut),
            _ => None,
        }
    }

    /// Takes an event in and names what the host is to do next.
    pub fn step(&mut self, event: WaitEvent) -> (action: WaitAction)
        ensures
            final(self)@ == (WaiterModel {
                state: wait_next(old(self)@.pacing, old(self)@.state, event),
                ..old(self)@
            }),
            action == wait_reply(old(self)@.pacing, old(self)@.ceiling_ms, old(self)@.state, event),
    {
        proof {
            use_type_invariant(&*self);
        }
        let (next, action) = advance_wait(&self.policy, self.ceiling_ms, self.state, event);
        self.state = next;
        action
    }
}

} // verus!
