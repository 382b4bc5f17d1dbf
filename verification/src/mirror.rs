//! The synchronizer of one mirror: a state machine that takes what happened
//! and answers with what to do next. It waits, sets the mirror up, fetches,
//! retries within a fixed budget, and falls back once where the TLS layer
//! failed.

use vstd::prelude::*;
use crate::transport::TransportErrorKind;

verus! {

/// How often a transfer is tried and how long the machine waits.
#[derive(Debug, PartialEq, Eq, Clone, Copy, Structural)]
pub struct RetryPolicy {
    /// The number of transfers that may be tried. One is tried even where
    /// this is zero.
    pub max_attempts: usize,
    /// The wait between two attempts.
    pub retry_delay_millis: u64,
    /// The wait before the first attempt.
    pub stagger_millis: u64,
}

impl RetryPolicy {
    /// The number of transfers that may be tried.
    pub open spec fn budget(&self) -> nat {
        if self.max_attempts == 0 {
            1
        } else {
            self.max_attempts as nat
        }
    }

    /// Six attempts, five seconds apart, after a stagger of 300 ms.
    pub fn standard() -> (r: RetryPolicy)
        ensures
            r == (RetryPolicy { max_attempts: 6, retry_delay_millis: 5000, stagger_millis: 300 }),
    {
        RetryPolicy { max_attempts: 6, retry_delay_millis: 5000, stagger_millis: 300 }
    }
}

/// Why a mirror could not be synchronized.
#[derive(Debug, PartialEq, Eq, Clone, Copy, Structural)]
pub enum FailureReason {
    /// The last of `attempts` transfers failed with `kind`, and no fallback
    /// made up for it.
    Transport { kind: TransportErrorKind, attempts: usize },
    /// The mirror could not be set up on disk.
    Filesystem,
}

/// How the synchronization of one target ended.
#[derive(Debug, PartialEq, Eq, Clone, Copy, Structural)]
pub enum SyncOutcome {
    Unchanged,
    Updated,
    Failed(FailureReason),
    FallbackSucceeded,
}

/// Where the machine stands.
#[derive(Debug, PartialEq, Eq, Clone, Copy, Structural)]
pub enum SyncState {
    Start,
    /// Waiting before the first attempt.
    Staggering,
    /// The mirror is being set up.
    Preparing,
    /// Transfer number `attempt`, counted from one, is under way.
    Attempting { attempt: usize },
    /// Waiting after `failed` failed transfers.
    Retrying { failed: usize },
    /// The fallback is running after `attempts` failed transfers.
    FallbackAttempted { attempts: usize },
    Finished(SyncOutcome),
}

/// What happened since the last action.
#[derive(Debug, PartialEq, Eq, Clone, Copy, Structural)]
pub enum SyncEvent {
    Begin,
    Waited,
    Prepared,
    PrepareFailed,
    /// The transfer succeeded; `transferred` says whether the transport
    /// signalled any activity during this run.
    Fetched { transferred: bool },
    FetchFailed(TransportErrorKind),
    FallbackExited { success: bool },
}

/// What to do next.
#[derive(Debug, PartialEq, Eq, Clone, Copy, Structural)]
pub enum SyncAction {
    Wait { millis: u64 },
    Prepare,
    Fetch,
    RunFallback,
    Finish(SyncOutcome),
}

/// The end of a run with `outcome`.
pub open spec fn finish(outcome: SyncOutcome) -> Option<(SyncState, SyncAction)> {
    Some((SyncState::Finished(outcome), SyncAction::Finish(outcome)))
}

/// The transition function: the next state and the action for an event that
/// the state expects, `None` for any other event.
pub open spec fn spec_step(
    policy: RetryPolicy,
    dry_run: bool,
    state: SyncState,
    event: SyncEvent,
) -> Option<(SyncState, SyncAction)> {
    match (state, event) {
        (SyncState::Start, SyncEvent::Begin) => if dry_run {
            finish(SyncOutcome::Unchanged)
        } else {
            Some((SyncState::Staggering, SyncAction::Wait { millis: policy.stagger_millis }))
        },
        (SyncState::Staggering, SyncEvent::Waited) => Some(
            (SyncState::Preparing, SyncAction::Prepare),
        ),
        (SyncState::Preparing, SyncEvent::Prepared) => Some(
            (SyncState::Attempting { attempt: 1 }, SyncAction::Fetch),
        ),
        (SyncState::Preparing, SyncEvent::PrepareFailed) => finish(
            SyncOutcome::Failed(FailureReason::Filesystem),
        ),
        (SyncState::Attempting { attempt }, SyncEvent::Fetched { transferred }) => finish(
            if transferred {
                SyncOutcome::Updated
            } else {
                SyncOutcome::Unchanged
            },
        ),
        (SyncState::Attempting { attempt }, SyncEvent::FetchFailed(kind)) => if attempt
            >= policy.max_attempts {
            if kind == TransportErrorKind::Ssl {
                Some((SyncState::FallbackAttempted { attempts: attempt }, SyncAction::RunFallback))
            } else {
                finish(SyncOutcome::Failed(FailureReason::Transport { kind, attempts: attempt }))
            }
        } else {
            Some(
                (
                    SyncState::Retrying { failed: attempt },
                    SyncAction::Wait { millis: policy.retry_delay_millis },
                ),
            )
        },
        (SyncState::Retrying { failed }, SyncEvent::Waited) => Some(
            (SyncState::Attempting { attempt: (failed + 1) as usize }, SyncAction::Fetch),
        ),
        (SyncState::FallbackAttempted { attempts }, SyncEvent::FallbackExited { success }) => finish(
            if success {
                SyncOutcome::FallbackSucceeded
            } else {
                SyncOutcome::Failed(
                    FailureReason::Transport { kind: TransportErrorKind::Ssl, attempts },
                )
            },
        ),
        _ => None,
    }
}

/// The states that a run can reach: the count of an attempt lies within the
/// budget, and a wait between attempts leaves one to try.
pub open spec fn state_ok(policy: RetryPolicy, state: SyncState) -> bool {
    match state {
        SyncState::Attempting { attempt } => 1 <= attempt <= policy.budget(),
        SyncState::Retrying { failed } => 1 <= failed < policy.budget(),
        _ => true,
    }
}

/// A bound on the steps that a run can still take from `state`.
pub open spec fn rank(policy: RetryPolicy, state: SyncState) -> nat {
    match state {
        SyncState::Start => 2 * policy.budget() + 3,
        SyncState::Staggering => 2 * policy.budget() + 2,
        SyncState::Preparing => 2 * policy.budget() + 1,
        SyncState::Attempting { attempt } => (2 + 2 * (policy.budget() - attempt)) as nat,
        SyncState::Retrying { failed } => (1 + 2 * (policy.budget() - failed)) as nat,
        SyncState::FallbackAttempted { attempts } => 1,
        SyncState::Finished(outcome) => 0,
    }
}

/// A step leads from a reachable state to a reachable state.
pub proof fn lemma_step_keeps_reachable(
    policy: RetryPolicy,
    dry_run: bool,
    state: SyncState,
    event: SyncEvent,
)
    requires
        state_ok(policy, state),
    ensures
        spec_step(policy, dry_run, state, event) matches Some((next, action)) ==> state_ok(
            policy,
            next,
        ),
{
}

/// Every step brings a run nearer to its end, so a run ends, and it ends
/// within the budget: it fetches at most `budget` times whatever the
/// transport does.
pub proof fn lemma_step_makes_progress(
    policy: RetryPolicy,
    dry_run: bool,
    state: SyncState,
    event: SyncEvent,
)
    requires
        state_ok(policy, state),
    ensures
        spec_step(policy, dry_run, state, event) matches Some((next, action)) ==> rank(
            policy,
            next,
        ) < rank(policy, state),
        spec_step(policy, dry_run, state, event) matches Some((next, action)) ==> (action
            == SyncAction::Fetch ==> (next matches SyncState::Attempting { attempt } && attempt
            <= policy.budget())),
{
}

/// The fallback runs only after the last attempt of the budget failed in the
/// TLS layer.
pub proof fn lemma_fallback_only_after_ssl_exhaustion(
    policy: RetryPolicy,
    dry_run: bool,
    state: SyncState,
    event: SyncEvent,
)
    ensures
        spec_step(policy, dry_run, state, event) matches Some((next, action)) ==> (action
            == SyncAction::RunFallback ==> event == SyncEvent::FetchFailed(TransportErrorKind::Ssl)
            && (state matches SyncState::Attempting { attempt } && attempt
            >= policy.max_attempts)),
{
}

/// A dry run ends at once and unchanged: its only action is to finish, and
/// a finished run answers no event, so nothing is ever waited for, set up,
/// fetched or run.
pub proof fn lemma_dry_run_acts_on_nothing(policy: RetryPolicy, event: SyncEvent)
    ensures
        spec_step(policy, true, SyncState::Start, SyncEvent::Begin) == finish(
            SyncOutcome::Unchanged,
        ),
        spec_step(policy, true, SyncState::Finished(SyncOutcome::Unchanged), event) is None,
{
}

/// A transfer that succeeds without any activity leaves the outcome
/// unchanged, at whichever attempt it comes.
pub proof fn lemma_quiet_fetch_is_unchanged(policy: RetryPolicy, attempt: usize)
    ensures
        spec_step(
            policy,
            false,
            SyncState::Attempting { attempt },
            SyncEvent::Fetched { transferred: false },
        ) == finish(SyncOutcome::Unchanged),
{
}

/// The model of a `MirrorSync`.
pub struct MirrorSyncView {
    pub policy: RetryPolicy,
    pub dry_run: bool,
    pub state: SyncState,
}

/// The synchronizer of one target.
#[derive(Debug)]
pub struct MirrorSync {
    policy: RetryPolicy,
    dry_run: bool,
    state: SyncState,
}

impl View for MirrorSync {
    type V = MirrorSyncView;

    closed spec fn view(&self) -> MirrorSyncView {
        MirrorSyncView { policy: self.policy, dry_run: self.dry_run, state: self.state }
    }
}

impl MirrorSync {
    #[verifier::type_invariant]
    spec fn reachable(self) -> bool {
        state_ok(self.policy, self.state)
    }

    /// A synchronizer at its start.
    pub fn new(policy: RetryPolicy, dry_run: bool) -> (r: MirrorSync)
        ensures
            r@ == (MirrorSyncView { policy, dry_run, state: SyncState::Start }),
    {
        MirrorSync { policy, dry_run, state: SyncState::Start }
    }

    /// Where the machine stands. The state is always a reachable one.
    pub fn state(&self) -> (r: SyncState)
        ensures
            r == self@.state,
            state_ok(self@.policy, r),
    {
        proof {
            use_type_invariant(self);
        }
        self.state
    }

    /// Whether the run has ended.
    pub fn is_finished(&self) -> (r: bool)
        ensures
            r == (self@.state is Finished),
    {
        match self.state {
            SyncState::Finished(_) => true,
            _ => false,
        }
    }

    /// Takes an event and answers with the action that is due. An event that
    /// the state does not expect is answered with `None` and changes
    /// nothing.
    pub fn step(&mut self, event: SyncEvent) -> (r: Option<SyncAction>)
        ensures
            final(self)@.policy == old(self)@.policy,
            final(self)@.dry_run == old(self)@.dry_run,
            state_ok(final(self)@.policy, final(self)@.state),
            match spec_step(old(self)@.policy, old(self)@.dry_run, old(self)@.state, event) {
                Some((next, action)) => final(self)@.state == next && r == Some(action),
                None => final(self)@.state == old(self)@.state && r is None,
            },
    {
        proof {
            use_type_invariant(&*self);
        }
        let (next, action) = match (self.state, event) {
            (SyncState::Start, SyncEvent::Begin) => {
                if self.dry_run {
                    (
                        SyncState::Finished(SyncOutcome::Unchanged),
                        SyncAction::Finish(SyncOutcome::Unchanged),
                    )
                } else {
                    (SyncState::Staggering, SyncAction::Wait { millis: self.policy.stagger_millis })
                }
            },
            (SyncState::Staggering, SyncEvent::Waited) => (
                SyncState::Preparing,
                SyncAction::Prepare,
            ),
            (SyncState::Preparing, SyncEvent::Prepared) => (
                SyncState::Attempting { attempt: 1 },
                SyncAction::Fetch,
            ),
            (SyncState::Preparing, SyncEvent::PrepareFailed) => {
                let outcome = SyncOutcome::Failed(FailureReason::Filesystem);
                (SyncState::Finished(outcome), SyncAction::Finish(outcome))
            },
            (SyncState::Attempting { attempt }, SyncEvent::Fetched { transferred }) => {
                let outcome = if transferred {
                    SyncOutcome::Updated
                } else {
                    SyncOutcome::Unchanged
                };
                (SyncState::Finished(outcome), SyncAction::Finish(outcome))
            },
            (SyncState::Attempting { attempt }, SyncEvent::FetchFailed(kind)) => {
                if attempt >= self.policy.max_attempts {
                    match kind {
                        TransportErrorKind::Ssl => (
                            SyncState::FallbackAttempted { attempts: attempt },
                            SyncAction::RunFallback,
                        ),
                        _ => {
                            let outcome = SyncOutcome::Failed(
                                FailureReason::Transport { kind, attempts: attempt },
                            );
                            (SyncState::Finished(outcome), SyncAction::Finish(outcome))
                        },
                    }
                } else {
                    (
                        SyncState::Retrying { failed: attempt },
                        SyncAction::Wait { millis: self.policy.retry_delay_millis },
                    )
                }
            },
            (SyncState::Retrying { failed }, SyncEvent::Waited) => (
                SyncState::Attempting { attempt: failed + 1 },
                SyncAction::Fetch,
            ),
            (SyncState::FallbackAttempted { attempts }, SyncEvent::FallbackExited { success }) => {
                let outcome = if success {
                    SyncOutcome::FallbackSucceeded
                } else {
                    SyncOutcome::Failed(
                        FailureReason::Transport { kind: TransportErrorKind::Ssl, attempts },
                    )
                };
                (SyncState::Finished(outcome), SyncAction::Finish(outcome))
            },
            _ => {
                return None;
            },
        };
        self.state = next;
        Some(action)
    }
}

/// The action that is under way in `state`.
pub open spec fn due(policy: RetryPolicy, state: SyncState) -> Option<SyncAction> {
    match state {
        SyncState::Start => None,
        SyncState::Staggering => Some(SyncAction::Wait { millis: policy.stagger_millis }),
        SyncState::Preparing => Some(SyncAction::Prepare),
        SyncState::Attempting { attempt } => Some(SyncAction::Fetch),
        SyncState::Retrying { failed } => Some(SyncAction::Wait { millis: policy.retry_delay_millis }),
        SyncState::FallbackAttempted { attempts } => Some(SyncAction::RunFallback),
        SyncState::Finished(outcome) => Some(SyncAction::Finish(outcome)),
    }
}

/// The action that a step answers with is the one under way in the state
/// that the step leads to.
pub proof fn lemma_step_answers_what_is_due(
    policy: RetryPolicy,
    dry_run: bool,
    state: SyncState,
    event: SyncEvent,
)
    ensures
        spec_step(policy, dry_run, state, event) matches Some((next, action)) ==> due(policy, next)
            == Some(action),
{
}

/// What one transfer of a recorded run does.
#[derive(Debug, PartialEq, Eq, Clone, Copy, Structural)]
pub enum FetchResult {
    Fetched { transferred: bool },
    Failed(TransportErrorKind),
}

/// A recorded transport: what the setup, each transfer in turn, and the
/// fallback do when they are asked for.
#[derive(Debug, PartialEq)]
pub struct TargetScript {
    pub prepare_ok: bool,
    pub fetches: Vec<FetchResult>,
    pub fallback_ok: bool,
}

/// The model of a `TargetScript`.
pub struct ScriptView {
    pub prepare_ok: bool,
    pub fetches: Seq<FetchResult>,
    pub fallback_ok: bool,
}

impl View for TargetScript {
    type V = ScriptView;

    open spec fn view(&self) -> ScriptView {
        ScriptView {
            prepare_ok: self.prepare_ok,
            fetches: self.fetches@,
            fallback_ok: self.fallback_ok,
        }
    }
}

/// What a run did: how it ended, and how often it waited, set the mirror
/// up, fetched and ran the fallback.
#[derive(Debug, PartialEq, Eq, Clone, Copy, Structural)]
pub struct SyncTrace {
    pub outcome: SyncOutcome,
    pub waits: usize,
    pub prepared: bool,
    pub fetches: usize,
    pub fallback_run: bool,
}

/// The trace of a run that ends with its transfer number `attempt`: it
/// waited before each transfer.
pub open spec fn trace_at(outcome: SyncOutcome, attempt: usize, fallback_run: bool) -> SyncTrace {
    SyncTrace { outcome, waits: attempt, prepared: true, fetches: attempt, fallback_run }
}

/// How the fallback ends a run after `attempts` failed transfers.
pub open spec fn fallback_outcome(fallback_ok: bool, attempts: usize) -> SyncOutcome {
    if fallback_ok {
        SyncOutcome::FallbackSucceeded
    } else {
        SyncOutcome::Failed(FailureReason::Transport { kind: TransportErrorKind::Ssl, attempts })
    }
}

/// The trace of a run whose transfer number `attempt` is answered by the
/// first of `fetches`: the first success ends it; so does the failure that
/// uses up the budget, after the fallback where that failure is of the TLS
/// layer. `None` where the record ends before the run does.
pub open spec fn attempts_trace(
    policy: RetryPolicy,
    fetches: Seq<FetchResult>,
    fallback_ok: bool,
    attempt: usize,
) -> Option<SyncTrace>
    decreases fetches.len(),
{
    if fetches.len() == 0 {
        None
    } else {
        match fetches[0] {
            FetchResult::Fetched { transferred } => Some(
                trace_at(
                    if transferred {
                        SyncOutcome::Updated
                    } else {
                        SyncOutcome::Unchanged
                    },
                    attempt,
                    false,
                ),
            ),
            FetchResult::Failed(kind) => if attempt >= policy.max_attempts {
                if kind == TransportErrorKind::Ssl {
                    Some(trace_at(fallback_outcome(fallback_ok, attempt), attempt, true))
                } else {
                    Some(
                        trace_at(
                            SyncOutcome::Failed(
                                FailureReason::Transport { kind, attempts: attempt },
                            ),
                            attempt,
                            false,
                        ),
                    )
                }
            } else {
                attempts_trace(policy, fetches.drop_first(), fallback_ok, (attempt + 1) as usize)
            },
        }
    }
}

/// The trace of a whole run against a recorded transport. A dry run does
/// nothing and ends unchanged; a run whose setup fails ends there.
pub open spec fn scripted_trace(policy: RetryPolicy, dry_run: bool, script: ScriptView) -> Option<
    SyncTrace,
> {
    if dry_run {
        Some(
            SyncTrace {
                outcome: SyncOutcome::Unchanged,
                waits: 0,
                prepared: false,
                fetches: 0,
                fallback_run: false,
            },
        )
    } else if !script.prepare_ok {
        Some(
            SyncTrace {
                outcome: SyncOutcome::Failed(FailureReason::Filesystem),
                waits: 1,
                prepared: true,
                fetches: 0,
                fallback_run: false,
            },
        )
    } else {
        attempts_trace(policy, script.fetches, script.fallback_ok, 1)
    }
}

proof fn lemma_attempts_bounds(
    policy: RetryPolicy,
    fetches: Seq<FetchResult>,
    fallback_ok: bool,
    attempt: usize,
)
    requires
        1 <= attempt <= policy.budget(),
    ensures
        attempts_trace(policy, fetches, fallback_ok, attempt) matches Some(trace) ==> {
            &&& attempt <= trace.fetches <= policy.budget()
            &&& trace.waits == trace.fetches
            &&& (trace.outcome is Failed || trace.fallback_run) ==> trace.fetches
                == policy.budget()
        },
    decreases fetches.len(),
{
    if fetches.len() > 0 {
        if fetches[0] matches FetchResult::Failed(kind) && attempt < policy.max_attempts {
            lemma_attempts_bounds(policy, fetches.drop_first(), fallback_ok, (attempt + 1) as usize);
        }
    }
}

/// A run stays within its budget whatever the transport does: it never
/// fetches more often than the budget allows, and it waits once before each
/// transfer and no more.
pub proof fn lemma_run_stays_within_budget(policy: RetryPolicy, dry_run: bool, script: ScriptView)
    ensures
        scripted_trace(policy, dry_run, script) matches Some(trace) ==> trace.fetches
            <= policy.budget() && trace.waits <= policy.budget(),
{
    lemma_attempts_bounds(policy, script.fetches, script.fallback_ok, 1);
}

/// A run whose setup went well ends as failed only after the last transfer
/// that the budget allows, and only then is the fallback run.
pub proof fn lemma_failure_takes_the_whole_budget(policy: RetryPolicy, script: ScriptView)
    requires
        script.prepare_ok,
    ensures
        scripted_trace(policy, false, script) matches Some(trace) ==> (trace.outcome
            is Failed ==> trace.fetches == policy.budget()),
        scripted_trace(policy, false, script) matches Some(trace) ==> (trace.fallback_run
            ==> trace.fetches == policy.budget()),
{
    lemma_attempts_bounds(policy, script.fetches, script.fallback_ok, 1);
}

spec fn outlook(policy: RetryPolicy, state: SyncState, trace: SyncTrace, script: ScriptView) -> Option<
    SyncTrace,
> {
    match state {
        SyncState::Start => None,
        SyncState::Staggering => scripted_trace(policy, false, script),
        SyncState::Preparing => scripted_trace(policy, false, script),
        SyncState::Attempting { attempt } => attempts_trace(
            policy,
            script.fetches.skip(attempt - 1),
            script.fallback_ok,
            attempt,
        ),
        SyncState::Retrying { failed } => attempts_trace(
            policy,
            script.fetches.skip(failed as int),
            script.fallback_ok,
            (failed + 1) as usize,
        ),
        SyncState::FallbackAttempted { attempts } => Some(
            trace_at(fallback_outcome(script.fallback_ok, attempts), attempts, true),
        ),
        SyncState::Finished(outcome) => Some(SyncTrace { outcome, ..trace }),
    }
}

spec fn trace_fits(state: SyncState, trace: SyncTrace, script: ScriptView) -> bool {
    match state {
        SyncState::Start => false,
        SyncState::Staggering => trace.waits == 0 && !trace.prepared && trace.fetches == 0
            && !trace.fallback_run,
        SyncState::Preparing => trace.waits == 1 && !trace.prepared && trace.fetches == 0
            && !trace.fallback_run,
        SyncState::Attempting { attempt } => trace.waits == attempt && trace.prepared
            && trace.fetches == attempt - 1 && !trace.fallback_run && attempt - 1
            <= script.fetches.len(),
        SyncState::Retrying { failed } => trace.waits == failed && trace.prepared && trace.fetches
            == failed && !trace.fallback_run && failed <= script.fetches.len(),
        SyncState::FallbackAttempted { attempts } => trace.waits == attempts && trace.prepared
            && trace.fetches == attempts && !trace.fallback_run,
        SyncState::Finished(outcome) => true,
    }
}

/// Runs the synchronizer of one target against a recorded transport and
/// returns what the run did, or `None` where the record ends before the run
/// does.
pub fn run_scripted(policy: RetryPolicy, dry_run: bool, script: &TargetScript) -> (r: Option<
    SyncTrace,
>)
    ensures
        r == scripted_trace(policy, dry_run, script@),
{
    let mut machine = MirrorSync::new(policy, dry_run);
    let mut trace = SyncTrace {
        outcome: SyncOutcome::Unchanged,
        waits: 0,
        prepared: false,
        fetches: 0,
        fallback_run: false,
    };
    let mut pending = machine.step(SyncEvent::Begin);
    loop
        invariant
            machine@.policy == policy,
            machine@.dry_run == dry_run,
            state_ok(policy, machine@.state),
            pending == due(policy, machine@.state),
            trace_fits(machine@.state, trace, script@),
            scripted_trace(policy, dry_run, script@) == outlook(
                policy,
                machine@.state,
                trace,
                script@,
            ),
        decreases rank(policy, machine@.state),
    {
        let ghost before = machine@.state;
        let action = match pending {
            Some(action) => action,
            None => {
                return None;
            },
        };
        let event = match action {
            SyncAction::Wait { millis } => {
                trace.waits = trace.waits + 1;
                SyncEvent::Waited
            },
            SyncAction::Prepare => {
                trace.prepared = true;
                if script.prepare_ok {
                    SyncEvent::Prepared
                } else {
                    SyncEvent::PrepareFailed
                }
            },
            SyncAction::Fetch => {
                if trace.fetches >= script.fetches.len() {
                    return None;
                }
                let result = script.fetches[trace.fetches];
                proof {
                    let rest = script@.fetches.skip(trace.fetches as int);
                    assert(rest[0] == result);
                    assert(rest.drop_first() =~= script@.fetches.skip(trace.fetches as int + 1));
                }
                trace.fetches = trace.fetches + 1;
                match result {
                    FetchResult::Fetched { transferred } => SyncEvent::Fetched { transferred },
                    FetchResult::Failed(kind) => SyncEvent::FetchFailed(kind),
                }
            },
            SyncAction::RunFallback => {
                trace.fallback_run = true;
                SyncEvent::FallbackExited { success: script.fallback_ok }
            },
            SyncAction::Finish(outcome) => {
                trace.outcome = outcome;
                return Some(trace);
            },
        };
        proof {
            lemma_step_makes_progress(policy, dry_run, before, event);
            lemma_step_answers_what_is_due(policy, dry_run, before, event);
            assert(script@.fetches.skip(0) =~= script@.fetches);
        }
        pending = machine.step(event);
    }
}

} // verus!
