//! Recovery planner: turns a failure description into an ordered, retryable
//! remediation plan with an optional fallback plan, and books the outcome of
//! executing it.
//!
//! Executing a remediation action and verifying that the system has
//! recovered are outside work: the caller performs each action, waits its
//! stabilization interval, runs its recovery check, and hands the observed
//! step outcomes in. The planner's bookkeeping over those observations is
//! exact: which actions count as taken, when a fallback takes over, and what
//! lands in the failure and recovery histories.

use vstd::prelude::*;

verus! {

#[derive(Debug)]
pub enum FailureType {
    ProcessCrash,
    NetworkFailure,
    ResourceExhaustion,
    ConfigurationError,
    DependencyFailure,
    Unknown(String),
}

/// A reported fault requiring possible remediation; appended to a bounded
/// failure history, never mutated. Severity runs from 1 to 10.
#[derive(Debug)]
pub struct FailureEvent {
    pub id: String,
    pub timestamp: u64,
    pub failure_type: FailureType,
    pub component: String,
    pub description: String,
    pub severity: u8,
    pub auto_recoverable: bool,
}

#[derive(Debug, Clone, Copy, PartialEq, Eq, Structural)]
pub enum RecoveryAction {
    RestartProcess,
    RedeployComponent,
    FailoverToBackup,
    ScaleUp,
    RollbackConfiguration,
    ClearCache,
    ResetConnections,
    EmergencyShutdown,
}

/// Ordered remediation actions plus an optional escalation plan; the
/// fallback chain is finite by construction, a plan never references an
/// ancestor.
#[derive(Debug)]
pub struct RecoveryPlan {
    pub failure_id: String,
    pub actions: Vec<RecoveryAction>,
    pub priority: u8,
    pub estimated_recovery_time_seconds: u64,
    pub fallback_plan: Option<Box<RecoveryPlan>>,
}

/// One plan execution's outcome; appended to a bounded recovery history used
/// for success-rate statistics.
#[derive(Debug)]
pub struct RecoveryResult {
    pub failure_id: String,
    pub success: bool,
    pub actions_taken: Vec<RecoveryAction>,
    pub recovery_time_seconds: u64,
    pub error: Option<String>,
}

/// What the caller observed for one remediation step: whether the action
/// itself ran, and whether the subsequent recovery check found the system
/// recovered.
#[derive(Debug, Clone, Copy, PartialEq, Eq, Structural)]
pub struct StepOutcome {
    pub action_ok: bool,
    pub verified: bool,
}

/// Observed step outcomes for a plan and, mirroring the plan's shape, for
/// its fallback chain.
#[derive(Debug)]
pub struct RunOutcomes {
    pub steps: Vec<StepOutcome>,
    pub elapsed_seconds: u64,
    pub fallback: Option<Box<RunOutcomes>>,
}

#[derive(Debug, Clone, Copy, PartialEq, Eq)]
pub struct RecoveryStats {
    pub total_recoveries: usize,
    pub successful_recoveries: usize,
    pub failed_recoveries: usize,
    pub success_rate_permille: u32,
    pub average_recovery_time_seconds: u64,
}

/// The static strategy table: ordered candidate actions per failure kind,
/// with a process restart as the default for unmapped kinds.
pub open spec fn spec_recovery_actions_for(t: FailureType) -> Seq<RecoveryAction> {
    match t {
        FailureType::ProcessCrash => seq![
            RecoveryAction::RestartProcess,
            RecoveryAction::RedeployComponent,
            RecoveryAction::FailoverToBackup,
        ],
        FailureType::NetworkFailure => seq![
            RecoveryAction::ResetConnections,
            RecoveryAction::FailoverToBackup,
        ],
        FailureType::ResourceExhaustion => seq![
            RecoveryAction::ClearCache,
            RecoveryAction::ScaleUp,
            RecoveryAction::RestartProcess,
        ],
        FailureType::ConfigurationError => seq![
            RecoveryAction::RollbackConfiguration,
            RecoveryAction::RedeployComponent,
        ],
        FailureType::DependencyFailure => seq![RecoveryAction::RestartProcess],
        FailureType::Unknown(_) => seq![RecoveryAction::RestartProcess],
    }
}

/// The plan built for a failure: the strategy table's actions at the
/// failure's own priority, and, for severity 8 or above, a fallback plan of
/// exactly a failover and an emergency shutdown at priority 10.
pub open spec fn spec_plan_for(f: FailureEvent, p: RecoveryPlan) -> bool {
    &&& p.failure_id@ == f.id@
    &&& p.actions@ == spec_recovery_actions_for(f.failure_type)
    &&& p.priority == f.severity
    &&& p.estimated_recovery_time_seconds == 30
    &&& if f.severity >= 8 {
        p.fallback_plan matches Some(fb) && (*fb).failure_id@ == f.id@ && (*fb).actions@ == seq![
            RecoveryAction::FailoverToBackup,
            RecoveryAction::EmergencyShutdown,
        ] && (*fb).priority == 10 && (*fb).estimated_recovery_time_seconds == 60
            && (*fb).fallback_plan is None
    } else {
        p.fallback_plan is None
    }
}

/// The observed outcomes mirror the plan: one step per action, and outcomes
/// for every fallback level the plan carries.
pub open spec fn spec_outcomes_shaped(p: RecoveryPlan, o: RunOutcomes) -> bool
    decreases p,
{
    &&& o.steps@.len() == p.actions@.len()
    &&& match p.fallback_plan {
        Some(fb) => match o.fallback {
            Some(ofb) => spec_outcomes_shaped(*fb, *ofb),
            None => false,
        },
        None => true,
    }
}

/// Some action from index `i` on ran and was verified as having recovered
/// the system.
pub open spec fn spec_level_success(actions: Seq<RecoveryAction>, steps: Seq<StepOutcome>, i: int) -> bool
    decreases actions.len() - i,
{
    if i < 0 || i >= actions.len() {
        false
    } else if steps[i].action_ok && steps[i].verified {
        true
    } else {
        spec_level_success(actions, steps, i + 1)
    }
}

/// The actions taken from index `i` on: every action that ran, up to and
/// including the first whose verification succeeded.
pub open spec fn spec_taken_from(actions: Seq<RecoveryAction>, steps: Seq<StepOutcome>, i: int) -> Seq<
    RecoveryAction,
>
    decreases actions.len() - i,
{
    if i < 0 || i >= actions.len() {
        Seq::empty()
    } else if !steps[i].action_ok {
        spec_taken_from(actions, steps, i + 1)
    } else if steps[i].verified {
        seq![actions[i]]
    } else {
        seq![actions[i]] + spec_taken_from(actions, steps, i + 1)
    }
}

/// The result of executing one plan level, ignoring its fallback: success
/// exactly when some action achieved verified recovery, the taken actions
/// as observed, and an explanatory error on failure.
pub open spec fn spec_level_ok(p: RecoveryPlan, o: RunOutcomes, r: RecoveryResult) -> bool {
    &&& r.failure_id@ == p.failure_id@
    &&& r.success == spec_level_success(p.actions@, o.steps@, 0)
    &&& r.actions_taken@ == spec_taken_from(p.actions@, o.steps@, 0)
    &&& r.recovery_time_seconds == o.elapsed_seconds
    &&& if spec_level_success(p.actions@, o.steps@, 0) {
        r.error is None
    } else {
        r.error matches Some(e) && e@ == "all recovery actions failed"@
    }
}

/// The final result of a plan execution: the first level's own result if it
/// succeeded or no fallback exists, else the fallback's result in its place,
/// recursively.
pub open spec fn spec_run_ok(p: RecoveryPlan, o: RunOutcomes, r: RecoveryResult) -> bool
    decreases p,
{
    if spec_level_success(p.actions@, o.steps@, 0) {
        spec_level_ok(p, o, r)
    } else {
        match p.fallback_plan {
            Some(fb) => match o.fallback {
                Some(ofb) => spec_run_ok(*fb, *ofb, r),
                None => false,
            },
            None => spec_level_ok(p, o, r),
        }
    }
}

/// The recovery history entries appended by one plan execution: one result
/// per attempted level, in order, stopping at the first success.
pub open spec fn spec_attempts_ok(p: RecoveryPlan, o: RunOutcomes, appended: Seq<RecoveryResult>) -> bool
    decreases p,
{
    if spec_level_success(p.actions@, o.steps@, 0) {
        appended.len() == 1 && spec_level_ok(p, o, appended[0])
    } else {
        match p.fallback_plan {
            Some(fb) => {
                &&& appended.len() >= 1
                &&& spec_level_ok(p, o, appended[0])
                &&& match o.fallback {
                    Some(ofb) => spec_attempts_ok(
                        *fb,
                        *ofb,
                        appended.subrange(1, appended.len() as int),
                    ),
                    None => false,
                }
            },
            None => appended.len() == 1 && spec_level_ok(p, o, appended[0]),
        }
    }
}

/// The failure-history entries newer than the cutoff, in order.
pub open spec fn spec_recent_failures(s: Seq<FailureEvent>, cutoff: int) -> Seq<FailureEvent>
    decreases s.len(),
{
    if s.len() == 0 {
        Seq::empty()
    } else {
        let rest = spec_recent_failures(s.drop_last(), cutoff);
        if s.last().timestamp > cutoff {
            rest.push(s.last())
        } else {
            rest
        }
    }
}

pub open spec fn spec_success_count(s: Seq<RecoveryResult>) -> int
    decreases s.len(),
{
    if s.len() == 0 {
        0
    } else {
        spec_success_count(s.drop_last()) + if s.last().success {
            1int
        } else {
            0int
        }
    }
}

pub open spec fn spec_time_sum(s: Seq<RecoveryResult>) -> int
    decreases s.len(),
{
    if s.len() == 0 {
        0
    } else {
        spec_time_sum(s.drop_last()) + s.last().recovery_time_seconds
    }
}

/// Recovery planner state: the bounded failure and recovery histories.
pub struct RecoveryManager {
    pub failure_history: Vec<FailureEvent>,
    pub recovery_history: Vec<RecoveryResult>,
    pub max_recovery_attempts: u32,
    pub recovery_timeout_seconds: u64,
}

impl RecoveryManager {
    pub fn new() -> (r: Self)
        ensures
            r.failure_history@.len() == 0,
            r.recovery_history@.len() == 0,
            r.max_recovery_attempts == 3,
            r.recovery_timeout_seconds == 300,
    {
        RecoveryManager {
            failure_history: Vec::new(),
            recovery_history: Vec::new(),
            max_recovery_attempts: 3,
            recovery_timeout_seconds: 300,
        }
    }

    /// Record the failure, and if it is auto-recoverable, build its plan and
    /// execute it against the observed step outcomes, recording every
    /// attempted level in the recovery history. A non-auto-recoverable
    /// failure is never acted on: the result is unsuccessful with no actions
    /// attempted and the recovery history untouched.
    pub fn handle_failure(&mut self, failure: FailureEvent, outcomes: &RunOutcomes) -> (r:
        RecoveryResult)
        requires
            failure.auto_recoverable ==> spec_outcomes_for_failure(failure, *outcomes),
        ensures
            final(self).failure_history@ == old(self).failure_history@.push(failure),
            !failure.auto_recoverable ==> {
                &&& final(self).recovery_history@ == old(self).recovery_history@
                &&& r.failure_id@ == failure.id@
                &&& !r.success
                &&& r.actions_taken@.len() == 0
                &&& r.recovery_time_seconds == 0
                &&& r.error matches Some(e) && e@ == "failure is not auto-recoverable"@
            },
            failure.auto_recoverable ==> exists|p: RecoveryPlan|
                {
                    &&& #[trigger] spec_plan_for(failure, p)
                    &&& spec_run_ok(p, *outcomes, r)
                    &&& final(self).recovery_history@.len() > old(self).recovery_history@.len()
                    &&& final(self).recovery_history@.subrange(
                        0,
                        old(self).recovery_history@.len() as int,
                    ) == old(self).recovery_history@
                    &&& spec_attempts_ok(
                        p,
                        *outcomes,
                        final(self).recovery_history@.subrange(
                            old(self).recovery_history@.len() as int,
                            final(self).recovery_history@.len() as int,
                        ),
                    )
                },
            final(self).max_recovery_attempts == old(self).max_recovery_attempts,
            final(self).recovery_timeout_seconds == old(self).recovery_timeout_seconds,
    {
        let record = duplicate_failure_event(&failure);
        let auto_recoverable = failure.auto_recoverable;
        let plan_needed = if auto_recoverable {
            Some(create_recovery_plan(&failure))
        } else {
            None
        };
        let failure_id = failure.id.clone();
        self.failure_history.push(failure);
        match plan_needed {
            None => RecoveryResult {
                failure_id,
                success: false,
                actions_taken: Vec::new(),
                recovery_time_seconds: 0,
                error: Some("failure is not auto-recoverable".to_owned()),
            },
            Some(plan) => {
                proof {
                    assert(spec_plan_for(record, plan));
                    lemma_shape_for_plan(record, plan, *outcomes);
                }
                let r = self.run_plan_recording(&plan, outcomes);
                r
            },
        }
    }

    /// Execute one plan level against its observed outcomes, append that
    /// level's result to the recovery history, and on failure escalate to
    /// the fallback plan as a complete, independent cycle whose result
    /// replaces this one's.
    fn run_plan_recording(&mut self, plan: &RecoveryPlan, outcomes: &RunOutcomes) -> (r:
        RecoveryResult)
        requires
            spec_outcomes_shaped(*plan, *outcomes),
        ensures
            final(self).failure_history@ == old(self).failure_history@,
            final(self).recovery_history@.len() > old(self).recovery_history@.len(),
            final(self).recovery_history@.subrange(0, old(self).recovery_history@.len() as int)
                == old(self).recovery_history@,
            spec_attempts_ok(
                *plan,
                *outcomes,
                final(self).recovery_history@.subrange(
                    old(self).recovery_history@.len() as int,
                    final(self).recovery_history@.len() as int,
                ),
            ),
            spec_run_ok(*plan, *outcomes, r),
            final(self).max_recovery_attempts == old(self).max_recovery_attempts,
            final(self).recovery_timeout_seconds == old(self).recovery_timeout_seconds,
        decreases *plan,
    {
        let recorded = execute_plan_level(plan, outcomes);
        let succeeded = recorded.success;
        self.recovery_history.push(recorded);
        let ghost appended_one = self.recovery_history@.subrange(
            old(self).recovery_history@.len() as int,
            self.recovery_history@.len() as int,
        );
        proof {
            assert(appended_one =~= seq![self.recovery_history@.last()]);
        }
        if succeeded {
            execute_plan_level(plan, outcomes)
        } else {
            match &plan.fallback_plan {
                Some(fb) => {
                    match &outcomes.fallback {
                        Some(ofb) => {
                            let ghost mid = self.recovery_history@;
                            let r = self.run_plan_recording(fb, ofb);
                            proof {
                                let lo = old(self).recovery_history@.len() as int;
                                let hi = self.recovery_history@.len() as int;
                                let appended = self.recovery_history@.subrange(lo, hi);
                                assert(self.recovery_history@.subrange(0, mid.len() as int).subrange(
                                    0,
                                    lo,
                                ) =~= self.recovery_history@.subrange(0, lo));
                                assert(appended.subrange(1, appended.len() as int)
                                    =~= self.recovery_history@.subrange(mid.len() as int, hi));
                                assert(appended[0] == mid.last());
                            }
                            r
                        },
                        None => vstd::pervasive::unreached(),
                    }
                },
                None => execute_plan_level(plan, outcomes),
            }
        }
    }

    /// Failure-history entries older than seven days leave; the recovery
    /// history is kept whole.
    pub fn cleanup_history(&mut self, now: u64)
        ensures
            final(self).failure_history@ == spec_recent_failures(
                old(self).failure_history@,
                now - 604800,
            ),
            final(self).recovery_history@ == old(self).recovery_history@,
            final(self).max_recovery_attempts == old(self).max_recovery_attempts,
            final(self).recovery_timeout_seconds == old(self).recovery_timeout_seconds,
    {
        let cutoff_known: bool = now >= 604800;
        let cutoff: u64 = if cutoff_known {
            now - 604800
        } else {
            0
        };
        let mut input: Vec<FailureEvent> = Vec::new();
        core::mem::swap(&mut input, &mut self.failure_history);
        let n: usize = input.len();
        let ghost input0 = input@;
        let mut kept: Vec<FailureEvent> = Vec::new();
        let mut i: usize = 0;
        while i < n
            invariant
                i <= n,
                n == input0.len(),
                input@ == input0.subrange(i as int, n as int),
                cutoff_known ==> cutoff == now - 604800,
                !cutoff_known ==> now < 604800,
                kept@ == spec_recent_failures(input0.subrange(0, i as int), now - 604800),
            decreases n - i,
        {
            let f = input.remove(0);
            proof {
                assert(f == input0[i as int]);
                assert(input@ =~= input0.subrange(i + 1, n as int));
            }
            let keep: bool = if cutoff_known {
                f.timestamp > cutoff
            } else {
                true
            };
            if keep {
                kept.push(f);
            }
            i = i + 1;
            proof {
                let s = input0.subrange(0, i as int);
                assert(s.drop_last() =~= input0.subrange(0, i - 1));
                assert(s.last() == input0[i - 1]);
            }
        }
        proof {
            assert(input0.subrange(0, n as int) =~= input0);
        }
        self.failure_history = kept;
    }

    /// Success-rate statistics over the recovery history: counts, the
    /// success share in per-mille, and the mean recovery time.
    pub fn get_recovery_stats(&self) -> (r: RecoveryStats)
        ensures
            r.total_recoveries == self.recovery_history@.len(),
            r.successful_recoveries == spec_success_count(self.recovery_history@),
            r.failed_recoveries == r.total_recoveries - r.successful_recoveries,
            r.total_recoveries > 0 ==> r.success_rate_permille == spec_success_count(
                self.recovery_history@,
            ) * 1000 / (self.recovery_history@.len() as int),
            r.total_recoveries == 0 ==> r.success_rate_permille == 0,
            r.total_recoveries > 0 ==> r.average_recovery_time_seconds == spec_time_sum(
                self.recovery_history@,
            ) / (self.recovery_history@.len() as int),
            r.total_recoveries == 0 ==> r.average_recovery_time_seconds == 0,
    {
        let n: usize = self.recovery_history.len();
        let mut successes: usize = 0;
        let mut time_sum: u128 = 0;
        let mut i: usize = 0;
        while i < n
            invariant
                i <= n,
                n == self.recovery_history@.len(),
                successes == spec_success_count(self.recovery_history@.subrange(0, i as int)),
                successes <= i,
                time_sum == spec_time_sum(self.recovery_history@.subrange(0, i as int)),
                time_sum <= (i as u128) * (u64::MAX as u128),
            decreases n - i,
        {
            let entry = &self.recovery_history[i];
            if entry.success {
                successes = successes + 1;
            }
            proof {
                mul_bound_step(i as int, time_sum as int, entry.recovery_time_seconds as int);
            }
            time_sum = time_sum + (entry.recovery_time_seconds as u128);
            i = i + 1;
            proof {
                let s = self.recovery_history@.subrange(0, i as int);
                assert(s.drop_last() =~= self.recovery_history@.subrange(0, i - 1));
                assert(s.last() == self.recovery_history@[i - 1]);
            }
        }
        proof {
            assert(self.recovery_history@.subrange(0, n as int) =~= self.recovery_history@);
        }
        let success_rate_permille: u32 = if n > 0 {
            proof {
                rate_bounds(successes as int, n as int);
            }
            (((successes as u128) * 1000) / (n as u128)) as u32
        } else {
            0
        };
        let average_recovery_time_seconds: u64 = if n > 0 {
            proof {
                avg_bounds(time_sum as int, n as int);
            }
            (time_sum / (n as u128)) as u64
        } else {
            0
        };
        RecoveryStats {
            total_recoveries: n,
            successful_recoveries: successes,
            failed_recoveries: n - successes,
            success_rate_permille,
            average_recovery_time_seconds,
        }
    }
}

proof fn mul_bound_step(i: int, sum: int, t: int)
    requires
        0 <= i,
        0 <= sum <= i * (u64::MAX as int),
        0 <= t <= u64::MAX as int,
    ensures
        sum + t <= (i + 1) * (u64::MAX as int),
{
    assert((i + 1) * (u64::MAX as int) == i * (u64::MAX as int) + u64::MAX as int)
        by (nonlinear_arith);
}

proof fn rate_bounds(s: int, n: int)
    requires
        0 <= s <= n,
        1 <= n,
    ensures
        0 <= s * 1000 / n <= 1000,
{
    assert(s * 1000 <= n * 1000) by (nonlinear_arith)
        requires
            s <= n,
    ;
    assert(s * 1000 / n <= n * 1000 / n) by (nonlinear_arith)
        requires
            1 <= n,
            s * 1000 <= n * 1000,
    ;
    assert(n * 1000 / n == 1000) by (nonlinear_arith)
        requires
            1 <= n,
    ;
    assert(s * 1000 / n >= 0) by (nonlinear_arith)
        requires
            0 <= s,
            1 <= n,
    ;
}

proof fn avg_bounds(sum: int, n: int)
    requires
        0 <= sum <= n * (u64::MAX as int),
        1 <= n,
    ensures
        0 <= sum / n <= u64::MAX as int,
{
    assert(sum / n <= (n * (u64::MAX as int)) / n) by (nonlinear_arith)
        requires
            1 <= n,
            sum <= n * (u64::MAX as int),
    ;
    assert((n * (u64::MAX as int)) / n == u64::MAX as int) by (nonlinear_arith)
        requires
            1 <= n,
    ;
    assert(sum / n >= 0) by (nonlinear_arith)
        requires
            0 <= sum,
            1 <= n,
    ;
}

/// The outcomes a caller must observe for the plan that a failure produces:
/// one step per strategy-table action, and, at severity 8 or above, a
/// two-step fallback level.
pub open spec fn spec_outcomes_for_failure(f: FailureEvent, o: RunOutcomes) -> bool {
    &&& o.steps@.len() == spec_recovery_actions_for(f.failure_type).len()
    &&& f.severity >= 8 ==> match o.fallback {
        Some(ofb) => (*ofb).steps@.len() == 2,
        None => false,
    }
}

proof fn lemma_shape_for_plan(f: FailureEvent, p: RecoveryPlan, o: RunOutcomes)
    requires
        spec_plan_for(f, p),
        spec_outcomes_for_failure(f, o),
    ensures
        spec_outcomes_shaped(p, o),
{
    if f.severity >= 8 {
        match (p.fallback_plan, o.fallback) {
            (Some(fb), Some(ofb)) => {
                assert(spec_outcomes_shaped(*fb, *ofb));
            },
            _ => {
                assert(false);
            },
        }
    }
}

/// Build the remediation plan for a failure from the static strategy table;
/// severity 8 or above attaches the failover-and-shutdown fallback plan at
/// priority 10.
pub fn create_recovery_plan(failure: &FailureEvent) -> (p: RecoveryPlan)
    ensures
        spec_plan_for(*failure, p),
{
    let actions = recovery_actions_for(&failure.failure_type);
    let fallback_plan = if failure.severity >= 8 {
        let mut fallback_actions: Vec<RecoveryAction> = Vec::new();
        fallback_actions.push(RecoveryAction::FailoverToBackup);
        fallback_actions.push(RecoveryAction::EmergencyShutdown);
        proof {
            assert(fallback_actions@ =~= seq![
                RecoveryAction::FailoverToBackup,
                RecoveryAction::EmergencyShutdown,
            ]);
        }
        Some(
            Box::new(
                RecoveryPlan {
                    failure_id: failure.id.clone(),
                    actions: fallback_actions,
                    priority: 10,
                    estimated_recovery_time_seconds: 60,
                    fallback_plan: None,
                },
            ),
        )
    } else {
        None
    };
    RecoveryPlan {
        failure_id: failure.id.clone(),
        actions,
        priority: failure.severity,
        estimated_recovery_time_seconds: 30,
        fallback_plan,
    }
}

/// The static strategy table as executable code.
pub fn recovery_actions_for(t: &FailureType) -> (r: Vec<RecoveryAction>)
    ensures
        r@ == spec_recovery_actions_for(*t),
{
    let mut v: Vec<RecoveryAction> = Vec::new();
    match t {
        FailureType::ProcessCrash => {
            v.push(RecoveryAction::RestartProcess);
            v.push(RecoveryAction::RedeployComponent);
            v.push(RecoveryAction::FailoverToBackup);
        },
        FailureType::NetworkFailure => {
            v.push(RecoveryAction::ResetConnections);
            v.push(RecoveryAction::FailoverToBackup);
        },
        FailureType::ResourceExhaustion => {
            v.push(RecoveryAction::ClearCache);
            v.push(RecoveryAction::ScaleUp);
            v.push(RecoveryAction::RestartProcess);
        },
        FailureType::ConfigurationError => {
            v.push(RecoveryAction::RollbackConfiguration);
            v.push(RecoveryAction::RedeployComponent);
        },
        FailureType::DependencyFailure => {
            v.push(RecoveryAction::RestartProcess);
        },
        FailureType::Unknown(_) => {
            v.push(RecoveryAction::RestartProcess);
        },
    }
    proof {
        assert(v@ =~= spec_recovery_actions_for(*t));
    }
    v
}

/// Execute one plan level against its observed outcomes: walk the candidate
/// actions in order, count an action as taken when it ran, and stop at the
/// first verified recovery.
pub fn execute_plan_level(plan: &RecoveryPlan, outcomes: &RunOutcomes) -> (r: RecoveryResult)
    requires
        outcomes.steps@.len() == plan.actions@.len(),
    ensures
        spec_level_ok(*plan, *outcomes, r),
{
    let n: usize = plan.actions.len();
    let mut actions_taken: Vec<RecoveryAction> = Vec::new();
    let mut succeeded: bool = false;
    let mut i: usize = 0;
    while i < n && !succeeded
        invariant
            i <= n,
            n == plan.actions@.len(),
            outcomes.steps@.len() == plan.actions@.len(),
            !succeeded ==> spec_taken_from(plan.actions@, outcomes.steps@, 0) == actions_taken@
                + spec_taken_from(plan.actions@, outcomes.steps@, i as int),
            !succeeded ==> spec_level_success(plan.actions@, outcomes.steps@, 0)
                == spec_level_success(plan.actions@, outcomes.steps@, i as int),
            succeeded ==> spec_level_success(plan.actions@, outcomes.steps@, 0),
            succeeded ==> actions_taken@ == spec_taken_from(plan.actions@, outcomes.steps@, 0),
        decreases n - i,
    {
        let ghost taken_before = actions_taken@;
        let step = outcomes.steps[i];
        if step.action_ok {
            actions_taken.push(plan.actions[i]);
            if step.verified {
                succeeded = true;
            }
        }
        proof {
            if step.action_ok && step.verified {
                assert(spec_taken_from(plan.actions@, outcomes.steps@, i as int) =~= seq![
                    plan.actions@[i as int],
                ]);
                assert(taken_before + spec_taken_from(plan.actions@, outcomes.steps@, i as int)
                    =~= actions_taken@);
            } else if step.action_ok {
                assert(taken_before + (seq![plan.actions@[i as int]] + spec_taken_from(
                    plan.actions@,
                    outcomes.steps@,
                    i + 1,
                )) =~= actions_taken@ + spec_taken_from(plan.actions@, outcomes.steps@, i + 1));
            }
        }
        i = i + 1;
    }
    proof {
        if !succeeded {
            assert(spec_taken_from(plan.actions@, outcomes.steps@, n as int) =~= Seq::empty());
            assert(actions_taken@ + Seq::<RecoveryAction>::empty() =~= actions_taken@);
        }
    }
    if succeeded {
        RecoveryResult {
            failure_id: plan.failure_id.clone(),
            success: true,
            actions_taken,
            recovery_time_seconds: outcomes.elapsed_seconds,
            error: None,
        }
    } else {
        RecoveryResult {
            failure_id: plan.failure_id.clone(),
            success: false,
            actions_taken,
            recovery_time_seconds: outcomes.elapsed_seconds,
            error: Some("all recovery actions failed".to_owned()),
        }
    }
}

fn duplicate_failure_type(t: &FailureType) -> (r: FailureType)
    ensures
        r == *t,
{
    match t {
        FailureType::ProcessCrash => FailureType::ProcessCrash,
        FailureType::NetworkFailure => FailureType::NetworkFailure,
        FailureType::ResourceExhaustion => FailureType::ResourceExhaustion,
        FailureType::ConfigurationError => FailureType::ConfigurationError,
        FailureType::DependencyFailure => FailureType::DependencyFailure,
        FailureType::Unknown(s) => FailureType::Unknown(s.clone()),
    }
}

fn duplicate_failure_event(f: &FailureEvent) -> (r: FailureEvent)
    ensures
        r == *f,
{
    FailureEvent {
        id: f.id.clone(),
        timestamp: f.timestamp,
        failure_type: duplicate_failure_type(&f.failure_type),
        component: f.component.clone(),
        description: f.description.clone(),
        severity: f.severity,
        auto_recoverable: f.auto_recoverable,
    }
}

/// If every primary action fails verification and no fallback exists, the
/// plan execution reports failure with a non-empty error, and exactly one
/// result is appended to the recovery history.
pub proof fn lemma_failed_primary_no_fallback(
    plan: RecoveryPlan,
    outcomes: RunOutcomes,
    appended: Seq<RecoveryResult>,
    r: RecoveryResult,
)
    requires
        plan.fallback_plan is None,
        outcomes.steps@.len() == plan.actions@.len(),
        forall|i: int| 0 <= i < outcomes.steps@.len() ==> !(#[trigger] outcomes.steps@[i]).verified,
        spec_run_ok(plan, outcomes, r),
        spec_attempts_ok(plan, outcomes, appended),
    ensures
        !r.success,
        r.error matches Some(e) && e@.len() > 0,
        appended.len() == 1,
{
    lemma_no_verify_no_success(plan.actions@, outcomes.steps@, 0);
    reveal_strlit("all recovery actions failed");
}

proof fn lemma_no_verify_no_success(actions: Seq<RecoveryAction>, steps: Seq<StepOutcome>, i: int)
    requires
        steps.len() >= actions.len(),
        forall|j: int| 0 <= j < steps.len() ==> !(#[trigger] steps[j]).verified,
    ensures
        !spec_level_success(actions, steps, i),
    decreases actions.len() - i,
{
    if 0 <= i < actions.len() {
        lemma_no_verify_no_success(actions, steps, i + 1);
    }
}

} // verus!
