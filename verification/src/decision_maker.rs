//! Decision engine: maps an observed snapshot of the system to the next
//! corrective or expansive action.
//!
//! Fractional quantities are fixed-point integers: health scores, rates and
//! tolerances are per-mille (`800` stands for `0.8`), usage figures and their
//! ceilings are centi-percent (`7500` stands for `75%`), and scale factors
//! are per-mille (`1266` stands for `1.266`).

use vstd::prelude::*;

verus! {

#[derive(Debug, Clone, Copy, PartialEq, Eq, Structural)]
pub enum Priority {
    Critical,
    High,
    Normal,
    Low,
}

#[derive(Debug, Clone, Copy, PartialEq, Eq, Structural)]
pub enum RecoveryAction {
    Restart,
    Redeploy,
    Failover,
    Ignore,
}

#[derive(Debug, Clone, Copy, PartialEq, Eq, Structural)]
pub enum NodeStatus {
    Healthy,
    Degraded,
    Failed,
    Unknown,
}

#[derive(Debug, Clone, Copy, PartialEq, Eq, Structural)]
pub enum Outcome {
    Success,
    Failure,
    Neutral,
}

#[derive(Debug, Clone, Copy, PartialEq, Eq, Structural)]
pub struct ResourceMetrics {
    pub cpu_centi_percent: u32,
    pub memory_centi_percent: u32,
    pub disk_centi_percent: u32,
    pub network_kbps: u32,
}

#[derive(Debug, Clone)]
pub struct NodeInfo {
    pub id: String,
    pub ip: String,
    pub status: NodeStatus,
    pub last_seen: u64,
    pub load_permille: u32,
}

#[derive(Debug, Clone, Copy, PartialEq, Eq, Structural)]
pub struct MarketConditions {
    pub volatility_permille: u32,
    pub opportunity_score_permille: u32,
    pub risk_level_permille: u32,
}

/// Input value object for one decision cycle; built fresh each cycle and
/// never mutated after construction.
#[derive(Debug, Clone)]
pub struct DecisionContext {
    pub timestamp: u64,
    pub system_health_permille: u32,
    pub resource_usage: ResourceMetrics,
    pub active_nodes: Vec<NodeInfo>,
    pub failed_nodes: Vec<NodeInfo>,
    pub pending_tasks: usize,
    pub market_conditions: Option<MarketConditions>,
}

/// The control loop's chosen next action for one cycle.
#[derive(Debug, Clone)]
pub enum Decision {
    Deploy { target_servers: Vec<String>, priority: Priority, reason: String },
    Scale { factor_permille: u32, reason: String },
    Migrate { from: String, to: String, reason: String },
    Recover { failed_node: String, recovery_action: RecoveryAction },
    Monitor { interval_seconds: u64 },
    Wait { duration_seconds: u64 },
}

/// Mutable policy state owned by the decision engine; adjusted only through
/// [`AutonomousDecisionMaker::adjust_thresholds`] and clamped to safe bounds
/// after every adjustment.
#[derive(Debug, Clone, Copy, PartialEq, Eq, Structural)]
pub struct DecisionThresholds {
    pub min_health_for_expansion_permille: u32,
    pub max_cpu_before_scaling_centi_percent: u32,
    pub max_memory_before_scaling_centi_percent: u32,
    pub min_nodes_required: usize,
    pub max_nodes_allowed: usize,
    pub failure_tolerance_permille: u32,
}

#[derive(Debug, Clone)]
pub struct DecisionFeedback {
    pub decision_id: String,
    pub outcome: Outcome,
    pub metrics: Vec<(String, i64)>,
}

pub open spec fn spec_default_thresholds() -> DecisionThresholds {
    DecisionThresholds {
        min_health_for_expansion_permille: 800,
        max_cpu_before_scaling_centi_percent: 7500,
        max_memory_before_scaling_centi_percent: 8000,
        min_nodes_required: 1,
        max_nodes_allowed: 10,
        failure_tolerance_permille: 300,
    }
}

impl DecisionThresholds {
    /// Safe numeric ranges that the thresholds are clamped into: the
    /// expansion floor stays within [0.5, 0.95] and the CPU ceiling within
    /// [50%, 90%]; the remaining bounds keep the arithmetic of
    /// [`AutonomousDecisionMaker::make_decision`] in range.
    pub open spec fn wf(self) -> bool {
        &&& 500 <= self.min_health_for_expansion_permille <= 950
        &&& 5000 <= self.max_cpu_before_scaling_centi_percent <= 9000
        &&& 1 <= self.max_memory_before_scaling_centi_percent
        &&& self.failure_tolerance_permille <= 1000
    }
}

impl Default for DecisionThresholds {
    fn default() -> (r: Self)
        ensures
            r == spec_default_thresholds(),
    {
        DecisionThresholds {
            min_health_for_expansion_permille: 800,
            max_cpu_before_scaling_centi_percent: 7500,
            max_memory_before_scaling_centi_percent: 8000,
            min_nodes_required: 1,
            max_nodes_allowed: 10,
            failure_tolerance_permille: 300,
        }
    }
}

/// The failed-node share `failed / (failed + active)` exceeds the failure
/// tolerance, compared in per-mille without loss of precision.
pub open spec fn spec_failure_rate_exceeds(tolerance_permille: int, failed: int, active: int) -> bool {
    failed * 1000 > tolerance_permille * (failed + active)
}

/// CPU or memory usage stands above its configured ceiling.
pub open spec fn spec_under_resource_pressure(t: DecisionThresholds, m: ResourceMetrics) -> bool {
    m.cpu_centi_percent > t.max_cpu_before_scaling_centi_percent
        || m.memory_centi_percent > t.max_memory_before_scaling_centi_percent
}

/// Scale factor in per-mille: the larger of the two pressure ratios,
/// capped at 2.0.
pub open spec fn spec_scale_factor(t: DecisionThresholds, m: ResourceMetrics) -> int {
    let cpu_pressure = m.cpu_centi_percent * 1000 / (t.max_cpu_before_scaling_centi_percent as int);
    let mem_pressure = m.memory_centi_percent * 1000 / (t.max_memory_before_scaling_centi_percent as int);
    let pressure = if cpu_pressure >= mem_pressure { cpu_pressure } else { mem_pressure };
    if pressure > 2000 { 2000 } else { pressure }
}

/// The system is healthy enough to expand and has room for more nodes.
pub open spec fn spec_expansion_possible(t: DecisionThresholds, ctx: DecisionContext) -> bool {
    ctx.system_health_permille >= t.min_health_for_expansion_permille
        && ctx.active_nodes@.len() < t.max_nodes_allowed
}

pub open spec fn spec_scale_reason() -> Seq<char> {
    "high resource usage"@
}

pub open spec fn spec_expansion_reason() -> Seq<char> {
    "system health good, expanding network"@
}

/// Exact characterization of the decision returned for a context, in the
/// committed evaluation order: failure check, then resource pressure, then
/// expansion opportunity, then (a no-op) market signal, then monitoring.
pub open spec fn spec_decision_for(t: DecisionThresholds, ctx: DecisionContext, d: Decision) -> bool {
    if ctx.failed_nodes@.len() > 0 {
        &&& d matches Decision::Recover { failed_node, recovery_action }
        &&& failed_node@ == ctx.failed_nodes@[0].id@
        &&& recovery_action == (if spec_failure_rate_exceeds(
            t.failure_tolerance_permille as int,
            ctx.failed_nodes@.len() as int,
            ctx.active_nodes@.len() as int,
        ) {
            RecoveryAction::Failover
        } else {
            RecoveryAction::Redeploy
        })
    } else if spec_under_resource_pressure(t, ctx.resource_usage) {
        &&& d matches Decision::Scale { factor_permille, reason }
        &&& factor_permille == spec_scale_factor(t, ctx.resource_usage)
        &&& reason@ == spec_scale_reason()
    } else if spec_expansion_possible(t, ctx) {
        &&& d matches Decision::Deploy { target_servers, priority, reason }
        &&& target_servers@.len() == 2
        &&& target_servers@[0]@ == "192.168.1.102"@
        &&& target_servers@[1]@ == "192.168.1.103"@
        &&& priority == Priority::Normal
        &&& reason@ == spec_expansion_reason()
    } else {
        d matches Decision::Monitor { interval_seconds } && interval_seconds == 30
    }
}

/// The audit history keeps at most 1000 entries; when a push passes the
/// bound, the oldest hundred entries leave in one batch.
pub open spec fn spec_trimmed_history(h: Seq<(u64, Decision)>) -> Seq<(u64, Decision)> {
    if h.len() > 1000 {
        h.subrange(100, h.len() as int)
    } else {
        h
    }
}

pub open spec fn spec_adjusted_floor(floor: int, lr: int, o: Outcome) -> int {
    let moved = match o {
        Outcome::Success => floor * (1000 - lr / 10) / 1000,
        Outcome::Failure => floor * (1000 + lr / 10) / 1000,
        Outcome::Neutral => floor,
    };
    if moved < 500 {
        500
    } else if moved > 950 {
        950
    } else {
        moved
    }
}

pub open spec fn spec_adjusted_ceiling(ceiling: int, lr: int, o: Outcome) -> int {
    let moved = match o {
        Outcome::Success => ceiling * (1000 + lr / 20) / 1000,
        Outcome::Failure => ceiling * (1000 - lr / 20) / 1000,
        Outcome::Neutral => ceiling,
    };
    if moved < 5000 {
        5000
    } else if moved > 9000 {
        9000
    } else {
        moved
    }
}

/// Decision engine: owns its thresholds and a bounded audit history of every
/// decision it has returned.
pub struct AutonomousDecisionMaker {
    pub thresholds: DecisionThresholds,
    pub decision_history: Vec<(u64, Decision)>,
    pub learning_rate_permille: u32,
}

impl AutonomousDecisionMaker {
    pub open spec fn wf(self) -> bool {
        &&& self.thresholds.wf()
        &&& self.learning_rate_permille <= 1000
        &&& self.decision_history@.len() <= 1000
    }

    pub open spec fn history(self) -> Seq<(u64, Decision)> {
        self.decision_history@
    }

    pub fn new() -> (r: Self)
        ensures
            r.wf(),
            r.thresholds == spec_default_thresholds(),
            r.history() == Seq::<(u64, Decision)>::empty(),
            r.learning_rate_permille == 100,
    {
        AutonomousDecisionMaker {
            thresholds: Default::default(),
            decision_history: Vec::new(),
            learning_rate_permille: 100,
        }
    }

    /// First match wins: a failed node forces a recovery, resource pressure
    /// forces a scale, a healthy under-populated system deploys to the
    /// identified expansion targets, and otherwise the engine keeps
    /// monitoring. The returned decision is also appended to the bounded
    /// audit history. A non-empty failed-node list yields `Recover` and
    /// never any other variant.
    pub fn make_decision(&mut self, context: &DecisionContext) -> (r: Decision)
        requires
            old(self).wf(),
        ensures
            final(self).wf(),
            spec_decision_for(old(self).thresholds, *context, r),
            context.failed_nodes@.len() > 0 ==> r is Recover,
            final(self).thresholds == old(self).thresholds,
            final(self).learning_rate_permille == old(self).learning_rate_permille,
            exists|d: Decision|
                spec_decision_for(old(self).thresholds, *context, d)
                    && final(self).history() == spec_trimmed_history(
                    old(self).history().push((context.timestamp, d)),
                ),
    {
        // The audit record cannot share ownership with the returned value,
        // so the decision is computed once for each; both meet the same
        // exact characterization.
        let recorded = self.compute_decision(context);
        let returned = self.compute_decision(context);
        proof {
            assert(spec_decision_for(self.thresholds, *context, recorded));
        }
        self.record_decision(context.timestamp, recorded);
        returned
    }

    fn compute_decision(&self, context: &DecisionContext) -> (r: Decision)
        requires
            self.wf(),
        ensures
            spec_decision_for(self.thresholds, *context, r),
    {
        if context.failed_nodes.len() > 0 {
            let node = &context.failed_nodes[0];
            let exceeded = failure_rate_exceeds(
                self.thresholds.failure_tolerance_permille,
                context.failed_nodes.len(),
                context.active_nodes.len(),
            );
            let recovery_action = if exceeded {
                RecoveryAction::Failover
            } else {
                RecoveryAction::Redeploy
            };
            Decision::Recover { failed_node: node.id.clone(), recovery_action }
        } else if context.resource_usage.cpu_centi_percent
            > self.thresholds.max_cpu_before_scaling_centi_percent
            || context.resource_usage.memory_centi_percent
            > self.thresholds.max_memory_before_scaling_centi_percent {
            let factor_permille = self.scale_factor(&context.resource_usage);
            Decision::Scale { factor_permille, reason: "high resource usage".to_owned() }
        } else if context.system_health_permille
            >= self.thresholds.min_health_for_expansion_permille
            && context.active_nodes.len() < self.thresholds.max_nodes_allowed {
            let target_servers = self.identify_expansion_targets(context);
            if target_servers.len() > 0 {
                Decision::Deploy {
                    target_servers,
                    priority: Priority::Normal,
                    reason: "system health good, expanding network".to_owned(),
                }
            } else {
                Decision::Monitor { interval_seconds: 30 }
            }
        } else {
            // A favourable market signal is informational only here: trading
            // decisions belong to a separate strategy collaborator.
            Decision::Monitor { interval_seconds: 30 }
        }
    }

    fn scale_factor(&self, m: &ResourceMetrics) -> (r: u32)
        requires
            self.thresholds.wf(),
        ensures
            r == spec_scale_factor(self.thresholds, *m),
    {
        let cpu_pressure: u64 = (m.cpu_centi_percent as u64) * 1000
            / (self.thresholds.max_cpu_before_scaling_centi_percent as u64);
        let mem_pressure: u64 = (m.memory_centi_percent as u64) * 1000
            / (self.thresholds.max_memory_before_scaling_centi_percent as u64);
        let pressure: u64 = if cpu_pressure >= mem_pressure {
            cpu_pressure
        } else {
            mem_pressure
        };
        if pressure > 2000 {
            2000
        } else {
            pressure as u32
        }
    }

    fn identify_expansion_targets(&self, _context: &DecisionContext) -> (r: Vec<String>)
        ensures
            r@.len() == 2,
            r@[0]@ == "192.168.1.102"@,
            r@[1]@ == "192.168.1.103"@,
    {
        let mut targets: Vec<String> = Vec::new();
        targets.push("192.168.1.102".to_owned());
        targets.push("192.168.1.103".to_owned());
        targets
    }

    fn record_decision(&mut self, at: u64, decision: Decision)
        requires
            old(self).decision_history@.len() <= 1000,
        ensures
            final(self).history() == spec_trimmed_history(
                old(self).history().push((at, decision)),
            ),
            final(self).history().len() <= 1000,
            final(self).thresholds == old(self).thresholds,
            final(self).learning_rate_permille == old(self).learning_rate_permille,
    {
        self.decision_history.push((at, decision));
        let ghost pushed = self.decision_history@;
        if self.decision_history.len() > 1000 {
            let mut dropped: usize = 0;
            while dropped < 100
                invariant
                    dropped <= 100,
                    pushed.len() == 1001,
                    self.decision_history@ == pushed.subrange(dropped as int, pushed.len() as int),
                    self.thresholds == old(self).thresholds,
                    self.learning_rate_permille == old(self).learning_rate_permille,
                decreases 100 - dropped,
            {
                proof {
                    assert(self.decision_history@.len() == 1001 - dropped);
                }
                self.decision_history.remove(0);
                dropped = dropped + 1;
                proof {
                    assert(self.decision_history@ =~= pushed.subrange(
                        dropped as int,
                        pushed.len() as int,
                    ));
                }
            }
            proof {
                assert(self.decision_history@ =~= spec_trimmed_history(pushed));
            }
        }
    }

    /// Tune the thresholds from an observed outcome: relax slightly on
    /// success, tighten on failure, then clamp to the safe ranges. After any
    /// number of adjustments the expansion floor stays in [0.5, 0.95] and
    /// the CPU ceiling in [50%, 90%].
    pub fn adjust_thresholds(&mut self, feedback: &DecisionFeedback)
        requires
            old(self).wf(),
        ensures
            final(self).wf(),
            final(self).thresholds.min_health_for_expansion_permille == spec_adjusted_floor(
                old(self).thresholds.min_health_for_expansion_permille as int,
                old(self).learning_rate_permille as int,
                feedback.outcome,
            ),
            final(self).thresholds.max_cpu_before_scaling_centi_percent == spec_adjusted_ceiling(
                old(self).thresholds.max_cpu_before_scaling_centi_percent as int,
                old(self).learning_rate_permille as int,
                feedback.outcome,
            ),
            500 <= final(self).thresholds.min_health_for_expansion_permille <= 950,
            5000 <= final(self).thresholds.max_cpu_before_scaling_centi_percent <= 9000,
            final(self).thresholds.max_memory_before_scaling_centi_percent == old(self).thresholds.max_memory_before_scaling_centi_percent,
            final(self).thresholds.failure_tolerance_permille == old(self).thresholds.failure_tolerance_permille,
            final(self).thresholds.max_nodes_allowed == old(self).thresholds.max_nodes_allowed,
            final(self).thresholds.min_nodes_required == old(self).thresholds.min_nodes_required,
            final(self).history() == old(self).history(),
            final(self).learning_rate_permille == old(self).learning_rate_permille,
    {
        let lr: u64 = self.learning_rate_permille as u64;
        let floor: u64 = self.thresholds.min_health_for_expansion_permille as u64;
        let ceiling: u64 = self.thresholds.max_cpu_before_scaling_centi_percent as u64;
        let floor_relaxed: u64 = 1000 - lr / 10;
        let floor_tightened: u64 = 1000 + lr / 10;
        let ceiling_relaxed: u64 = 1000 + lr / 20;
        let ceiling_tightened: u64 = 1000 - lr / 20;
        let (moved_floor, moved_ceiling): (u64, u64) = match feedback.outcome {
            Outcome::Success => (
                mul_div_1000(floor, floor_relaxed),
                mul_div_1000(ceiling, ceiling_relaxed),
            ),
            Outcome::Failure => (
                mul_div_1000(floor, floor_tightened),
                mul_div_1000(ceiling, ceiling_tightened),
            ),
            Outcome::Neutral => (floor, ceiling),
        };
        let clamped_floor: u64 = if moved_floor < 500 {
            500
        } else if moved_floor > 950 {
            950
        } else {
            moved_floor
        };
        let clamped_ceiling: u64 = if moved_ceiling < 5000 {
            5000
        } else if moved_ceiling > 9000 {
            9000
        } else {
            moved_ceiling
        };
        self.thresholds.min_health_for_expansion_permille = clamped_floor as u32;
        self.thresholds.max_cpu_before_scaling_centi_percent = clamped_ceiling as u32;
    }

    pub fn get_decision_history(&self) -> (r: &Vec<(u64, Decision)>)
        ensures
            r@ == self.history(),
    {
        &self.decision_history
    }
}

impl Default for AutonomousDecisionMaker {
    fn default() -> (r: Self)
        ensures
            r.wf(),
            r.thresholds == spec_default_thresholds(),
            r.history() == Seq::<(u64, Decision)>::empty(),
            r.learning_rate_permille == 100,
    {
        Self::new()
    }
}

/// `a * b / 1000` on operands small enough that the product stays in range.
fn mul_div_1000(a: u64, b: u64) -> (r: u64)
    requires
        a <= 10000,
        b <= 2000,
    ensures
        r == a * b / 1000,
{
    proof {
        assert(a * b <= 10000 * 2000) by (nonlinear_arith)
            requires
                a <= 10000,
                b <= 2000,
        ;
    }
    a * b / 1000
}

/// `failed / (failed + active) > tolerance`, decided in integers: the u128
/// products cannot overflow for any machine-sized operands.
fn failure_rate_exceeds(tolerance_permille: u32, failed: usize, active: usize) -> (r: bool)
    requires
        tolerance_permille <= 1000,
    ensures
        r == spec_failure_rate_exceeds(tolerance_permille as int, failed as int, active as int),
{
    let f: u128 = failed as u128;
    let a: u128 = active as u128;
    let t: u128 = tolerance_permille as u128;
    proof {
        assert(f <= 0xffff_ffff_ffff_ffff);
        assert(a <= 0xffff_ffff_ffff_ffff);
        assert(t <= 1000);
        assert(t * (f + a) <= 1000 * (f + a)) by (nonlinear_arith)
            requires
                t <= 1000,
                f + a >= 0,
        ;
    }
    f * 1000 > t * (f + a)
}

} // verus!
