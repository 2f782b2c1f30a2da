//! Coordinator: composes the decision engine, health monitor, recovery
//! planner, task scheduler and replication state, drives the decision cycle,
//! and exposes aggregate status.
//!
//! The loops themselves (sampling, dispatching, recovering, replicating)
//! run outside the library: each cycle the caller samples metrics, asks for
//! a decision, applies the returned directive (deploying, scaling or
//! recovering through the respective component), and sleeps its interval.
//! If any loop stops, the whole agent counts as stopped.

use vstd::prelude::*;
use crate::decision_maker::{
    spec_decision_for, AutonomousDecisionMaker, Decision, DecisionContext, NodeInfo, NodeStatus,
    Priority, ResourceMetrics,
};
use crate::health_monitor::{spec_overall_ok, spec_status_rank, HealthMonitor, HealthStatus};
use crate::recovery_manager::{FailureEvent, FailureType, RecoveryManager};
use crate::self_replicator::{ReplicationTarget, SelfReplicator};
use crate::task_scheduler::{
    spec_recurring_instance, Task, TaskScheduler, TaskStatus, TaskType,
};
use crate::text::{push_char, push_dec, spec_dec_str};

verus! {

/// Aggregate agent status for the reporting front-end; status queries always
/// succeed and report the best-known state.
#[derive(Debug, Clone, PartialEq)]
pub struct AgentStatus {
    pub is_running: bool,
    pub health_status: String,
    pub active_replicas: usize,
    pub pending_tasks: usize,
    pub running_tasks: usize,
    pub recovery_success_rate_permille: u32,
}

/// What the caller must do to carry a decision out: deploy to the freshly
/// added replication targets, run a number of replication rounds, drive a
/// recovery for the given failure, or nothing beyond watching.
#[derive(Debug)]
pub enum DecisionEffect {
    Deploy { added_targets: usize },
    Scale { replication_rounds: usize },
    Recover { failure: FailureEvent },
    NoAction,
}

/// The main autonomous agent that coordinates all self-management
/// capabilities.
pub struct AutonomousAgent {
    pub decision_maker: AutonomousDecisionMaker,
    pub health_monitor: HealthMonitor,
    pub recovery_manager: RecoveryManager,
    pub self_replicator: SelfReplicator,
    pub task_scheduler: TaskScheduler,
    pub is_running: bool,
    pub failure_counter: u64,
}

/// The template of the recurring system health check: every five minutes
/// from `now`, at priority 8, three retries, a 30-second timeout.
pub open spec fn spec_core_health_template(now: u64, t: Task) -> bool {
    &&& t.id@ == "health-check-recurring"@
    &&& t.name@ == "system health check"@
    &&& t.task_type is HealthCheck
    &&& t.priority == 8
    &&& t.scheduled_time == now
    &&& t.dependencies@.len() == 0
    &&& t.max_retries == 3
    &&& t.retry_count == 0
    &&& t.timeout_seconds == 30
}

/// The template of the recurring replication status check: hourly from ten
/// minutes past `now`, at priority 6, two retries, a 60-second timeout.
pub open spec fn spec_core_replication_template(now: u64, t: Task) -> bool {
    &&& t.id@ == "replication-check"@
    &&& t.name@ == "replication status check"@
    &&& t.task_type is Replication
    &&& t.priority == 6
    &&& t.scheduled_time == now + 600
    &&& t.dependencies@.len() == 0
    &&& t.max_retries == 2
    &&& t.retry_count == 0
    &&& t.timeout_seconds == 60
}

/// The queue a fresh initialization leaves behind: 288 five-minute health
/// checks followed by 24 hourly replication checks.
pub open spec fn spec_core_tasks_scheduled(now: u64, queue: Seq<Task>) -> bool {
    &&& queue.len() == 312
    &&& exists|hc: Task, rc: Task|
        {
            &&& #[trigger] spec_core_health_template(now, hc)
            &&& #[trigger] spec_core_replication_template(now, rc)
            &&& forall|k: int| 0 <= k < 288 ==> spec_recurring_instance(hc, k, 300, #[trigger] queue[k])
            &&& forall|k: int|
                0 <= k < 24 ==> spec_recurring_instance(rc, k, 3600, #[trigger] queue[288 + k])
        }
}

/// The health score a summary status stands for, in per-mille.
pub open spec fn spec_health_score(rank: int) -> int {
    if rank == 0 {
        1000
    } else if rank == 1 {
        700
    } else if rank == 2 {
        400
    } else {
        100
    }
}

/// The context built for one decision cycle: the health score from the
/// current overall status, the current usage figures, and the single local
/// node as the active topology.
pub open spec fn spec_context_for(agent: AutonomousAgent, now: u64, ctx: DecisionContext) -> bool {
    &&& ctx.timestamp == now
    &&& exists|st: HealthStatus|
        #[trigger] spec_overall_ok(agent.health_monitor.checks@, st)
            && ctx.system_health_permille == spec_health_score(spec_status_rank(st))
    &&& ctx.resource_usage.cpu_centi_percent
        == agent.health_monitor.current_metrics.cpu_usage_centi_percent
    &&& ctx.resource_usage.memory_centi_percent
        == agent.health_monitor.current_metrics.memory_usage_centi_percent
    &&& ctx.resource_usage.disk_centi_percent
        == agent.health_monitor.current_metrics.disk_usage_centi_percent
    &&& ctx.resource_usage.network_kbps == 0
    &&& ctx.active_nodes@.len() == 1
    &&& ctx.active_nodes@[0].id@ == "primary"@
    &&& ctx.active_nodes@[0].ip@ == "127.0.0.1"@
    &&& ctx.active_nodes@[0].status == NodeStatus::Healthy
    &&& ctx.active_nodes@[0].last_seen == now
    &&& ctx.active_nodes@[0].load_permille
        == agent.health_monitor.current_metrics.cpu_usage_centi_percent / 10
    &&& ctx.failed_nodes@.len() == 0
    &&& ctx.pending_tasks == 0
    &&& ctx.market_conditions is None
}

/// The ip with every dot replaced by an underscore.
pub open spec fn spec_dots_to_underscores(s: Seq<char>) -> Seq<char> {
    Seq::new(
        s.len(),
        |i: int|
            if s[i] == '.' {
                '_'
            } else {
                s[i]
            },
    )
}

pub open spec fn spec_priority_number(p: Priority) -> u8 {
    match p {
        Priority::Critical => 1,
        Priority::High => 2,
        Priority::Normal => 3,
        Priority::Low => 4,
    }
}

/// The first `k` deploy-decision servers each have a planned target present.
pub open spec fn spec_deploy_targets_present(
    servers: Seq<String>,
    k: int,
    p: Priority,
    targets: Seq<ReplicationTarget>,
) -> bool {
    forall|q: int|
        0 <= q < k ==> exists|j: int|
            0 <= j < targets.len() && spec_deploy_target(
                (#[trigger] servers[q])@,
                p,
                #[trigger] targets[j],
            )
}

/// The replication target planned for one deploy-decision server.
pub open spec fn spec_deploy_target(ip: Seq<char>, p: Priority, t: ReplicationTarget) -> bool {
    &&& t.ip@ == ip
    &&& t.user@ == "ubuntu"@
    &&& t.ssh_key_path@ == "~/.ssh/id_rsa"@
    &&& t.remote_path@ == "/home/ubuntu/aurelia_"@ + spec_dots_to_underscores(ip)
    &&& t.priority == spec_priority_number(p)
    &&& t.last_attempt is None
    &&& t.success_count == 0
    &&& t.failure_count == 0
}

impl AutonomousAgent {
    pub open spec fn wf(self) -> bool {
        &&& self.decision_maker.wf()
        &&& self.health_monitor.wf()
        &&& self.task_scheduler.wf()
    }

    pub fn new(binary_path: String) -> (r: Self)
        ensures
            r.wf(),
            !r.is_running,
            r.failure_counter == 0,
            r.task_scheduler.task_queue@.len() == 0,
            r.task_scheduler.registered_executors@.len() == 0,
            r.self_replicator.targets@.len() == 0,
            r.self_replicator.active_replicas@.len() == 0,
            r.recovery_manager.failure_history@.len() == 0,
            r.recovery_manager.recovery_history@.len() == 0,
            r.health_monitor.checks@.len() == 0,
            r.decision_maker.history().len() == 0,
    {
        AutonomousAgent {
            decision_maker: AutonomousDecisionMaker::new(),
            health_monitor: HealthMonitor::new(),
            recovery_manager: RecoveryManager::new(),
            self_replicator: SelfReplicator::new(binary_path),
            task_scheduler: TaskScheduler::new(),
            is_running: false,
            failure_counter: 0,
        }
    }

    /// Register the built-in executors, schedule the baseline recurring
    /// maintenance work (a day of five-minute health checks and a day of
    /// hourly replication checks), and seed the initial replication targets.
    pub fn initialize(&mut self, now: u64) -> (r: Result<(), String>)
        requires
            old(self).wf(),
            now <= u64::MAX - 1000000,
            old(self).task_scheduler.task_queue@.len() == 0,
            old(self).task_scheduler.completed_tasks@.len() == 0,
        ensures
            final(self).wf(),
            r is Ok,
            final(self).task_scheduler.registered_executors@ == old(
                self,
            ).task_scheduler.registered_executors@.push(TaskType::HealthCheck).push(
                TaskType::Replication,
            ),
            spec_core_tasks_scheduled(now, final(self).task_scheduler.task_queue@),
            final(self).self_replicator.targets@.len() == old(
                self,
            ).self_replicator.targets@.len() + 2,
            final(self).is_running == old(self).is_running,
            final(self).failure_counter == old(self).failure_counter,
    {
        self.task_scheduler.register_executor(TaskType::HealthCheck);
        self.task_scheduler.register_executor(TaskType::Replication);
        let r = self.schedule_core_tasks(now);
        match r {
            Ok(()) => {},
            Err(m) => {
                return Err(m);
            },
        }
        self.configure_replication_targets();
        Ok(())
    }

    /// A day of five-minute health checks and a day of hourly replication
    /// status checks, as recurring tasks.
    fn schedule_core_tasks(&mut self, now: u64) -> (r: Result<(), String>)
        requires
            old(self).wf(),
            now <= u64::MAX - 1000000,
            old(self).task_scheduler.completed_tasks@.len() == 0,
        ensures
            final(self).wf(),
            r is Ok,
            old(self).task_scheduler.task_queue@.len() == 0 ==> spec_core_tasks_scheduled(
                now,
                final(self).task_scheduler.task_queue@,
            ),
            final(self).task_scheduler.task_queue@.len() == old(
                self,
            ).task_scheduler.task_queue@.len() + 312,
            final(self).task_scheduler.registered_executors@ == old(
                self,
            ).task_scheduler.registered_executors@,
            final(self).self_replicator.targets@ == old(self).self_replicator.targets@,
            final(self).is_running == old(self).is_running,
            final(self).failure_counter == old(self).failure_counter,
    {
        let health_check_task = Task {
            id: "health-check-recurring".to_owned(),
            name: "system health check".to_owned(),
            task_type: TaskType::HealthCheck,
            priority: 8,
            scheduled_time: now,
            dependencies: Vec::new(),
            max_retries: 3,
            retry_count: 0,
            timeout_seconds: 30,
            status: TaskStatus::Pending,
            result: None,
        };
        let ghost hc = health_check_task;
        let r1 = self.task_scheduler.schedule_recurring_task(health_check_task, 300, 288);
        match r1 {
            Ok(()) => {},
            // A template without dependencies always schedules.
            Err(_) => {
                return vstd::pervasive::unreached();
            },
        }
        let replication_task = Task {
            id: "replication-check".to_owned(),
            name: "replication status check".to_owned(),
            task_type: TaskType::Replication,
            priority: 6,
            scheduled_time: now + 600,
            dependencies: Vec::new(),
            max_retries: 2,
            retry_count: 0,
            timeout_seconds: 60,
            status: TaskStatus::Pending,
            result: None,
        };
        let ghost mid_queue = self.task_scheduler.task_queue@;
        let ghost rc = replication_task;
        let r2 = self.task_scheduler.schedule_recurring_task(replication_task, 3600, 24);
        match r2 {
            Ok(()) => {},
            Err(_) => {
                return vstd::pervasive::unreached();
            },
        }
        proof {
            if old(self).task_scheduler.task_queue@.len() == 0 {
                let q = self.task_scheduler.task_queue@;
                assert(q.subrange(0, mid_queue.len() as int) == mid_queue);
                assert(spec_core_health_template(now, hc));
                assert(spec_core_replication_template(now, rc));
                assert forall|k: int| 0 <= k < 288 implies spec_recurring_instance(
                    hc,
                    k,
                    300,
                    #[trigger] q[k],
                ) by {
                    assert(spec_recurring_instance(
                        hc,
                        k,
                        300,
                        mid_queue[old(self).task_scheduler.task_queue@.len() + k],
                    ));
                    assert(q[k] == q.subrange(0, mid_queue.len() as int)[k]);
                    assert(q[k] == mid_queue[k]);
                }
                assert(spec_core_tasks_scheduled(now, q));
            }
        }
        Ok(())
    }

    /// The default replication topology: two local-network hosts.
    fn configure_replication_targets(&mut self)
        ensures
            final(self).self_replicator.targets@.len() == old(
                self,
            ).self_replicator.targets@.len() + 2,
            final(self).self_replicator.active_replicas@ == old(
                self,
            ).self_replicator.active_replicas@,
            final(self).self_replicator.replication_history@ == old(
                self,
            ).self_replicator.replication_history@,
            final(self).task_scheduler == old(self).task_scheduler,
            final(self).decision_maker == old(self).decision_maker,
            final(self).health_monitor == old(self).health_monitor,
            final(self).recovery_manager == old(self).recovery_manager,
            final(self).is_running == old(self).is_running,
            final(self).failure_counter == old(self).failure_counter,
    {
        let first = ReplicationTarget {
            ip: "192.168.1.101".to_owned(),
            user: "ubuntu".to_owned(),
            ssh_key_path: "~/.ssh/id_rsa".to_owned(),
            remote_path: "/home/ubuntu/aurelia_replica1".to_owned(),
            priority: 1,
            last_attempt: None,
            success_count: 0,
            failure_count: 0,
        };
        let second = ReplicationTarget {
            ip: "192.168.1.102".to_owned(),
            user: "ubuntu".to_owned(),
            ssh_key_path: "~/.ssh/id_rsa".to_owned(),
            remote_path: "/home/ubuntu/aurelia_replica2".to_owned(),
            priority: 2,
            last_attempt: None,
            success_count: 0,
            failure_count: 0,
        };
        proof {
            old(self).self_replicator.targets@.to_multiset_ensures();
        }
        self.self_replicator.add_target(first);
        proof {
            self.self_replicator.targets@.to_multiset_ensures();
        }
        self.self_replicator.add_target(second);
        proof {
            self.self_replicator.targets@.to_multiset_ensures();
        }
    }

    /// Build the decision context for this cycle from the health monitor's
    /// current summary and the known topology.
    pub fn gather_context(&self, now: u64) -> (ctx: DecisionContext)
        requires
            self.wf(),
        ensures
            spec_context_for(*self, now, ctx),
    {
        let summary = self.health_monitor.get_current_health();
        let system_health_permille: u32 = match &summary.status {
            HealthStatus::Healthy => 1000,
            HealthStatus::Degraded(_) => 700,
            HealthStatus::Critical(_) => 400,
            HealthStatus::Failed(_) => 100,
        };
        let metrics = &summary.metrics;
        let mut active_nodes: Vec<NodeInfo> = Vec::new();
        active_nodes.push(
            NodeInfo {
                id: "primary".to_owned(),
                ip: "127.0.0.1".to_owned(),
                status: NodeStatus::Healthy,
                last_seen: now,
                load_permille: metrics.cpu_usage_centi_percent / 10,
            },
        );
        DecisionContext {
            timestamp: now,
            system_health_permille,
            resource_usage: ResourceMetrics {
                cpu_centi_percent: metrics.cpu_usage_centi_percent,
                memory_centi_percent: metrics.memory_usage_centi_percent,
                disk_centi_percent: metrics.disk_usage_centi_percent,
                network_kbps: 0,
            },
            active_nodes,
            failed_nodes: Vec::new(),
            pending_tasks: 0,
            market_conditions: None,
        }
    }

    /// One decision cycle: build the context, ask the decision engine, and
    /// return the decision for the caller to carry out.
    pub fn decide_once(&mut self, now: u64) -> (r: Decision)
        requires
            old(self).wf(),
        ensures
            final(self).wf(),
            exists|ctx: DecisionContext|
                #[trigger] spec_context_for(*old(self), now, ctx) && spec_decision_for(
                    old(self).decision_maker.thresholds,
                    ctx,
                    r,
                ),
            final(self).decision_maker.thresholds == old(self).decision_maker.thresholds,
            final(self).health_monitor == old(self).health_monitor,
            final(self).task_scheduler == old(self).task_scheduler,
            final(self).recovery_manager == old(self).recovery_manager,
            final(self).self_replicator == old(self).self_replicator,
            final(self).is_running == old(self).is_running,
            final(self).failure_counter == old(self).failure_counter,
    {
        let ctx = self.gather_context(now);
        let d = self.decision_maker.make_decision(&ctx);
        proof {
            assert(spec_context_for(*old(self), now, ctx));
        }
        d
    }

    /// Apply a decision's bookkeeping and say what outside work it needs:
    /// deploying adds the named servers as replication targets; scaling asks
    /// for `2 * factor` replication rounds, rounded down; recovering builds
    /// the failure event for the recovery planner; monitoring and waiting
    /// need nothing.
    pub fn plan_decision(&mut self, decision: &Decision, now: u64) -> (r: DecisionEffect)
        requires
            old(self).failure_counter < u64::MAX,
        ensures
            final(self).failure_counter >= old(self).failure_counter,
            match *decision {
                Decision::Deploy { ref target_servers, priority, .. } => {
                    &&& r matches DecisionEffect::Deploy { added_targets }
                        && added_targets == target_servers@.len()
                    &&& final(self).self_replicator.targets@.len() == old(
                        self,
                    ).self_replicator.targets@.len() + target_servers@.len()
                    &&& spec_deploy_targets_present(
                        target_servers@,
                        target_servers@.len() as int,
                        priority,
                        final(self).self_replicator.targets@,
                    )
                },
                Decision::Scale { factor_permille, .. } => {
                    &&& r matches DecisionEffect::Scale { replication_rounds }
                        && replication_rounds == factor_permille as int * 2 / 1000
                    &&& final(self).self_replicator == old(self).self_replicator
                },
                Decision::Recover { ref failed_node, .. } => {
                    &&& r matches DecisionEffect::Recover { ref failure }
                    &&& failure.id@ == "failure-"@ + spec_dec_str(
                        old(self).failure_counter as nat,
                    )
                    &&& failure.timestamp == now
                    &&& failure.failure_type is ProcessCrash
                    &&& failure.component@ == failed_node@
                    &&& failure.description@ == "node failure detected"@
                    &&& failure.severity == 7
                    &&& failure.auto_recoverable
                    &&& final(self).failure_counter == old(self).failure_counter + 1
                    &&& final(self).self_replicator == old(self).self_replicator
                },
                _ => r is NoAction && final(self).self_replicator == old(self).self_replicator
                    && final(self).failure_counter == old(self).failure_counter,
            },
            final(self).decision_maker == old(self).decision_maker,
            final(self).health_monitor == old(self).health_monitor,
            final(self).task_scheduler == old(self).task_scheduler,
            final(self).recovery_manager == old(self).recovery_manager,
            final(self).is_running == old(self).is_running,
    {
        match decision {
            Decision::Deploy { target_servers, priority, .. } => {
                let n: usize = target_servers.len();
                let prio = priority_number(priority);
                let mut k: usize = 0;
                while k < n
                    invariant
                        k <= n,
                        n == target_servers@.len(),
                        prio == spec_priority_number(*priority),
                        self.self_replicator.targets@.len() == old(
                            self,
                        ).self_replicator.targets@.len() + k,
                        spec_deploy_targets_present(
                            target_servers@,
                            k as int,
                            *priority,
                            self.self_replicator.targets@,
                        ),
                        self.self_replicator.active_replicas@ == old(
                            self,
                        ).self_replicator.active_replicas@,
                        self.self_replicator.replication_history@ == old(
                            self,
                        ).self_replicator.replication_history@,
                        self.self_replicator.strategy == old(self).self_replicator.strategy,
                        self.self_replicator.server_config == old(
                            self,
                        ).self_replicator.server_config,
                        self.self_replicator.binary_path == old(self).self_replicator.binary_path,
                        self.decision_maker == old(self).decision_maker,
                        self.health_monitor == old(self).health_monitor,
                        self.task_scheduler == old(self).task_scheduler,
                        self.recovery_manager == old(self).recovery_manager,
                        self.is_running == old(self).is_running,
                        self.failure_counter == old(self).failure_counter,
                    decreases n - k,
                {
                    let ip = &target_servers[k];
                    let mut remote_path = "/home/ubuntu/aurelia_".to_owned();
                    append_dots_to_underscores(&mut remote_path, ip.as_str());
                    let target = ReplicationTarget {
                        ip: ip.clone(),
                        user: "ubuntu".to_owned(),
                        ssh_key_path: "~/.ssh/id_rsa".to_owned(),
                        remote_path,
                        priority: prio,
                        last_attempt: None,
                        success_count: 0,
                        failure_count: 0,
                    };
                    let ghost tv = target;
                    let ghost before = self.self_replicator.targets@;
                    proof {
                        assert(spec_deploy_target(target_servers@[k as int]@, *priority, tv));
                        before.to_multiset_ensures();
                    }
                    self.self_replicator.add_target(target);
                    proof {
                        self.self_replicator.targets@.to_multiset_ensures();
                        assert(self.self_replicator.targets@.to_multiset().count(tv) > 0);
                        assert(self.self_replicator.targets@.contains(tv));
                        assert forall|q: int|
                            0 <= q < k + 1 implies exists|j: int|
                            0 <= j < self.self_replicator.targets@.len() && spec_deploy_target(
                                (#[trigger] target_servers@[q])@,
                                *priority,
                                #[trigger] self.self_replicator.targets@[j],
                            ) by {
                            assert(spec_deploy_targets_present(
                                target_servers@,
                                k as int,
                                *priority,
                                before,
                            ));
                            if q < k {
                                let j0 = choose|j0: int|
                                    0 <= j0 < before.len() && spec_deploy_target(
                                        (target_servers@[q])@,
                                        *priority,
                                        #[trigger] before[j0],
                                    );
                                before.to_multiset_ensures();
                                assert(before.contains(before[j0]));
                                assert(before.to_multiset().count(before[j0]) > 0);
                                assert(self.self_replicator.targets@.to_multiset().count(before[j0])
                                    > 0);
                                assert(self.self_replicator.targets@.contains(before[j0]));
                                let j1 = choose|j1: int|
                                    0 <= j1 < self.self_replicator.targets@.len()
                                        && self.self_replicator.targets@[j1] == before[j0];
                                assert(spec_deploy_target(
                                    (target_servers@[q])@,
                                    *priority,
                                    self.self_replicator.targets@[j1],
                                ));
                            } else {
                                let j1 = choose|j1: int|
                                    0 <= j1 < self.self_replicator.targets@.len()
                                        && self.self_replicator.targets@[j1] == tv;
                                assert(spec_deploy_target(
                                    (target_servers@[q])@,
                                    *priority,
                                    self.self_replicator.targets@[j1],
                                ));
                            }
                        }
                    }
                    proof {
                        assert(spec_deploy_targets_present(
                            target_servers@,
                            k + 1,
                            *priority,
                            self.self_replicator.targets@,
                        ));
                    }
                    k = k + 1;
                }
                DecisionEffect::Deploy { added_targets: n }
            },
            Decision::Scale { factor_permille, .. } => {
                let rounds: usize = (((*factor_permille as u64) * 2) / 1000) as usize;
                DecisionEffect::Scale { replication_rounds: rounds }
            },
            Decision::Recover { failed_node, .. } => {
                let mut id = "failure-".to_owned();
                let counter = self.failure_counter;
                push_dec(&mut id, counter);
                self.failure_counter = self.failure_counter + 1;
                let failure = FailureEvent {
                    id,
                    timestamp: now,
                    failure_type: FailureType::ProcessCrash,
                    component: failed_node.clone(),
                    description: "node failure detected".to_owned(),
                    severity: 7,
                    auto_recoverable: true,
                };
                DecisionEffect::Recover { failure }
            },
            Decision::Monitor { .. } => DecisionEffect::NoAction,
            Decision::Wait { .. } => DecisionEffect::NoAction,
            Decision::Migrate { .. } => DecisionEffect::NoAction,
        }
    }

    pub fn start(&mut self)
        ensures
            final(self).is_running,
            final(self).decision_maker == old(self).decision_maker,
            final(self).health_monitor == old(self).health_monitor,
            final(self).task_scheduler == old(self).task_scheduler,
            final(self).recovery_manager == old(self).recovery_manager,
            final(self).self_replicator == old(self).self_replicator,
            final(self).failure_counter == old(self).failure_counter,
    {
        self.is_running = true;
    }

    pub fn stop(&mut self)
        ensures
            !final(self).is_running,
            final(self).decision_maker == old(self).decision_maker,
            final(self).health_monitor == old(self).health_monitor,
            final(self).task_scheduler == old(self).task_scheduler,
            final(self).recovery_manager == old(self).recovery_manager,
            final(self).self_replicator == old(self).self_replicator,
            final(self).failure_counter == old(self).failure_counter,
    {
        self.is_running = false;
    }

    /// One aggregate snapshot of the four components; never fails, whatever
    /// state the components are in.
    pub fn get_status(&self) -> (r: AgentStatus)
        ensures
            r.is_running == self.is_running,
            exists|st: HealthStatus|
                #[trigger] spec_overall_ok(self.health_monitor.checks@, st)
                    && r.health_status@ == spec_health_status_name(spec_status_rank(st)),
            r.active_replicas == self.self_replicator.active_replicas@.len(),
            r.pending_tasks == self.task_scheduler.task_queue@.len(),
            r.running_tasks == self.task_scheduler.running_tasks@.len(),
            self.recovery_manager.recovery_history@.len() > 0 ==> r.recovery_success_rate_permille
                == crate::recovery_manager::spec_success_count(
                self.recovery_manager.recovery_history@,
            ) * 1000 / (self.recovery_manager.recovery_history@.len() as int),
            self.recovery_manager.recovery_history@.len() == 0
                ==> r.recovery_success_rate_permille == 0,
    {
        let overall = crate::health_monitor::calculate_overall_status(&self.health_monitor.checks);
        let health_status: String = match &overall {
            HealthStatus::Healthy => "healthy".to_owned(),
            HealthStatus::Degraded(_) => "degraded".to_owned(),
            HealthStatus::Critical(_) => "critical".to_owned(),
            HealthStatus::Failed(_) => "failed".to_owned(),
        };
        let stats = self.recovery_manager.get_recovery_stats();
        let scheduler_status = self.task_scheduler.get_status();
        AgentStatus {
            is_running: self.is_running,
            health_status,
            active_replicas: self.self_replicator.active_replicas.len(),
            pending_tasks: scheduler_status.pending_tasks,
            running_tasks: scheduler_status.running_tasks,
            recovery_success_rate_permille: stats.success_rate_permille,
        }
    }
}

pub open spec fn spec_health_status_name(rank: int) -> Seq<char> {
    if rank == 0 {
        "healthy"@
    } else if rank == 1 {
        "degraded"@
    } else if rank == 2 {
        "critical"@
    } else {
        "failed"@
    }
}

fn priority_number(p: &Priority) -> (r: u8)
    ensures
        r == spec_priority_number(*p),
{
    match p {
        Priority::Critical => 1,
        Priority::High => 2,
        Priority::Normal => 3,
        Priority::Low => 4,
    }
}

/// Append the ip to the string with every dot replaced by an underscore.
fn append_dots_to_underscores(out: &mut String, ip: &str)
    ensures
        final(out)@ == old(out)@ + spec_dots_to_underscores(ip@),
{
    let len: usize = ip.unicode_len();
    let mut i: usize = 0;
    while i < len
        invariant
            i <= len,
            len == ip@.len(),
            out@ == old(out)@ + spec_dots_to_underscores(ip@).subrange(0, i as int),
        decreases len - i,
    {
        let c = ip.get_char(i);
        let mapped: char = if c == '.' {
            '_'
        } else {
            c
        };
        push_char(out, mapped);
        i = i + 1;
        proof {
            assert(out@ =~= old(out)@ + spec_dots_to_underscores(ip@).subrange(0, i as int));
        }
    }
    proof {
        assert(spec_dots_to_underscores(ip@).subrange(0, len as int) =~= spec_dots_to_underscores(
            ip@,
        ));
        assert(out@ =~= old(out)@ + spec_dots_to_underscores(ip@));
    }
}

} // verus!
