use autonomy_core::autonomous_agent::{AutonomousAgent, DecisionEffect};
use autonomy_core::decision_maker::{Decision, Priority};
use autonomy_core::health_monitor::HealthMetrics;
use autonomy_core::monitoring::{ApiResponse, MonitoringConfig};
use autonomy_core::self_replicator::{ReplicationResult, SelfReplicator, ReplicationTarget};
use autonomy_core::server_config::{
    DefaultSettings, DeploymentStrategy, ServerConfig, SshConfig, TargetServer,
};
use autonomy_core::text::u64_to_dec;

fn sample(timestamp: u64, cpu_centi: u32) -> HealthMetrics {
    HealthMetrics {
        timestamp,
        cpu_usage_centi_percent: cpu_centi,
        memory_usage_centi_percent: 4000,
        disk_usage_centi_percent: 3000,
        network_latency_ms: 10,
        process_count: 12,
        error_rate_permille: 0,
        success_rate_permille: 1000,
        uptime_seconds: 100,
    }
}

#[test]
fn initialize_registers_executors_and_schedules_a_day_of_work() {
    let mut agent = AutonomousAgent::new("/usr/local/bin/agent".to_string());
    agent.initialize(10_000).unwrap();
    assert_eq!(agent.task_scheduler.registered_executors.len(), 2);
    // 288 five-minute health checks plus 24 hourly replication checks.
    assert_eq!(agent.task_scheduler.task_queue.len(), 312);
    assert_eq!(agent.self_replicator.targets.len(), 2);
}

#[test]
fn healthy_quiet_agent_decides_to_monitor_or_deploy() {
    let mut agent = AutonomousAgent::new("/bin/agent".to_string());
    agent.health_monitor.sample_once(sample(1000, 2000));
    // Health is perfect and only one node is active: expansion wins.
    let d = agent.decide_once(1000);
    assert!(matches!(d, Decision::Deploy { .. }));
}

#[test]
fn pressured_agent_decides_to_scale() {
    let mut agent = AutonomousAgent::new("/bin/agent".to_string());
    // CPU at 95% turns the cpu check critical, which drops the health score
    // below the expansion floor and leaves resource pressure to win.
    agent.health_monitor.sample_once(sample(1000, 9500));
    let d = agent.decide_once(1000);
    match d {
        Decision::Scale { factor_permille, .. } => assert_eq!(factor_permille, 1266),
        other => panic!("expected Scale, got {:?}", other),
    }
}

#[test]
fn planning_a_deploy_adds_replication_targets() {
    let mut agent = AutonomousAgent::new("/bin/agent".to_string());
    let decision = Decision::Deploy {
        target_servers: vec!["192.168.1.50".to_string(), "192.168.1.51".to_string()],
        priority: Priority::Normal,
        reason: "expanding".to_string(),
    };
    let effect = agent.plan_decision(&decision, 2000);
    assert!(matches!(effect, DecisionEffect::Deploy { added_targets: 2 }));
    assert_eq!(agent.self_replicator.targets.len(), 2);
    let paths: Vec<&str> = agent
        .self_replicator
        .targets
        .iter()
        .map(|t| t.remote_path.as_str())
        .collect();
    assert!(paths.contains(&"/home/ubuntu/aurelia_192_168_1_50"));
    assert!(paths.contains(&"/home/ubuntu/aurelia_192_168_1_51"));
}

#[test]
fn planning_a_scale_asks_for_replication_rounds() {
    let mut agent = AutonomousAgent::new("/bin/agent".to_string());
    let decision = Decision::Scale { factor_permille: 1266, reason: "pressure".to_string() };
    match agent.plan_decision(&decision, 2000) {
        DecisionEffect::Scale { replication_rounds } => assert_eq!(replication_rounds, 2),
        other => panic!("expected Scale effect, got {:?}", other),
    }
}

#[test]
fn planning_a_recover_builds_the_failure_event() {
    let mut agent = AutonomousAgent::new("/bin/agent".to_string());
    let decision = Decision::Recover {
        failed_node: "node-7".to_string(),
        recovery_action: autonomy_core::decision_maker::RecoveryAction::Redeploy,
    };
    match agent.plan_decision(&decision, 2000) {
        DecisionEffect::Recover { failure } => {
            assert_eq!(failure.id, "failure-0");
            assert_eq!(failure.component, "node-7");
            assert_eq!(failure.severity, 7);
            assert!(failure.auto_recoverable);
        }
        other => panic!("expected Recover effect, got {:?}", other),
    }
    assert_eq!(agent.failure_counter, 1);
}

#[test]
fn status_reports_component_state() {
    let mut agent = AutonomousAgent::new("/bin/agent".to_string());
    agent.start();
    agent.health_monitor.sample_once(sample(1000, 1000));
    let status = agent.get_status();
    assert!(status.is_running);
    assert_eq!(status.health_status, "healthy");
    assert_eq!(status.active_replicas, 0);
    assert_eq!(status.pending_tasks, 0);
    assert_eq!(status.recovery_success_rate_permille, 0);
    agent.stop();
    assert!(!agent.get_status().is_running);
}

#[test]
fn replication_bookkeeping_tracks_active_replicas_and_failures() {
    let mut rep = SelfReplicator::new("/bin/agent".to_string());
    rep.add_target(ReplicationTarget {
        ip: "10.1.1.1".to_string(),
        user: "ubuntu".to_string(),
        ssh_key_path: "/k".to_string(),
        remote_path: "/srv".to_string(),
        priority: 1,
        last_attempt: None,
        success_count: 0,
        failure_count: 0,
    });
    assert!(rep.should_replicate());
    let candidates = rep.replication_candidates();
    assert_eq!(candidates.len(), 1);

    rep.record_replication(
        ReplicationResult {
            target: "10.1.1.1".to_string(),
            success: true,
            timestamp: 100,
            duration_seconds: 3,
            error: None,
        },
        100,
    );
    assert_eq!(rep.active_replicas.len(), 1);
    assert_eq!(rep.targets[0].success_count, 1);

    rep.record_replication(
        ReplicationResult {
            target: "10.1.1.1".to_string(),
            success: false,
            timestamp: 200,
            duration_seconds: 9,
            error: Some("unreachable".to_string()),
        },
        200,
    );
    assert_eq!(rep.targets[0].failure_count, 1);
    let status = rep.get_status(300);
    assert_eq!(status.active_replicas, 1);
    assert_eq!(status.total_targets, 1);
    assert_eq!(status.recent_failures, 1);

    rep.mark_replica_down("10.1.1.1");
    assert_eq!(rep.active_replicas.len(), 0);
}

#[test]
fn configuration_reload_and_growth() {
    let config = ServerConfig {
        target_servers: vec![TargetServer::new(
            "s1".to_string(),
            "s1".to_string(),
            "10.0.0.1".to_string(),
            "u".to_string(),
        )],
        default_settings: DefaultSettings {
            port: 22,
            username: "u".to_string(),
            ssh_key_path: "/k".to_string(),
            remote_path: "/srv".to_string(),
            max_retries: 3,
            retry_delay_seconds: 60,
            connection_timeout_seconds: 30,
            deployment_timeout_seconds: 300,
        },
        deployment_strategy: DeploymentStrategy {
            strategy_type: "sequential".to_string(),
            parallel_deployments: 1,
            delay_between_deployments_seconds: 10,
            health_check_after_deployment: true,
            rollback_on_failure: false,
        },
        ssh_config: SshConfig {
            strict_host_key_checking: false,
            compression: true,
            keepalive_interval_seconds: 60,
        },
    };
    let mut rep = SelfReplicator::new("/bin/agent".to_string());
    assert!(rep
        .add_server_to_config(TargetServer::new(
            "s2".to_string(),
            "s2".to_string(),
            "10.0.0.2".to_string(),
            "u".to_string(),
        ))
        .is_err());
    let count = rep.reload_targets_from_config(config);
    assert_eq!(count, 1);
    assert_eq!(rep.targets[0].ip, "10.0.0.1");
    rep.add_server_to_config(TargetServer::new(
        "s2".to_string(),
        "s2".to_string(),
        "10.0.0.2".to_string(),
        "u".to_string(),
    ))
    .unwrap();
    assert_eq!(rep.targets.len(), 2);
    let servers = rep.get_configured_servers();
    assert_eq!(servers.len(), 2);
    assert_eq!(servers[1].id, "s2");
}

#[test]
fn emergency_outcome_fails_only_when_every_attempt_did() {
    let rep = SelfReplicator::new("/bin/agent".to_string());
    let all_bad = vec![ReplicationResult {
        target: "a".to_string(),
        success: false,
        timestamp: 0,
        duration_seconds: 0,
        error: None,
    }];
    let err = rep.emergency_outcome(&all_bad).unwrap_err();
    assert_eq!(err, "emergency replication failed on all targets");
    let one_good = vec![
        ReplicationResult {
            target: "a".to_string(),
            success: false,
            timestamp: 0,
            duration_seconds: 0,
            error: None,
        },
        ReplicationResult {
            target: "b".to_string(),
            success: true,
            timestamp: 0,
            duration_seconds: 0,
            error: None,
        },
    ];
    assert!(rep.emergency_outcome(&one_good).is_ok());
}

#[test]
fn api_response_envelopes_are_exclusive() {
    let ok: ApiResponse<u32> = ApiResponse::success(7);
    assert!(ok.success);
    assert_eq!(ok.data, Some(7));
    assert!(ok.error.is_none());
    let bad: ApiResponse<u32> = ApiResponse::error("agent not found".to_string());
    assert!(!bad.success);
    assert!(bad.data.is_none());
    assert_eq!(bad.error.as_deref(), Some("agent not found"));
    let config = MonitoringConfig::default();
    assert_eq!(config.port, 8080);
    assert!(config.use_http);
}

#[test]
fn decimal_rendering_matches_expectations() {
    assert_eq!(u64_to_dec(0), "0");
    assert_eq!(u64_to_dec(7), "7");
    assert_eq!(u64_to_dec(12034), "12034");
    assert_eq!(u64_to_dec(u64::MAX), "18446744073709551615");
}
