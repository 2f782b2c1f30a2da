use autonomy_core::decision_maker::{
    AutonomousDecisionMaker, Decision, DecisionContext, DecisionFeedback, NodeInfo, NodeStatus,
    Outcome, RecoveryAction, ResourceMetrics,
};

fn node(id: &str, status: NodeStatus) -> NodeInfo {
    NodeInfo {
        id: id.to_string(),
        ip: "10.0.0.1".to_string(),
        status,
        last_seen: 0,
        load_permille: 100,
    }
}

fn context(
    health_permille: u32,
    cpu_centi: u32,
    mem_centi: u32,
    active: Vec<NodeInfo>,
    failed: Vec<NodeInfo>,
) -> DecisionContext {
    DecisionContext {
        timestamp: 1000,
        system_health_permille: health_permille,
        resource_usage: ResourceMetrics {
            cpu_centi_percent: cpu_centi,
            memory_centi_percent: mem_centi,
            disk_centi_percent: 3000,
            network_kbps: 0,
        },
        active_nodes: active,
        failed_nodes: failed,
        pending_tasks: 0,
        market_conditions: None,
    }
}

#[test]
fn failed_nodes_always_yield_recover() {
    let mut engine = AutonomousDecisionMaker::new();
    // Resource pressure and expansion conditions both hold, yet the failure
    // check dominates.
    let ctx = context(
        1000,
        9900,
        9900,
        vec![node("a", NodeStatus::Healthy)],
        vec![node("down", NodeStatus::Failed)],
    );
    let d = engine.make_decision(&ctx);
    match d {
        Decision::Recover { failed_node, .. } => assert_eq!(failed_node, "down"),
        other => panic!("expected Recover, got {:?}", other),
    }
}

#[test]
fn failover_when_failure_rate_exceeds_tolerance() {
    let mut engine = AutonomousDecisionMaker::new();
    // One failed of two nodes: 500 per-mille > 300 per-mille tolerance.
    let ctx = context(
        1000,
        0,
        0,
        vec![node("a", NodeStatus::Healthy)],
        vec![node("down", NodeStatus::Failed)],
    );
    match engine.make_decision(&ctx) {
        Decision::Recover { recovery_action, .. } => {
            assert_eq!(recovery_action, RecoveryAction::Failover)
        }
        other => panic!("expected Recover, got {:?}", other),
    }
}

#[test]
fn redeploy_when_failure_rate_within_tolerance() {
    let mut engine = AutonomousDecisionMaker::new();
    // One failed of four nodes: 250 per-mille <= 300 per-mille tolerance.
    let active = vec![
        node("a", NodeStatus::Healthy),
        node("b", NodeStatus::Healthy),
        node("c", NodeStatus::Healthy),
    ];
    let ctx = context(1000, 0, 0, active, vec![node("down", NodeStatus::Failed)]);
    match engine.make_decision(&ctx) {
        Decision::Recover { recovery_action, .. } => {
            assert_eq!(recovery_action, RecoveryAction::Redeploy)
        }
        other => panic!("expected Recover, got {:?}", other),
    }
}

#[test]
fn scale_factor_for_cpu_over_ceiling() {
    let mut engine = AutonomousDecisionMaker::new();
    // CPU 95% against the 75% ceiling, no failed nodes, health below the
    // expansion floor: the factor is min(2.0, 95/75), about 1.2667, which the
    // per-mille arithmetic renders as 1266.
    let ctx = context(500, 9500, 0, vec![node("a", NodeStatus::Healthy)], vec![]);
    match engine.make_decision(&ctx) {
        Decision::Scale { factor_permille, .. } => assert_eq!(factor_permille, 1266),
        other => panic!("expected Scale, got {:?}", other),
    }
}

#[test]
fn scale_factor_caps_at_two() {
    let mut engine = AutonomousDecisionMaker::new();
    let ctx = context(500, 9900, 9900 * 10, vec![node("a", NodeStatus::Healthy)], vec![]);
    match engine.make_decision(&ctx) {
        Decision::Scale { factor_permille, .. } => assert_eq!(factor_permille, 2000),
        other => panic!("expected Scale, got {:?}", other),
    }
}

#[test]
fn healthy_quiet_system_expands() {
    let mut engine = AutonomousDecisionMaker::new();
    let ctx = context(900, 1000, 1000, vec![node("a", NodeStatus::Healthy)], vec![]);
    match engine.make_decision(&ctx) {
        Decision::Deploy { target_servers, .. } => {
            assert_eq!(target_servers, vec!["192.168.1.102", "192.168.1.103"])
        }
        other => panic!("expected Deploy, got {:?}", other),
    }
}

#[test]
fn unremarkable_system_keeps_monitoring() {
    let mut engine = AutonomousDecisionMaker::new();
    let ctx = context(500, 1000, 1000, vec![node("a", NodeStatus::Healthy)], vec![]);
    match engine.make_decision(&ctx) {
        Decision::Monitor { interval_seconds } => assert_eq!(interval_seconds, 30),
        other => panic!("expected Monitor, got {:?}", other),
    }
}

#[test]
fn decisions_land_in_history() {
    let mut engine = AutonomousDecisionMaker::new();
    let ctx = context(500, 1000, 1000, vec![node("a", NodeStatus::Healthy)], vec![]);
    engine.make_decision(&ctx);
    engine.make_decision(&ctx);
    assert_eq!(engine.get_decision_history().len(), 2);
    assert_eq!(engine.get_decision_history()[0].0, 1000);
}

#[test]
fn thresholds_stay_clamped_under_any_feedback() {
    let mut engine = AutonomousDecisionMaker::new();
    let success = DecisionFeedback {
        decision_id: "d".to_string(),
        outcome: Outcome::Success,
        metrics: vec![],
    };
    let failure = DecisionFeedback {
        decision_id: "d".to_string(),
        outcome: Outcome::Failure,
        metrics: vec![],
    };
    for _ in 0..200 {
        engine.adjust_thresholds(&success);
        let t = &engine.thresholds;
        assert!(500 <= t.min_health_for_expansion_permille);
        assert!(t.min_health_for_expansion_permille <= 950);
        assert!(5000 <= t.max_cpu_before_scaling_centi_percent);
        assert!(t.max_cpu_before_scaling_centi_percent <= 9000);
    }
    for _ in 0..200 {
        engine.adjust_thresholds(&failure);
        let t = &engine.thresholds;
        assert!(500 <= t.min_health_for_expansion_permille);
        assert!(t.min_health_for_expansion_permille <= 950);
        assert!(5000 <= t.max_cpu_before_scaling_centi_percent);
        assert!(t.max_cpu_before_scaling_centi_percent <= 9000);
    }
}

#[test]
fn neutral_feedback_changes_nothing() {
    let mut engine = AutonomousDecisionMaker::new();
    let before = engine.thresholds;
    let neutral = DecisionFeedback {
        decision_id: "d".to_string(),
        outcome: Outcome::Neutral,
        metrics: vec![],
    };
    engine.adjust_thresholds(&neutral);
    assert_eq!(engine.thresholds, before);
}
