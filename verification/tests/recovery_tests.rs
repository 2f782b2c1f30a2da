use autonomy_core::recovery_manager::{
    create_recovery_plan, execute_plan_level, FailureEvent, FailureType, RecoveryAction,
    RecoveryManager, RunOutcomes, StepOutcome,
};

fn failure(kind: FailureType, severity: u8, auto_recoverable: bool) -> FailureEvent {
    FailureEvent {
        id: "f-1".to_string(),
        timestamp: 1000,
        failure_type: kind,
        component: "worker".to_string(),
        description: "crashed".to_string(),
        severity,
        auto_recoverable,
    }
}

fn steps(outcomes: &[(bool, bool)]) -> Vec<StepOutcome> {
    outcomes
        .iter()
        .map(|&(action_ok, verified)| StepOutcome { action_ok, verified })
        .collect()
}

#[test]
fn severe_process_crash_carries_exact_fallback() {
    let plan = create_recovery_plan(&failure(FailureType::ProcessCrash, 9, true));
    let fallback = plan.fallback_plan.expect("severity 9 must carry a fallback plan");
    assert_eq!(
        fallback.actions,
        vec![RecoveryAction::FailoverToBackup, RecoveryAction::EmergencyShutdown]
    );
    assert_eq!(fallback.priority, 10);
    assert!(fallback.fallback_plan.is_none());
}

#[test]
fn moderate_process_crash_has_no_fallback() {
    let plan = create_recovery_plan(&failure(FailureType::ProcessCrash, 5, true));
    assert!(plan.fallback_plan.is_none());
}

#[test]
fn strategy_table_maps_each_failure_kind() {
    let plan = create_recovery_plan(&failure(FailureType::ProcessCrash, 5, true));
    assert_eq!(
        plan.actions,
        vec![
            RecoveryAction::RestartProcess,
            RecoveryAction::RedeployComponent,
            RecoveryAction::FailoverToBackup,
        ]
    );
    let plan = create_recovery_plan(&failure(FailureType::NetworkFailure, 5, true));
    assert_eq!(
        plan.actions,
        vec![RecoveryAction::ResetConnections, RecoveryAction::FailoverToBackup]
    );
    let plan = create_recovery_plan(&failure(
        FailureType::Unknown("odd".to_string()),
        5,
        true,
    ));
    assert_eq!(plan.actions, vec![RecoveryAction::RestartProcess]);
}

#[test]
fn all_actions_unverified_without_fallback_reports_failure() {
    let mut manager = RecoveryManager::new();
    let outcomes = RunOutcomes {
        steps: steps(&[(true, false), (true, false), (false, false)]),
        elapsed_seconds: 12,
        fallback: None,
    };
    let result = manager.handle_failure(failure(FailureType::ProcessCrash, 5, true), &outcomes);
    assert!(!result.success);
    let error = result.error.expect("a failed recovery carries an error");
    assert!(!error.is_empty());
    assert_eq!(manager.failure_history.len(), 1);
    assert_eq!(manager.recovery_history.len(), 1);
    // The two actions that ran were taken; the one that failed to run was not.
    assert_eq!(
        result.actions_taken,
        vec![RecoveryAction::RestartProcess, RecoveryAction::RedeployComponent]
    );
}

#[test]
fn non_recoverable_failure_is_never_acted_on() {
    let mut manager = RecoveryManager::new();
    let outcomes = RunOutcomes { steps: vec![], elapsed_seconds: 0, fallback: None };
    let result = manager.handle_failure(failure(FailureType::ProcessCrash, 5, false), &outcomes);
    assert!(!result.success);
    assert!(result.actions_taken.is_empty());
    assert_eq!(result.error.unwrap(), "failure is not auto-recoverable");
    assert_eq!(manager.failure_history.len(), 1);
    assert_eq!(manager.recovery_history.len(), 0);
}

#[test]
fn verified_recovery_stops_at_first_success() {
    let mut manager = RecoveryManager::new();
    let outcomes = RunOutcomes {
        steps: steps(&[(true, false), (true, true), (true, true)]),
        elapsed_seconds: 7,
        fallback: None,
    };
    let result = manager.handle_failure(failure(FailureType::ProcessCrash, 5, true), &outcomes);
    assert!(result.success);
    assert!(result.error.is_none());
    assert_eq!(result.recovery_time_seconds, 7);
    assert_eq!(
        result.actions_taken,
        vec![RecoveryAction::RestartProcess, RecoveryAction::RedeployComponent]
    );
}

#[test]
fn failed_primary_escalates_to_fallback() {
    let mut manager = RecoveryManager::new();
    let outcomes = RunOutcomes {
        steps: steps(&[(true, false), (true, false), (true, false)]),
        elapsed_seconds: 20,
        fallback: Some(Box::new(RunOutcomes {
            steps: steps(&[(true, true), (false, false)]),
            elapsed_seconds: 4,
            fallback: None,
        })),
    };
    let result = manager.handle_failure(failure(FailureType::ProcessCrash, 9, true), &outcomes);
    assert!(result.success);
    assert_eq!(result.actions_taken, vec![RecoveryAction::FailoverToBackup]);
    assert_eq!(result.recovery_time_seconds, 4);
    // Both the primary attempt and the fallback attempt are on record.
    assert_eq!(manager.recovery_history.len(), 2);
    assert!(!manager.recovery_history[0].success);
    assert!(manager.recovery_history[1].success);
}

#[test]
fn recovery_stats_report_share_and_mean() {
    let mut manager = RecoveryManager::new();
    let ok = RunOutcomes {
        steps: steps(&[(true, true), (false, false), (false, false)]),
        elapsed_seconds: 10,
        fallback: None,
    };
    let bad = RunOutcomes {
        steps: steps(&[(false, false), (false, false), (false, false)]),
        elapsed_seconds: 20,
        fallback: None,
    };
    manager.handle_failure(failure(FailureType::ProcessCrash, 5, true), &ok);
    manager.handle_failure(failure(FailureType::ProcessCrash, 5, true), &bad);
    manager.handle_failure(failure(FailureType::ProcessCrash, 5, true), &bad);
    let stats = manager.get_recovery_stats();
    assert_eq!(stats.total_recoveries, 3);
    assert_eq!(stats.successful_recoveries, 1);
    assert_eq!(stats.failed_recoveries, 2);
    assert_eq!(stats.success_rate_permille, 333);
    assert_eq!(stats.average_recovery_time_seconds, 16);
}

#[test]
fn history_cleanup_drops_week_old_failures() {
    let mut manager = RecoveryManager::new();
    let outcomes = RunOutcomes { steps: vec![], elapsed_seconds: 0, fallback: None };
    manager.handle_failure(failure(FailureType::ProcessCrash, 5, false), &outcomes);
    let mut late = failure(FailureType::ProcessCrash, 5, false);
    late.timestamp = 700_000;
    manager.handle_failure(late, &outcomes);
    assert_eq!(manager.failure_history.len(), 2);
    manager.cleanup_history(700_500);
    assert_eq!(manager.failure_history.len(), 1);
    assert_eq!(manager.failure_history[0].timestamp, 700_000);
}

#[test]
fn plan_level_execution_skips_actions_that_did_not_run() {
    let plan = create_recovery_plan(&failure(FailureType::ResourceExhaustion, 5, true));
    let outcomes = RunOutcomes {
        steps: steps(&[(false, false), (true, true), (false, false)]),
        elapsed_seconds: 3,
        fallback: None,
    };
    let result = execute_plan_level(&plan, &outcomes);
    assert!(result.success);
    assert_eq!(result.actions_taken, vec![RecoveryAction::ScaleUp]);
}
