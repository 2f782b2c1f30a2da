use autonomy_core::health_monitor::{
    calculate_overall_status, HealthCheck, HealthMetrics, HealthMonitor, HealthStatus,
};

fn reading(
    timestamp: u64,
    cpu_centi: u32,
    mem_centi: u32,
    disk_centi: u32,
    latency_ms: u32,
    processes: usize,
) -> HealthMetrics {
    HealthMetrics {
        timestamp,
        cpu_usage_centi_percent: cpu_centi,
        memory_usage_centi_percent: mem_centi,
        disk_usage_centi_percent: disk_centi,
        network_latency_ms: latency_ms,
        process_count: processes,
        error_rate_permille: 10,
        success_rate_permille: 990,
        uptime_seconds: 5,
    }
}

fn check(name: &str, status: HealthStatus) -> HealthCheck {
    HealthCheck {
        name: name.to_string(),
        status,
        last_check: 0,
        consecutive_failures: 0,
    }
}

#[test]
fn overall_status_is_strict_max_severity() {
    let checks = vec![
        check("cpu", HealthStatus::Healthy),
        check("disk", HealthStatus::Critical("disk usage over threshold".to_string())),
    ];
    let overall = calculate_overall_status(&checks);
    assert!(matches!(overall, HealthStatus::Critical(_)));
}

#[test]
fn overall_status_failed_beats_critical() {
    let checks = vec![
        check("disk", HealthStatus::Critical("x".to_string())),
        check("processes", HealthStatus::Failed("no processes running".to_string())),
        check("cpu", HealthStatus::Degraded("y".to_string())),
    ];
    assert!(matches!(calculate_overall_status(&checks), HealthStatus::Failed(_)));
}

#[test]
fn overall_status_of_no_checks_is_healthy() {
    let checks: Vec<HealthCheck> = vec![];
    assert!(matches!(calculate_overall_status(&checks), HealthStatus::Healthy));
}

#[test]
fn current_summary_is_idempotent_between_samples() {
    let mut m = HealthMonitor::new();
    m.sample_once(reading(1000, 8000, 5000, 3000, 20, 42));
    let first = m.get_current_health();
    let second = m.get_current_health();
    assert_eq!(first, second);
}

#[test]
fn sampling_classifies_each_dimension() {
    let mut m = HealthMonitor::new();
    // CPU above its 90% critical threshold, memory above its 75% warning
    // threshold, disk quiet, latency degraded, processes healthy.
    m.sample_once(reading(1000, 9500, 8000, 3000, 60, 42));
    let summary = m.get_current_health();
    assert_eq!(summary.checks.len(), 5);
    assert!(matches!(summary.checks[0].status, HealthStatus::Critical(_)));
    assert!(matches!(summary.checks[1].status, HealthStatus::Degraded(_)));
    assert!(matches!(summary.checks[2].status, HealthStatus::Healthy));
    assert!(matches!(summary.checks[3].status, HealthStatus::Degraded(_)));
    assert!(matches!(summary.checks[4].status, HealthStatus::Healthy));
    assert!(matches!(summary.status, HealthStatus::Critical(_)));
}

#[test]
fn zero_processes_fail_regardless_of_thresholds() {
    let mut m = HealthMonitor::new();
    m.sample_once(reading(1000, 0, 0, 0, 0, 0));
    let summary = m.get_current_health();
    assert!(matches!(summary.checks[4].status, HealthStatus::Failed(_)));
    assert!(matches!(summary.status, HealthStatus::Failed(_)));
}

#[test]
fn critical_and_failed_dimensions_raise_alerts() {
    let mut m = HealthMonitor::new();
    // CPU critical and processes failed: two alerts, in check order.
    let alerts = m.sample_once(reading(1000, 9500, 0, 0, 0, 0));
    assert_eq!(alerts.len(), 2);
    assert_eq!(alerts[0].component, "cpu");
    assert_eq!(alerts[1].component, "processes");
    assert_eq!(alerts[1].message, "no processes running");
}

#[test]
fn healthy_sample_raises_no_alerts() {
    let mut m = HealthMonitor::new();
    let alerts = m.sample_once(reading(1000, 1000, 1000, 1000, 5, 10));
    assert!(alerts.is_empty());
}

#[test]
fn history_drops_samples_older_than_a_day() {
    let mut m = HealthMonitor::new();
    m.sample_once(reading(1000, 0, 0, 0, 0, 1));
    m.sample_once(reading(2000, 0, 0, 0, 0, 1));
    assert_eq!(m.metrics_history.len(), 2);
    // A sample a day later evicts both earlier ones.
    m.sample_once(reading(90_000, 0, 0, 0, 0, 1));
    assert_eq!(m.metrics_history.len(), 1);
    assert_eq!(m.metrics_history[0].timestamp, 90_000);
}
