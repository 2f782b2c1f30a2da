//! Health aggregator: classifies metric samples against per-dimension
//! thresholds, keeps a bounded history, and raises alerts for critical or
//! failed dimensions.
//!
//! Usage figures are centi-percent (`7000` stands for `70%`), rates are
//! per-mille, latencies are milliseconds and timestamps are seconds.

use vstd::prelude::*;

verus! {

#[derive(Debug, Clone, Copy, PartialEq, Eq, Structural)]
pub struct HealthMetrics {
    pub timestamp: u64,
    pub cpu_usage_centi_percent: u32,
    pub memory_usage_centi_percent: u32,
    pub disk_usage_centi_percent: u32,
    pub network_latency_ms: u32,
    pub process_count: usize,
    pub error_rate_permille: u32,
    pub success_rate_permille: u32,
    pub uptime_seconds: u64,
}

#[derive(Debug, Clone, PartialEq)]
pub enum HealthStatus {
    Healthy,
    Degraded(String),
    Critical(String),
    Failed(String),
}

/// Named probe result for one monitored dimension; updated on every
/// evaluation cycle, never deleted.
#[derive(Debug, Clone, PartialEq)]
pub struct HealthCheck {
    pub name: String,
    pub status: HealthStatus,
    pub last_check: u64,
    pub consecutive_failures: u32,
}

#[derive(Debug, Clone, Copy, PartialEq, Eq, Structural)]
pub struct HealthThresholds {
    pub cpu_warning_centi_percent: u32,
    pub cpu_critical_centi_percent: u32,
    pub memory_warning_centi_percent: u32,
    pub memory_critical_centi_percent: u32,
    pub disk_warning_centi_percent: u32,
    pub disk_critical_centi_percent: u32,
    pub error_rate_warning_permille: u32,
    pub error_rate_critical_permille: u32,
    pub max_consecutive_failures: u32,
}

#[derive(Debug, Clone, Copy, PartialEq, Eq, Structural)]
pub enum AlertSeverity {
    Info,
    Warning,
    Critical,
    Fatal,
}

/// Event record emitted when a dimension turns critical or failed; consumed
/// by observers registered outside the library, not persisted past delivery.
#[derive(Debug, Clone, PartialEq)]
pub struct HealthAlert {
    pub timestamp: u64,
    pub severity: AlertSeverity,
    pub component: String,
    pub message: String,
    pub metrics: Option<HealthMetrics>,
}

#[derive(Debug, Clone, PartialEq)]
pub struct HealthSummary {
    pub status: HealthStatus,
    pub metrics: HealthMetrics,
    pub checks: Vec<HealthCheck>,
    pub timestamp: u64,
}

pub open spec fn spec_default_health_thresholds() -> HealthThresholds {
    HealthThresholds {
        cpu_warning_centi_percent: 7000,
        cpu_critical_centi_percent: 9000,
        memory_warning_centi_percent: 7500,
        memory_critical_centi_percent: 9000,
        disk_warning_centi_percent: 8000,
        disk_critical_centi_percent: 9500,
        error_rate_warning_permille: 50,
        error_rate_critical_permille: 100,
        max_consecutive_failures: 3,
    }
}

impl Default for HealthThresholds {
    fn default() -> (r: Self)
        ensures
            r == spec_default_health_thresholds(),
    {
        HealthThresholds {
            cpu_warning_centi_percent: 7000,
            cpu_critical_centi_percent: 9000,
            memory_warning_centi_percent: 7500,
            memory_critical_centi_percent: 9000,
            disk_warning_centi_percent: 8000,
            disk_critical_centi_percent: 9500,
            error_rate_warning_permille: 50,
            error_rate_critical_permille: 100,
            max_consecutive_failures: 3,
        }
    }
}

/// Severity order of statuses: Failed > Critical > Degraded > Healthy.
pub open spec fn spec_status_rank(s: HealthStatus) -> int {
    match s {
        HealthStatus::Healthy => 0,
        HealthStatus::Degraded(_) => 1,
        HealthStatus::Critical(_) => 2,
        HealthStatus::Failed(_) => 3,
    }
}

/// Severity level of a usage value against a warning and a critical
/// threshold: 2 above critical, 1 above warning, 0 otherwise.
pub open spec fn spec_dim_level(value: int, warning: int, critical: int) -> int {
    if value > critical {
        2
    } else if value > warning {
        1
    } else {
        0
    }
}

/// Network latency level: critical above 100 ms, degraded above 50 ms.
pub open spec fn spec_latency_level(ms: int) -> int {
    spec_dim_level(ms, 50, 100)
}

pub open spec fn spec_status_at_level(s: HealthStatus, level: int, msg: Seq<char>) -> bool {
    if level == 0 {
        s is Healthy
    } else if level == 1 {
        s matches HealthStatus::Degraded(m) && m@ == msg
    } else if level == 2 {
        s matches HealthStatus::Critical(m) && m@ == msg
    } else {
        s matches HealthStatus::Failed(m) && m@ == msg
    }
}

/// A missing process count is a failure regardless of thresholds; an
/// excessive one only degrades.
pub open spec fn spec_process_status(s: HealthStatus, count: int) -> bool {
    if count == 0 {
        s matches HealthStatus::Failed(m) && m@ == "no processes running"@
    } else if count > 100 {
        s matches HealthStatus::Degraded(m) && m@ == "high process count"@
    } else {
        s is Healthy
    }
}

pub open spec fn spec_check_ok(
    c: HealthCheck,
    name: Seq<char>,
    level: int,
    msg: Seq<char>,
    at: int,
    prev_failures: u32,
) -> bool {
    &&& c.name@ == name
    &&& c.last_check == at
    &&& c.consecutive_failures == prev_failures
    &&& spec_status_at_level(c.status, level, msg)
}

/// The five health checks a sample establishes, in their fixed order, as a
/// function of the sampled metrics and the thresholds.
pub open spec fn spec_checks_for(
    t: HealthThresholds,
    m: HealthMetrics,
    prev: Seq<u32>,
    checks: Seq<HealthCheck>,
) -> bool {
    &&& checks.len() == 5
    &&& prev.len() == 5
    &&& spec_check_ok(
        checks[0],
        "cpu"@,
        spec_dim_level(
            m.cpu_usage_centi_percent as int,
            t.cpu_warning_centi_percent as int,
            t.cpu_critical_centi_percent as int,
        ),
        "cpu usage over threshold"@,
        m.timestamp as int,
        prev[0],
    )
    &&& spec_check_ok(
        checks[1],
        "memory"@,
        spec_dim_level(
            m.memory_usage_centi_percent as int,
            t.memory_warning_centi_percent as int,
            t.memory_critical_centi_percent as int,
        ),
        "memory usage over threshold"@,
        m.timestamp as int,
        prev[1],
    )
    &&& spec_check_ok(
        checks[2],
        "disk"@,
        spec_dim_level(
            m.disk_usage_centi_percent as int,
            t.disk_warning_centi_percent as int,
            t.disk_critical_centi_percent as int,
        ),
        "disk usage over threshold"@,
        m.timestamp as int,
        prev[2],
    )
    &&& spec_check_ok(
        checks[3],
        "network"@,
        spec_latency_level(m.network_latency_ms as int),
        "network latency high"@,
        m.timestamp as int,
        prev[3],
    )
    &&& checks[4].name@ == "processes"@
    &&& checks[4].last_check == m.timestamp
    &&& checks[4].consecutive_failures == prev[4]
    &&& spec_process_status(checks[4].status, m.process_count as int)
}

/// History entries older than 24 hours leave on every cycle.
pub open spec fn spec_recent_history(s: Seq<HealthMetrics>, cutoff: int) -> Seq<HealthMetrics>
    decreases s.len(),
{
    if s.len() == 0 {
        Seq::empty()
    } else {
        let rest = spec_recent_history(s.drop_last(), cutoff);
        if s.last().timestamp > cutoff {
            rest.push(s.last())
        } else {
            rest
        }
    }
}

/// One alert per critical or failed check, in check order: critical checks
/// alert at severity Critical, failed checks at severity Fatal, each alert
/// carrying the check's message and the snapshot that produced it.
pub open spec fn spec_alerts_match(
    checks: Seq<HealthCheck>,
    alerts: Seq<HealthAlert>,
    m: HealthMetrics,
) -> bool
    decreases checks.len(),
{
    if checks.len() == 0 {
        alerts.len() == 0
    } else {
        let c = checks.last();
        if spec_status_rank(c.status) >= 2 {
            &&& alerts.len() > 0
            &&& spec_alert_for(alerts.last(), c, m)
            &&& spec_alerts_match(checks.drop_last(), alerts.drop_last(), m)
        } else {
            spec_alerts_match(checks.drop_last(), alerts, m)
        }
    }
}

pub open spec fn spec_alert_for(a: HealthAlert, c: HealthCheck, m: HealthMetrics) -> bool {
    &&& a.timestamp == m.timestamp
    &&& a.component@ == c.name@
    &&& a.metrics == Some(m)
    &&& match c.status {
        HealthStatus::Critical(msg) => a.severity == AlertSeverity::Critical && a.message@ == msg@,
        HealthStatus::Failed(msg) => a.severity == AlertSeverity::Fatal && a.message@ == msg@,
        _ => false,
    }
}

/// The overall status is the strict maximum severity of the individual
/// checks: every check ranks at or below it, and some check reaches it
/// whenever any check exists.
pub open spec fn spec_overall_ok(checks: Seq<HealthCheck>, r: HealthStatus) -> bool {
    &&& forall|i: int|
        0 <= i < checks.len() ==> spec_status_rank(#[trigger] checks[i].status) <= spec_status_rank(r)
    &&& checks.len() > 0 || r is Healthy
    &&& r is Healthy || exists|i: int|
        0 <= i < checks.len() && spec_status_rank(#[trigger] checks[i].status) == spec_status_rank(r)
    &&& (r matches HealthStatus::Failed(m) ==> m@ == "system failure detected"@)
    &&& (r matches HealthStatus::Critical(m) ==> m@ == "critical issues detected"@)
    &&& (r matches HealthStatus::Degraded(m) ==> m@ == "system degraded"@)
}

/// Health aggregator: owns the current snapshot, the check table and the
/// bounded metrics history.
pub struct HealthMonitor {
    pub thresholds: HealthThresholds,
    pub current_metrics: HealthMetrics,
    pub checks: Vec<HealthCheck>,
    pub metrics_history: Vec<HealthMetrics>,
    pub monitoring_interval_seconds: u64,
}

pub open spec fn spec_default_metrics() -> HealthMetrics {
    HealthMetrics {
        timestamp: 0,
        cpu_usage_centi_percent: 0,
        memory_usage_centi_percent: 0,
        disk_usage_centi_percent: 0,
        network_latency_ms: 0,
        process_count: 1,
        error_rate_permille: 0,
        success_rate_permille: 1000,
        uptime_seconds: 0,
    }
}

impl HealthMonitor {
    /// The check table is empty before the first sample and afterwards holds
    /// exactly the five monitored dimensions.
    pub open spec fn wf(self) -> bool {
        self.checks@.len() == 0 || self.checks@.len() == 5
    }

    pub fn new() -> (r: Self)
        ensures
            r.wf(),
            r.thresholds == spec_default_health_thresholds(),
            r.current_metrics == spec_default_metrics(),
            r.checks@.len() == 0,
            r.metrics_history@.len() == 0,
            r.monitoring_interval_seconds == 30,
    {
        HealthMonitor {
            thresholds: Default::default(),
            current_metrics: HealthMonitor::default_metrics(),
            checks: Vec::new(),
            metrics_history: Vec::new(),
            monitoring_interval_seconds: 30,
        }
    }

    pub fn default_metrics() -> (r: HealthMetrics)
        ensures
            r == spec_default_metrics(),
    {
        HealthMetrics {
            timestamp: 0,
            cpu_usage_centi_percent: 0,
            memory_usage_centi_percent: 0,
            disk_usage_centi_percent: 0,
            network_latency_ms: 0,
            process_count: 1,
            error_rate_permille: 0,
            success_rate_permille: 1000,
            uptime_seconds: 0,
        }
    }

    /// One sampling cycle: adopt the reading as the current snapshot, append
    /// it to the history and drop entries older than 24 hours, re-evaluate
    /// the five checks, and return the alerts owed for critical or failed
    /// dimensions, for the caller to deliver to its observers.
    pub fn sample_once(&mut self, reading: HealthMetrics) -> (alerts: Vec<HealthAlert>)
        requires
            old(self).wf(),
        ensures
            final(self).wf(),
            final(self).current_metrics == reading,
            final(self).checks@.len() == 5,
            spec_checks_for(
                old(self).thresholds,
                reading,
                spec_prev_failures(old(self).checks@),
                final(self).checks@,
            ),
            final(self).metrics_history@ == spec_recent_history(
                old(self).metrics_history@.push(reading),
                reading.timestamp - 86400,
            ),
            spec_alerts_match(final(self).checks@, alerts@, reading),
            final(self).thresholds == old(self).thresholds,
            final(self).monitoring_interval_seconds == old(self).monitoring_interval_seconds,
    {
        self.current_metrics = reading;
        self.metrics_history.push(reading);
        self.prune_history(reading.timestamp);
        self.run_health_checks(reading);
        self.collect_alerts(reading)
    }

    fn prune_history(&mut self, now: u64)
        ensures
            final(self).metrics_history@ == spec_recent_history(
                old(self).metrics_history@,
                now - 86400,
            ),
            final(self).thresholds == old(self).thresholds,
            final(self).current_metrics == old(self).current_metrics,
            final(self).checks@ == old(self).checks@,
            final(self).monitoring_interval_seconds == old(self).monitoring_interval_seconds,
    {
        let cutoff_known: bool = now >= 86400;
        let cutoff: u64 = if cutoff_known {
            now - 86400
        } else {
            0
        };
        let mut kept: Vec<HealthMetrics> = Vec::new();
        let n: usize = self.metrics_history.len();
        let mut i: usize = 0;
        while i < n
            invariant
                i <= n,
                n == self.metrics_history@.len(),
                cutoff_known ==> cutoff == now - 86400,
                !cutoff_known ==> now < 86400,
                kept@ == spec_recent_history(
                    self.metrics_history@.subrange(0, i as int),
                    now - 86400,
                ),
            decreases n - i,
        {
            let m: HealthMetrics = self.metrics_history[i];
            let keep: bool = if cutoff_known {
                m.timestamp > cutoff
            } else {
                true
            };
            if keep {
                kept.push(m);
            }
            i = i + 1;
            proof {
                let s = self.metrics_history@.subrange(0, i as int);
                assert(s.drop_last() =~= self.metrics_history@.subrange(0, i - 1));
                assert(s.last() == self.metrics_history@[i - 1]);
            }
        }
        proof {
            assert(self.metrics_history@.subrange(0, n as int) =~= self.metrics_history@);
        }
        self.metrics_history = kept;
    }

    fn run_health_checks(&mut self, m: HealthMetrics)
        requires
            old(self).wf(),
        ensures
            final(self).checks@.len() == 5,
            spec_checks_for(
                old(self).thresholds,
                m,
                spec_prev_failures(old(self).checks@),
                final(self).checks@,
            ),
            final(self).thresholds == old(self).thresholds,
            final(self).current_metrics == old(self).current_metrics,
            final(self).metrics_history@ == old(self).metrics_history@,
            final(self).monitoring_interval_seconds == old(self).monitoring_interval_seconds,
    {
        let prev0: u32 = if self.checks.len() == 5 {
            self.checks[0].consecutive_failures
        } else {
            0
        };
        let prev1: u32 = if self.checks.len() == 5 {
            self.checks[1].consecutive_failures
        } else {
            0
        };
        let prev2: u32 = if self.checks.len() == 5 {
            self.checks[2].consecutive_failures
        } else {
            0
        };
        let prev3: u32 = if self.checks.len() == 5 {
            self.checks[3].consecutive_failures
        } else {
            0
        };
        let prev4: u32 = if self.checks.len() == 5 {
            self.checks[4].consecutive_failures
        } else {
            0
        };
        let mut checks: Vec<HealthCheck> = Vec::new();
        checks.push(
            HealthCheck {
                name: "cpu".to_owned(),
                status: classify_dimension(
                    m.cpu_usage_centi_percent,
                    self.thresholds.cpu_warning_centi_percent,
                    self.thresholds.cpu_critical_centi_percent,
                    "cpu usage over threshold",
                ),
                last_check: m.timestamp,
                consecutive_failures: prev0,
            },
        );
        checks.push(
            HealthCheck {
                name: "memory".to_owned(),
                status: classify_dimension(
                    m.memory_usage_centi_percent,
                    self.thresholds.memory_warning_centi_percent,
                    self.thresholds.memory_critical_centi_percent,
                    "memory usage over threshold",
                ),
                last_check: m.timestamp,
                consecutive_failures: prev1,
            },
        );
        checks.push(
            HealthCheck {
                name: "disk".to_owned(),
                status: classify_dimension(
                    m.disk_usage_centi_percent,
                    self.thresholds.disk_warning_centi_percent,
                    self.thresholds.disk_critical_centi_percent,
                    "disk usage over threshold",
                ),
                last_check: m.timestamp,
                consecutive_failures: prev2,
            },
        );
        checks.push(
            HealthCheck {
                name: "network".to_owned(),
                status: classify_dimension(m.network_latency_ms, 50, 100, "network latency high"),
                last_check: m.timestamp,
                consecutive_failures: prev3,
            },
        );
        checks.push(
            HealthCheck {
                name: "processes".to_owned(),
                status: classify_processes(m.process_count),
                last_check: m.timestamp,
                consecutive_failures: prev4,
            },
        );
        self.checks = checks;
    }

    fn collect_alerts(&self, m: HealthMetrics) -> (alerts: Vec<HealthAlert>)
        ensures
            spec_alerts_match(self.checks@, alerts@, m),
    {
        let mut alerts: Vec<HealthAlert> = Vec::new();
        let n: usize = self.checks.len();
        let mut i: usize = 0;
        while i < n
            invariant
                i <= n,
                n == self.checks@.len(),
                spec_alerts_match(self.checks@.subrange(0, i as int), alerts@, m),
            decreases n - i,
        {
            let ghost prev_alerts = alerts@;
            let c = &self.checks[i];
            match &c.status {
                HealthStatus::Critical(msg) => {
                    alerts.push(
                        HealthAlert {
                            timestamp: m.timestamp,
                            severity: AlertSeverity::Critical,
                            component: c.name.clone(),
                            message: msg.clone(),
                            metrics: Some(m),
                        },
                    );
                },
                HealthStatus::Failed(msg) => {
                    alerts.push(
                        HealthAlert {
                            timestamp: m.timestamp,
                            severity: AlertSeverity::Fatal,
                            component: c.name.clone(),
                            message: msg.clone(),
                            metrics: Some(m),
                        },
                    );
                },
                _ => {},
            }
            i = i + 1;
            proof {
                let s = self.checks@.subrange(0, i as int);
                assert(s.drop_last() =~= self.checks@.subrange(0, i - 1));
                assert(s.last() == self.checks@[i - 1]);
                if spec_status_rank(self.checks@[i - 1].status) >= 2 {
                    assert(alerts@.drop_last() =~= prev_alerts);
                }
            }
        }
        proof {
            assert(self.checks@.subrange(0, n as int) =~= self.checks@);
        }
        alerts
    }

    /// Pure read of the best-known state: the current snapshot, a copy of
    /// the check table, and the overall status computed as the strict
    /// maximum severity of the checks. Two reads with no intervening sample
    /// describe the same state.
    pub fn get_current_health(&self) -> (r: HealthSummary)
        ensures
            r.metrics == self.current_metrics,
            r.timestamp == self.current_metrics.timestamp,
            r.checks@ == self.checks@,
            spec_overall_ok(self.checks@, r.status),
    {
        let status = calculate_overall_status(&self.checks);
        let checks = duplicate_checks(&self.checks);
        HealthSummary {
            status,
            metrics: self.current_metrics,
            checks,
            timestamp: self.current_metrics.timestamp,
        }
    }
}

/// Consecutive-failure counters carried over from the previous cycle's
/// checks; zero before the first cycle.
pub open spec fn spec_prev_failures(checks: Seq<HealthCheck>) -> Seq<u32> {
    if checks.len() == 5 {
        Seq::new(5, |i: int| checks[i].consecutive_failures)
    } else {
        Seq::new(5, |i: int| 0u32)
    }
}

fn classify_dimension(value: u32, warning: u32, critical: u32, msg: &str) -> (r: HealthStatus)
    ensures
        spec_status_at_level(r, spec_dim_level(value as int, warning as int, critical as int), msg@),
{
    if value > critical {
        HealthStatus::Critical(msg.to_owned())
    } else if value > warning {
        HealthStatus::Degraded(msg.to_owned())
    } else {
        HealthStatus::Healthy
    }
}

fn classify_processes(count: usize) -> (r: HealthStatus)
    ensures
        spec_process_status(r, count as int),
{
    if count == 0 {
        HealthStatus::Failed("no processes running".to_owned())
    } else if count > 100 {
        HealthStatus::Degraded("high process count".to_owned())
    } else {
        HealthStatus::Healthy
    }
}

fn duplicate_status(s: &HealthStatus) -> (r: HealthStatus)
    ensures
        r == *s,
{
    match s {
        HealthStatus::Healthy => HealthStatus::Healthy,
        HealthStatus::Degraded(m) => HealthStatus::Degraded(m.clone()),
        HealthStatus::Critical(m) => HealthStatus::Critical(m.clone()),
        HealthStatus::Failed(m) => HealthStatus::Failed(m.clone()),
    }
}

fn duplicate_checks(checks: &Vec<HealthCheck>) -> (r: Vec<HealthCheck>)
    ensures
        r@ == checks@,
{
    let mut out: Vec<HealthCheck> = Vec::new();
    let n: usize = checks.len();
    let mut i: usize = 0;
    while i < n
        invariant
            i <= n,
            n == checks@.len(),
            out@ == checks@.subrange(0, i as int),
        decreases n - i,
    {
        let c = &checks[i];
        out.push(
            HealthCheck {
                name: c.name.clone(),
                status: duplicate_status(&c.status),
                last_check: c.last_check,
                consecutive_failures: c.consecutive_failures,
            },
        );
        i = i + 1;
        proof {
            assert(out@ =~= checks@.subrange(0, i as int));
        }
    }
    proof {
        assert(checks@.subrange(0, n as int) =~= checks@);
    }
    out
}

/// Worst of all dimension statuses, in the priority order
/// Failed > Critical > Degraded > Healthy.
pub fn calculate_overall_status(checks: &Vec<HealthCheck>) -> (r: HealthStatus)
    ensures
        spec_overall_ok(checks@, r),
{
    let mut has_failed: bool = false;
    let mut has_critical: bool = false;
    let mut has_degraded: bool = false;
    let n: usize = checks.len();
    let mut i: usize = 0;
    while i < n
        invariant
            i <= n,
            n == checks@.len(),
            has_failed == exists|j: int|
                0 <= j < i && spec_status_rank(#[trigger] checks@[j].status) == 3,
            has_critical == exists|j: int|
                0 <= j < i && spec_status_rank(#[trigger] checks@[j].status) == 2,
            has_degraded == exists|j: int|
                0 <= j < i && spec_status_rank(#[trigger] checks@[j].status) == 1,
        decreases n - i,
    {
        match &checks[i].status {
            HealthStatus::Failed(_) => {
                has_failed = true;
            },
            HealthStatus::Critical(_) => {
                has_critical = true;
            },
            HealthStatus::Degraded(_) => {
                has_degraded = true;
            },
            HealthStatus::Healthy => {},
        }
        i = i + 1;
    }
    if has_failed {
        HealthStatus::Failed("system failure detected".to_owned())
    } else if has_critical {
        HealthStatus::Critical("critical issues detected".to_owned())
    } else if has_degraded {
        HealthStatus::Degraded("system degraded".to_owned())
    } else {
        HealthStatus::Healthy
    }
}

} // verus!
