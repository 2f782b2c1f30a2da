//! Self-management core of an autonomous fleet agent.
//!
//! The library is organised around five cooperating subsystems: the decision
//! engine maps observed state to an action, the health monitor classifies
//! metric samples against thresholds, the recovery manager turns failures
//! into ordered remediation plans, the task scheduler owns a priority queue
//! of retryable work, and the agent composes the four and aggregates status.
//! All quantities that the domain measures as fractions (health
//! scores, usage percentages, rates) are carried as scaled integers:
//! per-mille for values in [0, 1] and centi-percent for percentages.

pub mod autonomous_agent;
pub mod common;
pub mod decision_maker;
pub mod deployment;
pub mod health_monitor;
pub mod monitoring;
pub mod recovery_manager;
pub mod self_replicator;
pub mod server_config;
pub mod task_scheduler;
pub mod text;

pub use autonomous_agent::AutonomousAgent;
pub use decision_maker::AutonomousDecisionMaker;
pub use health_monitor::HealthMonitor;
pub use recovery_manager::RecoveryManager;
pub use self_replicator::SelfReplicator;
pub use server_config::{ServerConfig, TargetServer};
pub use task_scheduler::TaskScheduler;
