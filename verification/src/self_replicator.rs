//! Replication bookkeeping: which hosts are eligible deployment targets,
//! which replicas are active, and what each attempt did. Copying the binary
//! to a host over the network is the caller's work; this module decides what
//! to attempt and books every outcome.

use vstd::prelude::*;
use crate::server_config::{
    spec_expanded_key_path, spec_some_server_has_id, spec_sorted_by_priority, ServerConfig,
    TargetServer,
};
use crate::text::str_eq;

verus! {

/// A host eligible to receive a replica, with its attempt statistics.
#[derive(Debug, Clone)]
pub struct ReplicationTarget {
    pub ip: String,
    pub user: String,
    pub ssh_key_path: String,
    pub remote_path: String,
    pub priority: u8,
    pub last_attempt: Option<u64>,
    pub success_count: u32,
    pub failure_count: u32,
}

/// One replication attempt's outcome.
#[derive(Debug, Clone)]
pub struct ReplicationResult {
    pub target: String,
    pub success: bool,
    pub timestamp: u64,
    pub duration_seconds: u64,
    pub error: Option<String>,
}

#[derive(Debug, Clone, Copy, PartialEq, Eq, Structural)]
pub struct ReplicationStrategy {
    pub max_replicas: usize,
    pub min_replicas: usize,
    pub replication_interval_seconds: u64,
    pub retry_attempts: u32,
    pub health_check_interval: u64,
    pub auto_scale: bool,
}

pub open spec fn spec_default_strategy() -> ReplicationStrategy {
    ReplicationStrategy {
        max_replicas: 5,
        min_replicas: 2,
        replication_interval_seconds: 300,
        retry_attempts: 3,
        health_check_interval: 60,
        auto_scale: true,
    }
}

impl Default for ReplicationStrategy {
    fn default() -> (r: Self)
        ensures
            r == spec_default_strategy(),
    {
        ReplicationStrategy {
            max_replicas: 5,
            min_replicas: 2,
            replication_interval_seconds: 300,
            retry_attempts: 3,
            health_check_interval: 60,
            auto_scale: true,
        }
    }
}

#[derive(Debug, Clone, Copy, PartialEq, Eq, Structural)]
pub struct ReplicationStatus {
    pub active_replicas: usize,
    pub total_targets: usize,
    pub recent_failures: usize,
    pub strategy: ReplicationStrategy,
}

/// Relies on rand 0.8's `rand::random`, a draw from the thread-local
/// generator; nothing can be promised of the value drawn.
pub assume_specification<T>[ rand::random::<T> ]() -> (r: T)
    where
        rand::distributions::Standard: rand::distributions::Distribution<T>,
;

/// A target built from a configured server: same coordinates, statistics
/// zeroed. The priority is taken modulo 256, as the target's narrower field
/// forces.
pub open spec fn spec_target_from_server(s: TargetServer, t: ReplicationTarget) -> bool {
    &&& t.ip@ == s.ip@
    &&& t.user@ == s.username@
    &&& t.remote_path@ == s.remote_path@
    &&& t.priority == s.priority as u8
    &&& t.last_attempt is None
    &&& t.success_count == 0
    &&& t.failure_count == 0
    &&& match s.ssh_key_path {
        Some(p) => exists|h: Option<Seq<char>>| t.ssh_key_path@ == spec_expanded_key_path(p@, h),
        None => t.ssh_key_path@ == "~/.ssh/id_rsa"@,
    }
}

/// Two targets carry the same facts.
pub open spec fn spec_target_like(a: ReplicationTarget, b: ReplicationTarget) -> bool {
    &&& a.ip@ == b.ip@
    &&& a.user@ == b.user@
    &&& a.ssh_key_path@ == b.ssh_key_path@
    &&& a.remote_path@ == b.remote_path@
    &&& a.priority == b.priority
    &&& a.last_attempt == b.last_attempt
    &&& a.success_count == b.success_count
    &&& a.failure_count == b.failure_count
}

pub open spec fn spec_targets_like(a: Seq<ReplicationTarget>, b: Seq<ReplicationTarget>) -> bool {
    a.len() == b.len() && forall|i: int| 0 <= i < a.len() ==> spec_target_like(
        #[trigger] a[i],
        b[i],
    )
}

pub open spec fn spec_active_contains(active: Seq<(String, u64)>, ip: Seq<char>) -> bool {
    exists|i: int| 0 <= i < active.len() && (#[trigger] active[i]).0@ == ip
}

/// The first `k` targets that are not already active, in order.
pub open spec fn spec_candidates(
    targets: Seq<ReplicationTarget>,
    active: Seq<(String, u64)>,
    k: int,
) -> Seq<ReplicationTarget>
    decreases targets.len(),
{
    if targets.len() == 0 || k <= 0 {
        Seq::empty()
    } else {
        let prefix = if targets.len() <= k {
            targets
        } else {
            targets.subrange(0, k)
        };
        spec_filter_nonactive(prefix, active)
    }
}

pub open spec fn spec_filter_nonactive(
    targets: Seq<ReplicationTarget>,
    active: Seq<(String, u64)>,
) -> Seq<ReplicationTarget>
    decreases targets.len(),
{
    if targets.len() == 0 {
        Seq::empty()
    } else {
        let rest = spec_filter_nonactive(targets.drop_last(), active);
        if spec_active_contains(active, targets.last().ip@) {
            rest
        } else {
            rest.push(targets.last())
        }
    }
}

/// The active-replica list without the given ip.
pub open spec fn spec_active_without(s: Seq<(String, u64)>, ip: Seq<char>) -> Seq<(String, u64)>
    decreases s.len(),
{
    if s.len() == 0 {
        Seq::empty()
    } else {
        let rest = spec_active_without(s.drop_last(), ip);
        if s.last().0@ == ip {
            rest
        } else {
            rest.push(s.last())
        }
    }
}

pub open spec fn spec_recent_failure_count(s: Seq<ReplicationResult>, cutoff: int) -> int
    decreases s.len(),
{
    if s.len() == 0 {
        0
    } else {
        spec_recent_failure_count(s.drop_last(), cutoff) + if !s.last().success
            && s.last().timestamp > cutoff {
            1int
        } else {
            0int
        }
    }
}

/// Replication state: the eligible targets, the replicas believed active,
/// the bounded attempt history, and the static topology configuration it
/// was loaded from, if any.
pub struct SelfReplicator {
    pub strategy: ReplicationStrategy,
    pub targets: Vec<ReplicationTarget>,
    pub active_replicas: Vec<(String, u64)>,
    pub replication_history: Vec<ReplicationResult>,
    pub binary_path: String,
    pub server_config: Option<ServerConfig>,
}

impl SelfReplicator {
    pub fn new(binary_path: String) -> (r: Self)
        ensures
            r.strategy == spec_default_strategy(),
            r.targets@.len() == 0,
            r.active_replicas@.len() == 0,
            r.replication_history@.len() == 0,
            r.binary_path@ == binary_path@,
            r.server_config is None,
    {
        SelfReplicator {
            strategy: Default::default(),
            targets: Vec::new(),
            active_replicas: Vec::new(),
            replication_history: Vec::new(),
            binary_path,
            server_config: None,
        }
    }

    /// State initialized from a loaded topology configuration: the enabled
    /// servers become targets, in ascending priority order.
    pub fn from_config(binary_path: String, config: ServerConfig) -> (r: Self)
        ensures
            r.strategy == spec_default_strategy(),
            exists|sorted: Seq<TargetServer>|
                {
                    &&& #[trigger] spec_sorted_by_priority(sorted)
                    &&& sorted.to_multiset() == crate::server_config::spec_enabled_servers(
                        config.target_servers@,
                    ).to_multiset()
                    &&& r.targets@.len() == sorted.len()
                    &&& forall|i: int|
                        0 <= i < sorted.len() ==> spec_target_from_server(
                            #[trigger] sorted[i],
                            r.targets@[i],
                        )
                },
            r.active_replicas@.len() == 0,
            r.replication_history@.len() == 0,
            r.binary_path@ == binary_path@,
            r.server_config matches Some(c) && c == config,
    {
        let targets = targets_from_config(&config);
        SelfReplicator {
            strategy: Default::default(),
            targets,
            active_replicas: Vec::new(),
            replication_history: Vec::new(),
            binary_path,
            server_config: Some(config),
        }
    }

    pub fn with_strategy(self, strategy: ReplicationStrategy) -> (r: Self)
        ensures
            r.strategy == strategy,
            r.targets@ == self.targets@,
            r.active_replicas@ == self.active_replicas@,
            r.replication_history@ == self.replication_history@,
            r.binary_path == self.binary_path,
            r.server_config == self.server_config,
    {
        SelfReplicator { strategy, ..self }
    }

    /// Replace the targets with the enabled servers of a freshly loaded
    /// configuration, in ascending priority order, and adopt that
    /// configuration; returns how many targets stand afterwards.
    pub fn reload_targets_from_config(&mut self, config: ServerConfig) -> (count: usize)
        ensures
            count == final(self).targets@.len(),
            exists|sorted: Seq<TargetServer>|
                {
                    &&& #[trigger] spec_sorted_by_priority(sorted)
                    &&& sorted.to_multiset() == crate::server_config::spec_enabled_servers(
                        config.target_servers@,
                    ).to_multiset()
                    &&& final(self).targets@.len() == sorted.len()
                    &&& forall|i: int|
                        0 <= i < sorted.len() ==> spec_target_from_server(
                            #[trigger] sorted[i],
                            final(self).targets@[i],
                        )
                },
            final(self).server_config matches Some(c) && c == config,
            final(self).active_replicas@ == old(self).active_replicas@,
            final(self).replication_history@ == old(self).replication_history@,
            final(self).strategy == old(self).strategy,
            final(self).binary_path == old(self).binary_path,
    {
        let targets = targets_from_config(&config);
        let count = targets.len();
        self.targets = targets;
        self.server_config = Some(config);
        count
    }

    /// Add a server to the adopted configuration and to the runtime targets;
    /// rejected when no configuration is loaded or the id already exists,
    /// with nothing changed. Persisting the grown configuration is the
    /// caller's work.
    pub fn add_server_to_config(&mut self, server: TargetServer) -> (r: Result<(), String>)
        ensures
            old(self).server_config is None ==> (r matches Err(m) && m@
                == "no server configuration loaded"@ && *final(self) == *old(self)),
            old(self).server_config matches Some(c) ==> {
                if crate::server_config::spec_some_server_has_id(c.target_servers@, server.id@) {
                    &&& r matches Err(m) && m@ == "a server with this id already exists"@
                    &&& final(self).server_config matches Some(c2)
                        && c2.target_servers@ == c.target_servers@
                    &&& final(self).targets@ == old(self).targets@
                } else {
                    &&& r is Ok
                    &&& final(self).server_config matches Some(c2) && c2.target_servers@
                        == c.target_servers@.push(server)
                    &&& final(self).targets@.len() == old(self).targets@.len() + 1
                    &&& final(self).targets@.subrange(0, old(self).targets@.len() as int) == old(
                        self,
                    ).targets@
                    &&& spec_target_from_server(server, final(self).targets@.last())
                }
            },
            final(self).active_replicas@ == old(self).active_replicas@,
            final(self).replication_history@ == old(self).replication_history@,
            final(self).strategy == old(self).strategy,
            final(self).binary_path == old(self).binary_path,
    {
        let mut taken: Option<ServerConfig> = None;
        core::mem::swap(&mut taken, &mut self.server_config);
        match taken {
            None => {
                proof {
                    assert(*final(self) =~= *old(self)) by {
                        assert(final(self).server_config == old(self).server_config);
                    }
                }
                Err("no server configuration loaded".to_owned())
            },
            Some(mut config) => {
                let target = ReplicationTarget {
                    ip: server.ip.clone(),
                    user: server.username.clone(),
                    ssh_key_path: server.get_expanded_ssh_key_path(),
                    remote_path: server.remote_path.clone(),
                    priority: #[verifier::truncate] (server.priority as u8),
                    last_attempt: None,
                    success_count: 0,
                    failure_count: 0,
                };
                proof {
                    assert(spec_target_from_server(server, target));
                }
                match config.add_server(server) {
                    Ok(()) => {
                        self.targets.push(target);
                        self.server_config = Some(config);
                        Ok(())
                    },
                    Err(m) => {
                        self.server_config = Some(config);
                        Err(m)
                    },
                }
            },
        }
    }

    /// The servers of the adopted configuration, as copies; empty when no
    /// configuration is loaded.
    pub fn get_configured_servers(&self) -> (r: Vec<TargetServer>)
        ensures
            match self.server_config {
                None => r@.len() == 0,
                Some(c) => r@.len() == c.target_servers@.len() && forall|i: int|
                    0 <= i < r@.len() ==> spec_server_like(#[trigger] r@[i], c.target_servers@[i]),
            },
    {
        match &self.server_config {
            None => Vec::new(),
            Some(config) => {
                let n: usize = config.target_servers.len();
                let mut out: Vec<TargetServer> = Vec::new();
                let mut i: usize = 0;
                while i < n
                    invariant
                        i <= n,
                        n == config.target_servers@.len(),
                        out@.len() == i,
                        forall|q: int|
                            0 <= q < i ==> spec_server_like(
                                #[trigger] out@[q],
                                config.target_servers@[q],
                            ),
                    decreases n - i,
                {
                    out.push(duplicate_server(&config.target_servers[i]));
                    i = i + 1;
                }
                out
            },
        }
    }

    /// Add a target, keeping the list ordered by ascending priority.
    pub fn add_target(&mut self, target: ReplicationTarget)
        ensures
            final(self).targets@.to_multiset() == old(self).targets@.to_multiset().insert(target),
            spec_sorted_targets(old(self).targets@) ==> spec_sorted_targets(final(self).targets@),
            final(self).active_replicas@ == old(self).active_replicas@,
            final(self).replication_history@ == old(self).replication_history@,
            final(self).strategy == old(self).strategy,
            final(self).server_config == old(self).server_config,
            final(self).binary_path == old(self).binary_path,
    {
        let m: usize = self.targets.len();
        let mut pos: usize = 0;
        while pos < m && self.targets[pos].priority <= target.priority
            invariant
                pos <= m,
                m == self.targets@.len(),
                self.targets@ == old(self).targets@,
                forall|q: int| 0 <= q < pos ==> (#[trigger] self.targets@[q]).priority <= target.priority,
            decreases m - pos,
        {
            pos = pos + 1;
        }
        let stopped_short: bool = pos < m;
        self.targets.insert(pos, target);
        proof {
            vstd::seq_lib::to_multiset_insert(old(self).targets@, pos as int, target);
            if spec_sorted_targets(old(self).targets@) {
                let before = old(self).targets@;
                let after = self.targets@;
                assert(after =~= before.insert(pos as int, target));
                assert forall|a: int, b: int|
                    0 <= a < b < after.len() implies (#[trigger] after[a]).priority
                    <= (#[trigger] after[b]).priority by {
                    assert(forall|k: int| 0 <= k < pos ==> #[trigger] after[k] == before[k]);
                    assert(after[pos as int] == target);
                    assert(forall|k: int|
                        pos < k < after.len() ==> #[trigger] after[k] == before[k - 1]);
                    if stopped_short {
                        assert(before[pos as int].priority > target.priority);
                        assert(forall|k: int|
                            pos <= k < before.len() ==> target.priority <= (
                            #[trigger] before[k]).priority);
                    }
                }
            }
        }
    }

    /// Whether a replication pass is due: always when the active replicas
    /// fall below the minimum; possibly, on a scaling signal drawn at
    /// random, while auto-scaling below the maximum; never otherwise.
    pub fn should_replicate(&self) -> (r: bool)
        ensures
            self.active_replicas@.len() < self.strategy.min_replicas ==> r,
            r ==> self.active_replicas@.len() < self.strategy.min_replicas || (
            self.strategy.auto_scale && self.active_replicas@.len() < self.strategy.max_replicas),
    {
        let active_count = self.active_replicas.len();
        if active_count < self.strategy.min_replicas {
            return true;
        }
        if self.strategy.auto_scale && active_count < self.strategy.max_replicas {
            return check_scaling_conditions();
        }
        false
    }

    /// The targets a replication pass should attempt: among the first
    /// `min_replicas - active` targets, those not already active, as copies
    /// for the caller to deploy to.
    pub fn replication_candidates(&self) -> (r: Vec<ReplicationTarget>)
        ensures
            spec_targets_like(
                r@,
                spec_candidates(
                    self.targets@,
                    self.active_replicas@,
                    self.strategy.min_replicas - self.active_replicas@.len(),
                ),
            ),
    {
        let needed: usize = if self.strategy.min_replicas > self.active_replicas.len() {
            self.strategy.min_replicas - self.active_replicas.len()
        } else {
            0
        };
        let n: usize = if needed < self.targets.len() {
            needed
        } else {
            self.targets.len()
        };
        let ghost goal = spec_candidates(
            self.targets@,
            self.active_replicas@,
            self.strategy.min_replicas - self.active_replicas@.len(),
        );
        proof {
            if self.targets@.len() == 0 || needed == 0 {
                assert(goal =~= spec_filter_nonactive(
                    self.targets@.subrange(0, n as int),
                    self.active_replicas@,
                ));
            } else if self.targets@.len() <= needed {
                assert(self.targets@.subrange(0, n as int) =~= self.targets@);
            }
        }
        let mut out: Vec<ReplicationTarget> = Vec::new();
        let mut i: usize = 0;
        while i < n
            invariant
                i <= n,
                n <= self.targets@.len(),
                spec_targets_like(
                    out@,
                    spec_filter_nonactive(
                        self.targets@.subrange(0, i as int),
                        self.active_replicas@,
                    ),
                ),
            decreases n - i,
        {
            let ghost before = out@;
            let t = &self.targets[i];
            if !self.is_active(t.ip.as_str()) {
                out.push(duplicate_target(t));
            }
            i = i + 1;
            proof {
                let s = self.targets@.subrange(0, i as int);
                assert(s.drop_last() =~= self.targets@.subrange(0, i - 1));
                assert(s.last() == self.targets@[i - 1]);
            }
        }
        proof {
            assert(goal =~= spec_filter_nonactive(
                self.targets@.subrange(0, n as int),
                self.active_replicas@,
            ));
        }
        out
    }

    fn is_active(&self, ip: &str) -> (r: bool)
        ensures
            r == spec_active_contains(self.active_replicas@, ip@),
    {
        let n: usize = self.active_replicas.len();
        let mut i: usize = 0;
        while i < n
            invariant
                i <= n,
                n == self.active_replicas@.len(),
                forall|j: int| 0 <= j < i ==> (#[trigger] self.active_replicas@[j]).0@ != ip@,
            decreases n - i,
        {
            if str_eq(self.active_replicas[i].0.as_str(), ip) {
                return true;
            }
            i = i + 1;
        }
        false
    }

    /// Book one attempt's outcome: the result joins the history; on success
    /// the target joins the active replicas (if not already there) and its
    /// success counter steps, on failure its failure counter steps; either
    /// way the target's last-attempt time is set. Counters saturate rather
    /// than wrap.
    pub fn record_replication(&mut self, result: ReplicationResult, now: u64)
        ensures
            final(self).replication_history@ == old(self).replication_history@.push(result),
            result.success && !spec_active_contains(old(self).active_replicas@, result.target@)
                ==> final(self).active_replicas@.len() == old(self).active_replicas@.len() + 1
                && final(self).active_replicas@.subrange(0, old(self).active_replicas@.len() as int)
                == old(self).active_replicas@ && final(self).active_replicas@.last().0@
                == result.target@ && final(self).active_replicas@.last().1 == now,
            !(result.success && !spec_active_contains(old(self).active_replicas@, result.target@))
                ==> final(self).active_replicas@ == old(self).active_replicas@,
            spec_stats_updated(old(self).targets@, final(self).targets@, result, now),
            final(self).strategy == old(self).strategy,
            final(self).server_config == old(self).server_config,
            final(self).binary_path == old(self).binary_path,
    {
        let ip = result.target.clone();
        let success = result.success;
        if success && !self.is_active(ip.as_str()) {
            self.active_replicas.push((result.target.clone(), now));
        }
        self.update_target_stats(ip.as_str(), success, now);
        self.replication_history.push(result);
    }

    fn update_target_stats(&mut self, ip: &str, success: bool, now: u64)
        ensures
            spec_stats_updated_ip(old(self).targets@, final(self).targets@, ip@, success, now),
            final(self).active_replicas@ == old(self).active_replicas@,
            final(self).replication_history@ == old(self).replication_history@,
            final(self).strategy == old(self).strategy,
            final(self).server_config == old(self).server_config,
            final(self).binary_path == old(self).binary_path,
    {
        let n: usize = self.targets.len();
        let mut i: usize = 0;
        while i < n
            invariant
                i <= n,
                n == old(self).targets@.len(),
                self.targets@ == old(self).targets@,
                self.active_replicas@ == old(self).active_replicas@,
                self.replication_history@ == old(self).replication_history@,
                self.strategy == old(self).strategy,
                self.server_config == old(self).server_config,
                self.binary_path == old(self).binary_path,
                forall|j: int| 0 <= j < i ==> (#[trigger] old(self).targets@[j]).ip@ != ip@,
            decreases n - i,
        {
            if str_eq(self.targets[i].ip.as_str(), ip) {
                let mut t = self.targets.remove(i);
                if success {
                    t.success_count = saturating_inc(t.success_count);
                } else {
                    t.failure_count = saturating_inc(t.failure_count);
                }
                t.last_attempt = Some(now);
                self.targets.insert(i, t);
                proof {
                    assert(self.targets@ =~= old(self).targets@.update(
                        i as int,
                        self.targets@[i as int],
                    ));
                }
                return ;
            }
            i = i + 1;
        }
    }

    /// Drop an ip from the active replicas, as the watchful caller does when
    /// a replica's process is found not running.
    pub fn mark_replica_down(&mut self, ip: &str)
        ensures
            final(self).active_replicas@ == spec_active_without(old(self).active_replicas@, ip@),
            final(self).targets@ == old(self).targets@,
            final(self).replication_history@ == old(self).replication_history@,
            final(self).strategy == old(self).strategy,
            final(self).server_config == old(self).server_config,
            final(self).binary_path == old(self).binary_path,
    {
        let mut input: Vec<(String, u64)> = Vec::new();
        core::mem::swap(&mut input, &mut self.active_replicas);
        let n: usize = input.len();
        let mut kept: Vec<(String, u64)> = Vec::new();
        let mut i: usize = 0;
        while i < n
            invariant
                i <= n,
                n == old(self).active_replicas@.len(),
                input@ == old(self).active_replicas@.subrange(i as int, n as int),
                kept@ == spec_active_without(
                    old(self).active_replicas@.subrange(0, i as int),
                    ip@,
                ),
            decreases n - i,
        {
            let entry = input.remove(0);
            proof {
                assert(entry == old(self).active_replicas@[i as int]);
                assert(input@ =~= old(self).active_replicas@.subrange(i + 1, n as int));
            }
            if !str_eq(entry.0.as_str(), ip) {
                kept.push(entry);
            }
            i = i + 1;
            proof {
                let s = old(self).active_replicas@.subrange(0, i as int);
                assert(s.drop_last() =~= old(self).active_replicas@.subrange(0, i - 1));
                assert(s.last() == old(self).active_replicas@[i - 1]);
            }
        }
        proof {
            assert(old(self).active_replicas@.subrange(0, n as int) =~= old(
                self,
            ).active_replicas@);
        }
        self.active_replicas = kept;
    }

    /// Keep only the most recent 1000 history entries.
    pub fn cleanup_history(&mut self)
        ensures
            final(self).replication_history@ == if old(self).replication_history@.len() > 1000 {
                old(self).replication_history@.subrange(
                    old(self).replication_history@.len() - 1000,
                    old(self).replication_history@.len() as int,
                )
            } else {
                old(self).replication_history@
            },
            final(self).targets@ == old(self).targets@,
            final(self).active_replicas@ == old(self).active_replicas@,
            final(self).strategy == old(self).strategy,
            final(self).server_config == old(self).server_config,
            final(self).binary_path == old(self).binary_path,
    {
        let len: usize = self.replication_history.len();
        if len <= 1000 {
            return ;
        }
        let excess: usize = len - 1000;
        let mut dropped: usize = 0;
        while dropped < excess
            invariant
                dropped <= excess,
                excess == old(self).replication_history@.len() - 1000,
                old(self).replication_history@.len() > 1000,
                self.replication_history@ == old(self).replication_history@.subrange(
                    dropped as int,
                    old(self).replication_history@.len() as int,
                ),
                self.targets@ == old(self).targets@,
                self.active_replicas@ == old(self).active_replicas@,
                self.strategy == old(self).strategy,
                self.server_config == old(self).server_config,
                self.binary_path == old(self).binary_path,
            decreases excess - dropped,
        {
            self.replication_history.remove(0);
            dropped = dropped + 1;
            proof {
                assert(self.replication_history@ =~= old(self).replication_history@.subrange(
                    dropped as int,
                    old(self).replication_history@.len() as int,
                ));
            }
        }
    }

    /// Failed attempts within the last hour.
    pub fn count_recent_failures(&self, now: u64) -> (r: usize)
        ensures
            r == spec_recent_failure_count(self.replication_history@, now - 3600),
    {
        let cutoff_known: bool = now >= 3600;
        let cutoff: u64 = if cutoff_known {
            now - 3600
        } else {
            0
        };
        let n: usize = self.replication_history.len();
        let mut count: usize = 0;
        let mut i: usize = 0;
        while i < n
            invariant
                i <= n,
                n == self.replication_history@.len(),
                cutoff_known ==> cutoff == now - 3600,
                !cutoff_known ==> now < 3600,
                count <= i,
                count == spec_recent_failure_count(
                    self.replication_history@.subrange(0, i as int),
                    now - 3600,
                ),
            decreases n - i,
        {
            let entry = &self.replication_history[i];
            let recent: bool = if cutoff_known {
                entry.timestamp > cutoff
            } else {
                true
            };
            if !entry.success && recent {
                count = count + 1;
            }
            i = i + 1;
            proof {
                let s = self.replication_history@.subrange(0, i as int);
                assert(s.drop_last() =~= self.replication_history@.subrange(0, i - 1));
                assert(s.last() == self.replication_history@[i - 1]);
            }
        }
        proof {
            assert(self.replication_history@.subrange(0, n as int) =~= self.replication_history@);
        }
        count
    }

    /// Aggregate replication state for status reporting.
    pub fn get_status(&self, now: u64) -> (r: ReplicationStatus)
        ensures
            r.active_replicas == self.active_replicas@.len(),
            r.total_targets == self.targets@.len(),
            r.recent_failures == spec_recent_failure_count(self.replication_history@, now - 3600),
            r.strategy == self.strategy,
    {
        ReplicationStatus {
            active_replicas: self.active_replicas.len(),
            total_targets: self.targets.len(),
            recent_failures: self.count_recent_failures(now),
            strategy: self.strategy,
        }
    }

    /// The first three targets, as copies, for an emergency replication that
    /// overrides the normal limits.
    pub fn emergency_candidates(&self) -> (r: Vec<ReplicationTarget>)
        ensures
            r@.len() == if self.targets@.len() < 3 {
                self.targets@.len() as int
            } else {
                3
            },
            forall|i: int|
                0 <= i < r@.len() ==> spec_target_like(#[trigger] r@[i], self.targets@[i]),
    {
        let n: usize = if self.targets.len() < 3 {
            self.targets.len()
        } else {
            3
        };
        let mut out: Vec<ReplicationTarget> = Vec::new();
        let mut i: usize = 0;
        while i < n
            invariant
                i <= n,
                n <= self.targets@.len(),
                out@.len() == i,
                forall|q: int|
                    0 <= q < i ==> spec_target_like(#[trigger] out@[q], self.targets@[q]),
            decreases n - i,
        {
            out.push(duplicate_target(&self.targets[i]));
            i = i + 1;
        }
        out
    }

    /// An emergency replication failed only if every attempt did.
    pub fn emergency_outcome(&self, results: &Vec<ReplicationResult>) -> (r: Result<(), String>)
        ensures
            r is Ok <==> exists|i: int|
                0 <= i < results@.len() && (#[trigger] results@[i]).success,
            r matches Err(m) ==> m@ == "emergency replication failed on all targets"@,
    {
        let n: usize = results.len();
        let mut i: usize = 0;
        while i < n
            invariant
                i <= n,
                n == results@.len(),
                forall|j: int| 0 <= j < i ==> !(#[trigger] results@[j]).success,
            decreases n - i,
        {
            if results[i].success {
                return Ok(());
            }
            i = i + 1;
        }
        Err("emergency replication failed on all targets".to_owned())
    }
}

pub open spec fn spec_sorted_targets(s: Seq<ReplicationTarget>) -> bool {
    forall|i: int, j: int|
        0 <= i < j < s.len() ==> (#[trigger] s[i]).priority <= (#[trigger] s[j]).priority
}

/// The target list at `ip`'s first entry with its counters stepped.
pub open spec fn spec_stats_updated_ip(
    before: Seq<ReplicationTarget>,
    after: Seq<ReplicationTarget>,
    ip: Seq<char>,
    success: bool,
    now: u64,
) -> bool {
    if exists|i: int| 0 <= i < before.len() && (#[trigger] before[i]).ip@ == ip {
        exists|i: int|
            {
                &&& 0 <= i < before.len()
                &&& (#[trigger] before[i]).ip@ == ip
                &&& (forall|j: int| 0 <= j < i ==> (#[trigger] before[j]).ip@ != ip)
                &&& after == before.update(
                    i,
                    ReplicationTarget {
                        success_count: if success {
                            spec_saturating_inc(before[i].success_count)
                        } else {
                            before[i].success_count
                        },
                        failure_count: if success {
                            before[i].failure_count
                        } else {
                            spec_saturating_inc(before[i].failure_count)
                        },
                        last_attempt: Some(now),
                        ..before[i]
                    },
                )
            }
    } else {
        after == before
    }
}

pub open spec fn spec_stats_updated(
    before: Seq<ReplicationTarget>,
    after: Seq<ReplicationTarget>,
    result: ReplicationResult,
    now: u64,
) -> bool {
    spec_stats_updated_ip(before, after, result.target@, result.success, now)
}

pub open spec fn spec_saturating_inc(v: u32) -> u32 {
    if v == u32::MAX {
        v
    } else {
        (v + 1) as u32
    }
}

fn saturating_inc(v: u32) -> (r: u32)
    ensures
        r == spec_saturating_inc(v),
{
    if v == u32::MAX {
        v
    } else {
        v + 1
    }
}

/// A scaling signal: a roll of roughly one in five from the thread-local
/// generator, standing in for a load- and cost-based scaling policy.
fn check_scaling_conditions() -> bool {
    let roll: u8 = rand::random();
    roll < 51
}

/// Two server entries carry the same facts.
pub open spec fn spec_server_like(a: TargetServer, b: TargetServer) -> bool {
    &&& a.id@ == b.id@
    &&& a.name@ == b.name@
    &&& a.ip@ == b.ip@
    &&& a.port == b.port
    &&& a.username@ == b.username@
    &&& match (a.ssh_key_path, b.ssh_key_path) {
        (Some(p), Some(q)) => p@ == q@,
        (None, None) => true,
        _ => false,
    }
    &&& match (a.password_base64, b.password_base64) {
        (Some(p), Some(q)) => p@ == q@,
        (None, None) => true,
        _ => false,
    }
    &&& a.auth_method == b.auth_method
    &&& a.remote_path@ == b.remote_path@
    &&& a.enabled == b.enabled
    &&& a.priority == b.priority
    &&& crate::task_scheduler::spec_str_seq_eq(a.tags@, b.tags@)
    &&& a.max_retries == b.max_retries
    &&& a.retry_delay_seconds == b.retry_delay_seconds
}

/// A field-for-field copy of a server entry.
fn duplicate_server(s: &TargetServer) -> (r: TargetServer)
    ensures
        spec_server_like(r, *s),
{
    TargetServer {
        id: s.id.clone(),
        name: s.name.clone(),
        ip: s.ip.clone(),
        port: s.port,
        username: s.username.clone(),
        ssh_key_path: match &s.ssh_key_path {
            Some(p) => Some(p.clone()),
            None => None,
        },
        password_base64: match &s.password_base64 {
            Some(p) => Some(p.clone()),
            None => None,
        },
        auth_method: s.auth_method,
        remote_path: s.remote_path.clone(),
        enabled: s.enabled,
        priority: s.priority,
        tags: duplicate_tags(&s.tags),
        max_retries: s.max_retries,
        retry_delay_seconds: s.retry_delay_seconds,
    }
}

fn duplicate_tags(v: &Vec<String>) -> (r: Vec<String>)
    ensures
        r@ == v@,
{
    let n: usize = v.len();
    let mut out: Vec<String> = Vec::new();
    let mut i: usize = 0;
    while i < n
        invariant
            i <= n,
            n == v@.len(),
            out@ == v@.subrange(0, i as int),
        decreases n - i,
    {
        out.push(v[i].clone());
        i = i + 1;
        proof {
            assert(out@ =~= v@.subrange(0, i as int));
        }
    }
    proof {
        assert(v@.subrange(0, n as int) =~= v@);
    }
    out
}

/// A field-for-field copy of a target.
fn duplicate_target(t: &ReplicationTarget) -> (r: ReplicationTarget)
    ensures
        spec_target_like(r, *t),
        r == *t,
{
    ReplicationTarget {
        ip: t.ip.clone(),
        user: t.user.clone(),
        ssh_key_path: t.ssh_key_path.clone(),
        remote_path: t.remote_path.clone(),
        priority: t.priority,
        last_attempt: t.last_attempt,
        success_count: t.success_count,
        failure_count: t.failure_count,
    }
}

/// The enabled servers of a configuration, in ascending priority order, as
/// replication targets with zeroed statistics.
pub fn targets_from_config(config: &ServerConfig) -> (r: Vec<ReplicationTarget>)
    ensures
        exists|sorted: Seq<TargetServer>|
            {
                &&& #[trigger] spec_sorted_by_priority(sorted)
                &&& sorted.to_multiset() == crate::server_config::spec_enabled_servers(
                    config.target_servers@,
                ).to_multiset()
                &&& r@.len() == sorted.len()
                &&& forall|i: int|
                    0 <= i < sorted.len() ==> spec_target_from_server(
                        #[trigger] sorted[i],
                        r@[i],
                    )
            },
{
    let servers = config.get_servers_by_priority();
    let ghost sorted = servers@.map_values(|t: &TargetServer| *t);
    let n: usize = servers.len();
    let mut out: Vec<ReplicationTarget> = Vec::new();
    let mut i: usize = 0;
    while i < n
        invariant
            i <= n,
            n == servers@.len(),
            sorted == servers@.map_values(|t: &TargetServer| *t),
            out@.len() == i,
            forall|q: int|
                0 <= q < i ==> spec_target_from_server(#[trigger] sorted[q], out@[q]),
        decreases n - i,
    {
        let s: &TargetServer = servers[i];
        out.push(
            ReplicationTarget {
                ip: s.ip.clone(),
                user: s.username.clone(),
                ssh_key_path: s.get_expanded_ssh_key_path(),
                remote_path: s.remote_path.clone(),
                priority: #[verifier::truncate] (s.priority as u8),
                last_attempt: None,
                success_count: 0,
                failure_count: 0,
            },
        );
        i = i + 1;
    }
    out
}

} // verus!
