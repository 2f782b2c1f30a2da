//! Static server topology: the list of target servers eligible to receive a
//! deployment, with per-server connection settings, and the operations that
//! manage it. Loading and saving the configuration file is the caller's
//! work; the list manipulation here is verified.

use vstd::prelude::*;
use base64::Engine;
use crate::common::DeploymentInfo;
use crate::text::str_eq;

verus! {

#[derive(Debug, Clone, Copy, PartialEq, Eq, Structural)]
pub enum AuthMethod {
    Key,
    Password,
    KeyWithPassphrase,
}

pub fn default_auth_method() -> (r: AuthMethod)
    ensures
        r == AuthMethod::Key,
{
    AuthMethod::Key
}

/// A known remote host eligible to receive a deployment of the agent. A
/// password is stored base64-encoded, never in the clear.
#[derive(Debug, Clone)]
pub struct TargetServer {
    pub id: String,
    pub name: String,
    pub ip: String,
    pub port: u16,
    pub username: String,
    pub ssh_key_path: Option<String>,
    pub password_base64: Option<String>,
    pub auth_method: AuthMethod,
    pub remote_path: String,
    pub enabled: bool,
    pub priority: u32,
    pub tags: Vec<String>,
    pub max_retries: u32,
    pub retry_delay_seconds: u64,
}

#[derive(Debug, Clone)]
pub struct DefaultSettings {
    pub port: u16,
    pub username: String,
    pub ssh_key_path: String,
    pub remote_path: String,
    pub max_retries: u32,
    pub retry_delay_seconds: u64,
    pub connection_timeout_seconds: u64,
    pub deployment_timeout_seconds: u64,
}

#[derive(Debug, Clone)]
pub struct DeploymentStrategy {
    pub strategy_type: String,
    pub parallel_deployments: usize,
    pub delay_between_deployments_seconds: u64,
    pub health_check_after_deployment: bool,
    pub rollback_on_failure: bool,
}

#[derive(Debug, Clone, Copy, PartialEq, Eq, Structural)]
pub struct SshConfig {
    pub strict_host_key_checking: bool,
    pub compression: bool,
    pub keepalive_interval_seconds: u64,
}

/// The whole topology configuration.
#[derive(Debug, Clone)]
pub struct ServerConfig {
    pub target_servers: Vec<TargetServer>,
    pub default_settings: DefaultSettings,
    pub deployment_strategy: DeploymentStrategy,
    pub ssh_config: SshConfig,
}

/// What the standard-alphabet base64 encoding of a string is; named here and
/// pinned down only by the encode and decode wrappers below.
pub uninterp spec fn b64_of(s: Seq<char>) -> Seq<char>;

/// Relies on base64's `Engine::encode` with the standard alphabet: the
/// encoding is a function of the input alone.
#[verifier::external_body]
fn base64_encode_str(s: &str) -> (r: String)
    requires
        s@.len() <= usize::MAX as int / 16,
    ensures
        r@ == b64_of(s@),
{
    base64::engine::general_purpose::STANDARD.encode(s.as_bytes())
}

/// Relies on base64's `Engine::decode` with the standard alphabet, which
/// inverts `Engine::encode`: decoding the encoding of any string gives that
/// string back.
#[verifier::external_body]
fn base64_decode_str(s: &str) -> (r: Option<String>)
    ensures
        match r {
            Some(q) => forall|p: Seq<char>| s@ == #[trigger] b64_of(p) ==> q@ == p,
            None => forall|p: Seq<char>| s@ != #[trigger] b64_of(p),
        },
{
    match base64::engine::general_purpose::STANDARD.decode(s.as_bytes()) {
        Ok(bytes) => String::from_utf8(bytes).ok(),
        Err(_) => None,
    }
}

/// Relies on dirs::home_dir for the current user's home directory; the
/// result depends on the machine and environment, so nothing is promised of
/// it.
#[verifier::external_body]
fn home_directory() -> (r: Option<String>) {
    dirs::home_dir().map(|p| p.to_string_lossy().to_string())
}

/// A `~`-prefixed path expanded against a home directory: the characters
/// after the first two replace the `~`, joined under the home directory
/// unless they already form an absolute path. Without a leading `~` or a
/// known home directory the path stands unchanged.
pub open spec fn spec_expanded_key_path(path: Seq<char>, home: Option<Seq<char>>) -> Seq<char> {
    if path.len() >= 1 && path[0] == '~' && home is Some {
        let rest = if path.len() >= 2 {
            path.skip(2)
        } else {
            Seq::empty()
        };
        if rest.len() >= 1 && rest[0] == '/' {
            rest
        } else {
            match home {
                Some(h) => h + "/"@ + rest,
                None => path,
            }
        }
    } else {
        path
    }
}

/// The servers of the list that are enabled, in order.
pub open spec fn spec_enabled_servers(s: Seq<TargetServer>) -> Seq<TargetServer>
    decreases s.len(),
{
    if s.len() == 0 {
        Seq::empty()
    } else {
        let rest = spec_enabled_servers(s.drop_last());
        if s.last().enabled {
            rest.push(s.last())
        } else {
            rest
        }
    }
}

pub open spec fn spec_has_tag(t: TargetServer, tag: Seq<char>) -> bool {
    exists|i: int| 0 <= i < t.tags@.len() && (#[trigger] t.tags@[i])@ == tag
}

/// The enabled servers carrying the tag, in order.
pub open spec fn spec_servers_with_tag(s: Seq<TargetServer>, tag: Seq<char>) -> Seq<TargetServer>
    decreases s.len(),
{
    if s.len() == 0 {
        Seq::empty()
    } else {
        let rest = spec_servers_with_tag(s.drop_last(), tag);
        if s.last().enabled && spec_has_tag(s.last(), tag) {
            rest.push(s.last())
        } else {
            rest
        }
    }
}

/// The list without the servers carrying the given id.
pub open spec fn spec_without_server_id(s: Seq<TargetServer>, id: Seq<char>) -> Seq<TargetServer>
    decreases s.len(),
{
    if s.len() == 0 {
        Seq::empty()
    } else {
        let rest = spec_without_server_id(s.drop_last(), id);
        if s.last().id@ == id {
            rest
        } else {
            rest.push(s.last())
        }
    }
}

pub open spec fn spec_some_server_has_id(s: Seq<TargetServer>, id: Seq<char>) -> bool {
    exists|i: int| 0 <= i < s.len() && (#[trigger] s[i]).id@ == id
}

pub open spec fn spec_sorted_by_priority(s: Seq<TargetServer>) -> bool {
    forall|i: int, j: int| 0 <= i < j < s.len() ==> (#[trigger] s[i]).priority <= (#[trigger] s[j]).priority
}

impl ServerConfig {
    /// All enabled servers, in configuration order.
    pub fn get_enabled_servers(&self) -> (r: Vec<&TargetServer>)
        ensures
            r@.map_values(|t: &TargetServer| *t) == spec_enabled_servers(self.target_servers@),
    {
        let n: usize = self.target_servers.len();
        let mut out: Vec<&TargetServer> = Vec::new();
        let mut i: usize = 0;
        while i < n
            invariant
                i <= n,
                n == self.target_servers@.len(),
                out@.map_values(|t: &TargetServer| *t) == spec_enabled_servers(
                    self.target_servers@.subrange(0, i as int),
                ),
            decreases n - i,
        {
            let ghost before = out@.map_values(|t: &TargetServer| *t);
            if self.target_servers[i].enabled {
                out.push(&self.target_servers[i]);
            }
            i = i + 1;
            proof {
                let s = self.target_servers@.subrange(0, i as int);
                assert(s.drop_last() =~= self.target_servers@.subrange(0, i - 1));
                assert(s.last() == self.target_servers@[i - 1]);
                if self.target_servers@[i - 1].enabled {
                    assert(out@.map_values(|t: &TargetServer| *t) =~= before.push(
                        self.target_servers@[i - 1],
                    ));
                }
            }
        }
        proof {
            assert(self.target_servers@.subrange(0, n as int) =~= self.target_servers@);
        }
        out
    }

    /// The enabled servers ordered by ascending priority number: a
    /// permutation of the enabled servers, sorted.
    pub fn get_servers_by_priority(&self) -> (r: Vec<&TargetServer>)
        ensures
            r@.map_values(|t: &TargetServer| *t).to_multiset() == spec_enabled_servers(
                self.target_servers@,
            ).to_multiset(),
            spec_sorted_by_priority(r@.map_values(|t: &TargetServer| *t)),
    {
        let enabled = self.get_enabled_servers();
        sort_by_priority(enabled)
    }

    /// The enabled servers carrying the tag, in configuration order.
    pub fn get_servers_by_tag(&self, tag: &str) -> (r: Vec<&TargetServer>)
        ensures
            r@.map_values(|t: &TargetServer| *t) == spec_servers_with_tag(
                self.target_servers@,
                tag@,
            ),
    {
        let n: usize = self.target_servers.len();
        let mut out: Vec<&TargetServer> = Vec::new();
        let mut i: usize = 0;
        while i < n
            invariant
                i <= n,
                n == self.target_servers@.len(),
                out@.map_values(|t: &TargetServer| *t) == spec_servers_with_tag(
                    self.target_servers@.subrange(0, i as int),
                    tag@,
                ),
            decreases n - i,
        {
            let ghost before = out@.map_values(|t: &TargetServer| *t);
            let s = &self.target_servers[i];
            if s.enabled && has_tag(s, tag) {
                out.push(&self.target_servers[i]);
            }
            i = i + 1;
            proof {
                let sub = self.target_servers@.subrange(0, i as int);
                assert(sub.drop_last() =~= self.target_servers@.subrange(0, i - 1));
                assert(sub.last() == self.target_servers@[i - 1]);
                if self.target_servers@[i - 1].enabled && spec_has_tag(
                    self.target_servers@[i - 1],
                    tag@,
                ) {
                    assert(out@.map_values(|t: &TargetServer| *t) =~= before.push(
                        self.target_servers@[i - 1],
                    ));
                }
            }
        }
        proof {
            assert(self.target_servers@.subrange(0, n as int) =~= self.target_servers@);
        }
        out
    }

    /// The first server carrying the id, if any.
    pub fn get_server_by_id(&self, id: &str) -> (r: Option<&TargetServer>)
        ensures
            r is Some <==> spec_some_server_has_id(self.target_servers@, id@),
            r matches Some(t) ==> exists|i: int|
                {
                    &&& 0 <= i < self.target_servers@.len()
                    &&& (#[trigger] self.target_servers@[i]) == *t
                    &&& self.target_servers@[i].id@ == id@
                    &&& forall|j: int|
                        0 <= j < i ==> (#[trigger] self.target_servers@[j]).id@ != id@
                },
    {
        let n: usize = self.target_servers.len();
        let mut i: usize = 0;
        while i < n
            invariant
                i <= n,
                n == self.target_servers@.len(),
                forall|j: int| 0 <= j < i ==> (#[trigger] self.target_servers@[j]).id@ != id@,
            decreases n - i,
        {
            if str_eq(self.target_servers[i].id.as_str(), id) {
                return Some(&self.target_servers[i]);
            }
            i = i + 1;
        }
        None
    }

    /// Add a server; rejected when a server with the same id already exists,
    /// with nothing changed.
    pub fn add_server(&mut self, server: TargetServer) -> (r: Result<(), String>)
        ensures
            r is Ok <==> !spec_some_server_has_id(old(self).target_servers@, server.id@),
            r is Ok ==> final(self).target_servers@ == old(self).target_servers@.push(server),
            r matches Err(m) ==> final(self).target_servers@ == old(self).target_servers@ && m@
                == "a server with this id already exists"@,
            final(self).default_settings == old(self).default_settings,
            final(self).deployment_strategy == old(self).deployment_strategy,
            final(self).ssh_config == old(self).ssh_config,
    {
        let existing = self.get_server_by_id(server.id.as_str());
        if existing.is_some() {
            return Err("a server with this id already exists".to_owned());
        }
        self.target_servers.push(server);
        Ok(())
    }

    /// Remove every server carrying the id; rejected when none does, with
    /// nothing changed.
    pub fn remove_server(&mut self, id: &str) -> (r: Result<(), String>)
        ensures
            r is Ok <==> spec_some_server_has_id(old(self).target_servers@, id@),
            final(self).target_servers@ == spec_without_server_id(old(self).target_servers@, id@),
            r matches Err(m) ==> m@ == "no server with this id"@,
            final(self).default_settings == old(self).default_settings,
            final(self).deployment_strategy == old(self).deployment_strategy,
            final(self).ssh_config == old(self).ssh_config,
    {
        let mut input: Vec<TargetServer> = Vec::new();
        core::mem::swap(&mut input, &mut self.target_servers);
        let n: usize = input.len();
        let mut kept: Vec<TargetServer> = Vec::new();
        let mut removed_any: bool = false;
        let mut i: usize = 0;
        while i < n
            invariant
                i <= n,
                n == old(self).target_servers@.len(),
                input@ == old(self).target_servers@.subrange(i as int, n as int),
                kept@ == spec_without_server_id(
                    old(self).target_servers@.subrange(0, i as int),
                    id@,
                ),
                removed_any == spec_some_server_has_id(
                    old(self).target_servers@.subrange(0, i as int),
                    id@,
                ),
                self.default_settings == old(self).default_settings,
                self.deployment_strategy == old(self).deployment_strategy,
                self.ssh_config == old(self).ssh_config,
            decreases n - i,
        {
            let t = input.remove(0);
            proof {
                assert(t == old(self).target_servers@[i as int]);
                assert(input@ =~= old(self).target_servers@.subrange(i + 1, n as int));
            }
            let ghost prev = old(self).target_servers@.subrange(0, i as int);
            if str_eq(t.id.as_str(), id) {
                removed_any = true;
            } else {
                kept.push(t);
            }
            i = i + 1;
            proof {
                let s = old(self).target_servers@.subrange(0, i as int);
                assert(s.drop_last() =~= prev);
                assert(s.last() == old(self).target_servers@[i - 1]);
                if old(self).target_servers@[i - 1].id@ == id@ {
                    assert(spec_some_server_has_id(s, id@));
                } else {
                    assert(spec_some_server_has_id(s, id@) == spec_some_server_has_id(prev, id@))
                        by {
                        if spec_some_server_has_id(s, id@) {
                            let w = choose|w: int| 0 <= w < s.len() && (#[trigger] s[w]).id@ == id@;
                            assert(w < i - 1 ==> prev[w] == s[w]);
                        }
                    }
                }
            }
        }
        proof {
            assert(old(self).target_servers@.subrange(0, n as int) =~= old(self).target_servers@);
        }
        self.target_servers = kept;
        if removed_any {
            Ok(())
        } else {
            Err("no server with this id".to_owned())
        }
    }

    /// Apply an update to the first server carrying the id; rejected when
    /// none does, with nothing changed.
    pub fn update_server<F: FnOnce(TargetServer) -> TargetServer>(&mut self, id: &str, updater: F) -> (r:
        Result<(), String>)
        requires
            forall|t: TargetServer| #[trigger] updater.requires((t,)),
        ensures
            r is Ok <==> spec_some_server_has_id(old(self).target_servers@, id@),
            r is Ok ==> exists|i: int|
                {
                    &&& 0 <= i < old(self).target_servers@.len()
                    &&& (#[trigger] old(self).target_servers@[i]).id@ == id@
                    &&& (forall|j: int|
                        0 <= j < i ==> (#[trigger] old(self).target_servers@[j]).id@ != id@)
                    &&& updater.ensures(
                        (old(self).target_servers@[i],),
                        final(self).target_servers@[i],
                    )
                    &&& final(self).target_servers@ == old(self).target_servers@.update(
                        i,
                        final(self).target_servers@[i],
                    )
                },
            r matches Err(m) ==> final(self).target_servers@ == old(self).target_servers@ && m@
                == "no server with this id"@,
            final(self).default_settings == old(self).default_settings,
            final(self).deployment_strategy == old(self).deployment_strategy,
            final(self).ssh_config == old(self).ssh_config,
    {
        let n: usize = self.target_servers.len();
        let mut i: usize = 0;
        while i < n
            invariant
                i <= n,
                n == old(self).target_servers@.len(),
                self.target_servers@ == old(self).target_servers@,
                self.default_settings == old(self).default_settings,
                self.deployment_strategy == old(self).deployment_strategy,
                self.ssh_config == old(self).ssh_config,
                forall|t: TargetServer| #[trigger] updater.requires((t,)),
                forall|j: int| 0 <= j < i ==> (#[trigger] old(self).target_servers@[j]).id@ != id@,
            decreases n - i,
        {
            if str_eq(self.target_servers[i].id.as_str(), id) {
                let t = self.target_servers.remove(i);
                let updated = updater(t);
                self.target_servers.insert(i, updated);
                proof {
                    assert(self.target_servers@ =~= old(self).target_servers@.update(
                        i as int,
                        self.target_servers@[i as int],
                    ));
                }
                return Ok(());
            }
            i = i + 1;
        }
        Err("no server with this id".to_owned())
    }

    /// Enable or disable the first server carrying the id; rejected when
    /// none does, with nothing changed.
    pub fn set_server_enabled(&mut self, id: &str, enabled: bool) -> (r: Result<(), String>)
        ensures
            r is Ok <==> spec_some_server_has_id(old(self).target_servers@, id@),
            r is Ok ==> exists|i: int|
                {
                    &&& 0 <= i < old(self).target_servers@.len()
                    &&& (#[trigger] old(self).target_servers@[i]).id@ == id@
                    &&& (forall|j: int|
                        0 <= j < i ==> (#[trigger] old(self).target_servers@[j]).id@ != id@)
                    &&& final(self).target_servers@ == old(self).target_servers@.update(
                        i,
                        TargetServer { enabled, ..old(self).target_servers@[i] },
                    )
                },
            r matches Err(m) ==> final(self).target_servers@ == old(self).target_servers@ && m@
                == "no server with this id"@,
            final(self).default_settings == old(self).default_settings,
            final(self).deployment_strategy == old(self).deployment_strategy,
            final(self).ssh_config == old(self).ssh_config,
    {
        let n: usize = self.target_servers.len();
        let mut i: usize = 0;
        while i < n
            invariant
                i <= n,
                n == old(self).target_servers@.len(),
                self.target_servers@ == old(self).target_servers@,
                self.default_settings == old(self).default_settings,
                self.deployment_strategy == old(self).deployment_strategy,
                self.ssh_config == old(self).ssh_config,
                forall|j: int| 0 <= j < i ==> (#[trigger] old(self).target_servers@[j]).id@ != id@,
            decreases n - i,
        {
            if str_eq(self.target_servers[i].id.as_str(), id) {
                let mut t = self.target_servers.remove(i);
                t.enabled = enabled;
                self.target_servers.insert(i, t);
                proof {
                    assert(self.target_servers@ =~= old(self).target_servers@.update(
                        i as int,
                        TargetServer { enabled, ..old(self).target_servers@[i as int] },
                    ));
                }
                return Ok(());
            }
            i = i + 1;
        }
        Err("no server with this id".to_owned())
    }

    /// Expand a leading `~` in a path against the machine's home directory;
    /// paths are treated character-wise.
    pub fn expand_ssh_key_path(path: &str) -> (r: String)
        ensures
            exists|h: Option<Seq<char>>| r@ == spec_expanded_key_path(path@, h),
    {
        let home = home_directory();
        let r = expand_ssh_key_path_with(path, home.as_ref());
        proof {
            let h: Option<Seq<char>> = match home {
                Some(s) => Some(s@),
                None => None,
            };
            assert(r@ == spec_expanded_key_path(path@, h));
        }
        r
    }
}

impl TargetServer {
    /// A new server entry with the conventional defaults: SSH port 22, key
    /// authentication with the usual key path, enabled, priority 100.
    pub fn new(id: String, name: String, ip: String, username: String) -> (r: Self)
        ensures
            r.id@ == id@,
            r.name@ == name@,
            r.ip@ == ip@,
            r.port == 22,
            r.username@ == username@,
            r.ssh_key_path matches Some(p) && p@ == "~/.ssh/id_rsa"@,
            r.password_base64 is None,
            r.auth_method == AuthMethod::Key,
            r.remote_path@ == "/home/ubuntu/aurelia"@,
            r.enabled == true,
            r.priority == 100,
            r.tags@.len() == 0,
            r.max_retries == 3,
            r.retry_delay_seconds == 60,
    {
        TargetServer {
            id,
            name,
            ip,
            port: 22,
            username,
            ssh_key_path: Some("~/.ssh/id_rsa".to_owned()),
            password_base64: None,
            auth_method: AuthMethod::Key,
            remote_path: "/home/ubuntu/aurelia".to_owned(),
            enabled: true,
            priority: 100,
            tags: Vec::new(),
            max_retries: 3,
            retry_delay_seconds: 60,
        }
    }

    /// A new server entry that authenticates with a password; the password
    /// is stored base64-encoded.
    pub fn new_with_password(
        id: String,
        name: String,
        ip: String,
        username: String,
        password: String,
    ) -> (r: Self)
        requires
            password@.len() <= usize::MAX as int / 16,
        ensures
            r.id@ == id@,
            r.name@ == name@,
            r.ip@ == ip@,
            r.port == 22,
            r.username@ == username@,
            r.ssh_key_path matches Some(p) && p@ == "~/.ssh/id_rsa"@,
            r.password_base64 matches Some(e) && e@ == b64_of(password@),
            r.auth_method == AuthMethod::Password,
            r.remote_path@ == "/home/ubuntu/aurelia"@,
            r.enabled == true,
            r.priority == 100,
            r.tags@.len() == 0,
            r.max_retries == 3,
            r.retry_delay_seconds == 60,
    {
        let mut server = Self::new(id, name, ip, username);
        server.set_password(password.as_str());
        server
    }

    /// Store the password base64-encoded and switch to password
    /// authentication.
    pub fn set_password(&mut self, password: &str)
        requires
            password@.len() <= usize::MAX as int / 16,
        ensures
            final(self).password_base64 matches Some(e) && e@ == b64_of(password@),
            final(self).auth_method == AuthMethod::Password,
            final(self).id == old(self).id,
            final(self).name == old(self).name,
            final(self).ip == old(self).ip,
            final(self).port == old(self).port,
            final(self).username == old(self).username,
            final(self).ssh_key_path == old(self).ssh_key_path,
            final(self).remote_path == old(self).remote_path,
            final(self).enabled == old(self).enabled,
            final(self).priority == old(self).priority,
            final(self).tags == old(self).tags,
            final(self).max_retries == old(self).max_retries,
            final(self).retry_delay_seconds == old(self).retry_delay_seconds,
    {
        self.password_base64 = Some(base64_encode_str(password));
        self.auth_method = AuthMethod::Password;
    }

    /// Decode the stored password: for a password stored by `set_password`,
    /// exactly that password comes back.
    pub fn get_password(&self) -> (r: Option<String>)
        ensures
            match self.password_base64 {
                None => r is None,
                Some(enc) => match r {
                    Some(q) => forall|p: Seq<char>| enc@ == #[trigger] b64_of(p) ==> q@ == p,
                    None => forall|p: Seq<char>| enc@ != #[trigger] b64_of(p),
                },
            },
    {
        match &self.password_base64 {
            None => None,
            Some(enc) => base64_decode_str(enc.as_str()),
        }
    }

    /// The configured SSH key path with a leading `~` expanded against the
    /// machine's home directory; the conventional key path when none is
    /// configured.
    pub fn get_expanded_ssh_key_path(&self) -> (r: String)
        ensures
            match self.ssh_key_path {
                Some(p) => exists|h: Option<Seq<char>>| r@ == spec_expanded_key_path(p@, h),
                None => r@ == "~/.ssh/id_rsa"@,
            },
    {
        match &self.ssh_key_path {
            Some(p) => ServerConfig::expand_ssh_key_path(p.as_str()),
            None => "~/.ssh/id_rsa".to_owned(),
        }
    }

    /// The plain connection facts a deployment needs for this server.
    pub fn to_deployment_info(&self) -> (r: DeploymentInfo)
        ensures
            r.ip@ == self.ip@,
            r.remote_user@ == self.username@,
            r.remote_path@ == self.remote_path@,
            match self.ssh_key_path {
                Some(p) => exists|h: Option<Seq<char>>|
                    r.private_key_path@ == spec_expanded_key_path(p@, h),
                None => r.private_key_path@ == "~/.ssh/id_rsa"@,
            },
    {
        DeploymentInfo {
            ip: self.ip.clone(),
            remote_user: self.username.clone(),
            private_key_path: self.get_expanded_ssh_key_path(),
            remote_path: self.remote_path.clone(),
        }
    }
}

/// A server has the tag among its tags.
fn has_tag(t: &TargetServer, tag: &str) -> (r: bool)
    ensures
        r == spec_has_tag(*t, tag@),
{
    let n: usize = t.tags.len();
    let mut i: usize = 0;
    while i < n
        invariant
            i <= n,
            n == t.tags@.len(),
            forall|j: int| 0 <= j < i ==> (#[trigger] t.tags@[j])@ != tag@,
        decreases n - i,
    {
        if str_eq(t.tags[i].as_str(), tag) {
            return true;
        }
        i = i + 1;
    }
    false
}

/// The `~`-expansion against a caller-supplied home directory; exact for
/// every input.
pub fn expand_ssh_key_path_with(path: &str, home: Option<&String>) -> (r: String)
    ensures
        r@ == spec_expanded_key_path(
            path@,
            match home {
                Some(h) => Some(h@),
                None => None::<Seq<char>>,
            },
        ),
{
    let len: usize = path.unicode_len();
    if len >= 1 && path.get_char(0) == '~' {
        match home {
            Some(h) => {
                let rest: &str = if len >= 2 {
                    path.substring_char(2, len)
                } else {
                    ""
                };
                proof {
                    reveal_strlit("");
                    if len < 2 {
                        assert(rest@ =~= Seq::<char>::empty());
                    }
                }
                let rest_len: usize = rest.unicode_len();
                if rest_len >= 1 && rest.get_char(0) == '/' {
                    rest.to_owned()
                } else {
                    let mut out: String = h.clone();
                    out.append("/");
                    out.append(rest);
                    proof {
                        reveal_strlit("/");
                        assert(out@ =~= h@ + "/"@ + rest@);
                    }
                    out
                }
            },
            None => path.to_owned(),
        }
    } else {
        path.to_owned()
    }
}

/// Insertion sort on server references by ascending priority number.
fn sort_by_priority<'a>(input: Vec<&'a TargetServer>) -> (r: Vec<&'a TargetServer>)
    ensures
        r@.map_values(|t: &TargetServer| *t).to_multiset() == input@.map_values(
            |t: &TargetServer| *t,
        ).to_multiset(),
        spec_sorted_by_priority(r@.map_values(|t: &TargetServer| *t)),
{
    let mut input = input;
    let n: usize = input.len();
    let ghost input0 = input@;
    let mut out: Vec<&'a TargetServer> = Vec::new();
    proof {
        assert(out@.map_values(|t: &TargetServer| *t) =~= input0.subrange(0, 0).map_values(
            |t: &TargetServer| *t,
        ));
    }
    let mut i: usize = 0;
    while i < n
        invariant
            i <= n,
            n == input0.len(),
            input@ == input0.subrange(i as int, n as int),
            out@.map_values(|t: &TargetServer| *t).to_multiset() == input0.subrange(
                0,
                i as int,
            ).map_values(|t: &TargetServer| *t).to_multiset(),
            spec_sorted_by_priority(out@.map_values(|t: &TargetServer| *t)),
        decreases n - i,
    {
        let ghost out_before = out@;
        let item = input.remove(0);
        proof {
            assert(item == input0[i as int]);
            assert(input@ =~= input0.subrange(i + 1, n as int));
        }
        let m: usize = out.len();
        let mut pos: usize = 0;
        while pos < m && out[pos].priority <= item.priority
            invariant
                pos <= m,
                m == out@.len(),
                out@ == out_before,
                forall|q: int| 0 <= q < pos ==> (#[trigger] out@[q]).priority <= item.priority,
            decreases m - pos,
        {
            pos = pos + 1;
        }
        let stopped_short: bool = pos < m;
        out.insert(pos, item);
        i = i + 1;
        proof {
            let prev = input0.subrange(0, i - 1);
            let cur = input0.subrange(0, i as int);
            let x = *input0[i - 1];
            assert(cur.drop_last() =~= prev);
            assert(cur.last() == input0[i - 1]);
            let mapped_prev = prev.map_values(|t: &TargetServer| *t);
            let mapped_cur = cur.map_values(|t: &TargetServer| *t);
            assert(mapped_cur =~= mapped_prev.push(x));
            mapped_prev.to_multiset_ensures();
            let before_m = out_before.map_values(|t: &TargetServer| *t);
            let after_m = out@.map_values(|t: &TargetServer| *t);
            assert(after_m =~= before_m.insert(pos as int, x));
            vstd::seq_lib::to_multiset_insert(before_m, pos as int, x);
            assert(after_m.to_multiset() == mapped_cur.to_multiset());
            assert forall|a: int, b: int|
                0 <= a < b < after_m.len() implies (#[trigger] after_m[a]).priority
                <= (#[trigger] after_m[b]).priority by {
                assert(forall|k: int|
                    0 <= k < pos ==> #[trigger] after_m[k] == before_m[k]);
                assert(after_m[pos as int] == x);
                assert(forall|k: int|
                    pos < k < after_m.len() ==> #[trigger] after_m[k] == before_m[k - 1]);
                if stopped_short {
                    assert(before_m[pos as int].priority > x.priority);
                    assert(forall|k: int|
                        pos <= k < before_m.len() ==> x.priority <= (#[trigger] before_m[k]).priority);
                }
            }
        }
    }
    proof {
        assert(input0.subrange(0, n as int) =~= input0);
    }
    out
}

} // verus!
