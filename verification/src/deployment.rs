//! Deployment-testing support: connection settings for test servers, the
//! remote commands a deployment drives, and the interpretation of what the
//! remote side printed. Opening SSH sessions and shipping bytes is the
//! caller's work; everything that composes commands or reads their output is
//! verified here.

use vstd::prelude::*;
use crate::text::str_eq;

verus! {

#[derive(Debug, Clone, Copy, PartialEq, Eq, Structural)]
pub enum AuthMethod {
    Key,
    Password,
    KeyWithPassphrase,
}

impl Default for AuthMethod {
    fn default() -> (r: Self)
        ensures
            r == AuthMethod::Key,
    {
        AuthMethod::Key
    }
}

#[derive(Debug, Clone, Copy, PartialEq, Eq, Structural)]
pub enum ServerRole {
    Primary,
    Replica,
    Monitor,
}

/// Connection settings for one test server.
#[derive(Debug, Clone)]
pub struct ServerConfig {
    pub name: String,
    pub ip: String,
    pub port: u16,
    pub user: String,
    pub ssh_key_path: Option<String>,
    pub password: Option<String>,
    pub auth_method: AuthMethod,
    pub remote_deploy_path: String,
    pub role: ServerRole,
}

#[derive(Debug, Clone)]
pub struct MonitoringConfig {
    pub metrics_port: u16,
    pub log_level: String,
    pub alert_endpoints: Vec<String>,
}

impl ServerConfig {
    /// A configuration that authenticates with a key file.
    pub fn with_key(
        name: String,
        ip: String,
        port: u16,
        user: String,
        ssh_key_path: String,
        remote_deploy_path: String,
        role: ServerRole,
    ) -> (r: Self)
        ensures
            r.name@ == name@,
            r.ip@ == ip@,
            r.port == port,
            r.user@ == user@,
            r.ssh_key_path matches Some(p) && p@ == ssh_key_path@,
            r.password is None,
            r.auth_method == AuthMethod::Key,
            r.remote_deploy_path@ == remote_deploy_path@,
            r.role == role,
    {
        ServerConfig {
            name,
            ip,
            port,
            user,
            ssh_key_path: Some(ssh_key_path),
            password: None,
            auth_method: AuthMethod::Key,
            remote_deploy_path,
            role,
        }
    }

    /// A configuration that authenticates with a password.
    pub fn with_password(
        name: String,
        ip: String,
        port: u16,
        user: String,
        password: String,
        remote_deploy_path: String,
        role: ServerRole,
    ) -> (r: Self)
        ensures
            r.name@ == name@,
            r.ip@ == ip@,
            r.port == port,
            r.user@ == user@,
            r.ssh_key_path is None,
            r.password matches Some(p) && p@ == password@,
            r.auth_method == AuthMethod::Password,
            r.remote_deploy_path@ == remote_deploy_path@,
            r.role == role,
    {
        ServerConfig {
            name,
            ip,
            port,
            user,
            ssh_key_path: None,
            password: Some(password),
            auth_method: AuthMethod::Password,
            remote_deploy_path,
            role,
        }
    }
}

/// `pat` occurs as a contiguous run of characters in `s`.
pub open spec fn spec_contains_sub(s: Seq<char>, pat: Seq<char>) -> bool {
    exists|k: int| 0 <= k <= s.len() - pat.len() && #[trigger] s.subrange(k, k + pat.len()) == pat
}

/// Substring search, character-wise.
pub fn contains_sub(s: &str, pat: &str) -> (r: bool)
    ensures
        r == spec_contains_sub(s@, pat@),
{
    let n: usize = s.unicode_len();
    let m: usize = pat.unicode_len();
    if m == 0 {
        proof {
            assert(s@.subrange(0, 0 + pat@.len() as int) =~= pat@);
            assert(spec_contains_sub(s@, pat@));
        }
        return true;
    }
    if m > n {
        proof {
            assert(!spec_contains_sub(s@, pat@));
        }
        return false;
    }
    let mut k: usize = 0;
    while k <= n - m
        invariant
            1 <= m <= n,
            n == s@.len(),
            m == pat@.len(),
            k <= n - m + 1,
            forall|q: int| 0 <= q < k ==> #[trigger] s@.subrange(q, q + pat@.len()) != pat@,
        decreases n - m - k + 1,
    {
        let candidate = s.substring_char(k, k + m);
        if str_eq(candidate, pat) {
            proof {
                assert(s@.subrange(k as int, k + pat@.len()) == pat@);
            }
            return true;
        }
        k = k + 1;
    }
    proof {
        assert(!spec_contains_sub(s@, pat@));
    }
    false
}

/// Drives deployments to one test server: composes the remote commands and
/// interprets what came back; the caller opens the SSH session and runs them.
pub struct DeploymentClient {
    pub config: ServerConfig,
}

impl DeploymentClient {
    pub fn new(config: ServerConfig) -> (r: Self)
        ensures
            r.config == config,
    {
        DeploymentClient { config }
    }

    /// The remote command that stops a running agent under the deploy path.
    pub fn stop_command(&self) -> (r: String)
        ensures
            r@ == "cd "@ + self.config.remote_deploy_path@
                + " && if [ -f aurelia.pid ]; then kill $(cat aurelia.pid); rm aurelia.pid; fi"@,
    {
        let mut out = "cd ".to_owned();
        out.append(self.config.remote_deploy_path.as_str());
        out.append(" && if [ -f aurelia.pid ]; then kill $(cat aurelia.pid); rm aurelia.pid; fi");
        out
    }

    /// The remote command that removes the whole deployment.
    pub fn cleanup_command(&self) -> (r: String)
        ensures
            r@ == "rm -rf "@ + self.config.remote_deploy_path@,
    {
        let mut out = "rm -rf ".to_owned();
        out.append(self.config.remote_deploy_path.as_str());
        out
    }

    /// The remote command that starts the agent through its startup script.
    pub fn start_command(&self) -> (r: String)
        ensures
            r@ == "cd "@ + self.config.remote_deploy_path@ + " && ./start_agent.sh"@,
    {
        let mut out = "cd ".to_owned();
        out.append(self.config.remote_deploy_path.as_str());
        out.append(" && ./start_agent.sh");
        out
    }

    /// Whether a connection test's output proves the round trip worked.
    pub fn connection_test_passed(output: &str) -> (r: bool)
        ensures
            r == spec_contains_sub(output@, "Connection test successful"@),
    {
        contains_sub(output, "Connection test successful")
    }
}

/// Interprets what a monitored agent's host printed; the caller runs the
/// commands remotely and hands the output in.
pub struct AgentMonitor {
    pub config: ServerConfig,
}

impl AgentMonitor {
    pub fn new(config: ServerConfig) -> (r: Self)
        ensures
            r.config == config,
    {
        AgentMonitor { config }
    }

    /// The process checker prints RUNNING exactly when the pid file's
    /// process is alive.
    pub fn interpret_process_status(output: &str) -> (r: bool)
        ensures
            r == spec_contains_sub(output@, "RUNNING"@),
    {
        contains_sub(output, "RUNNING")
    }

    /// The replica check prints EXISTS exactly when the binary is in place.
    pub fn interpret_replica_deployment(output: &str) -> (r: bool)
        ensures
            r == spec_contains_sub(output@, "EXISTS"@),
    {
        contains_sub(output, "EXISTS")
    }

    /// A log excerpt shows activity when some line carries a log-level tag.
    pub fn has_log_activity(lines: &Vec<String>) -> (r: bool)
        ensures
            r == exists|i: int|
                0 <= i < lines@.len() && spec_line_active((#[trigger] lines@[i])@),
    {
        let n: usize = lines.len();
        let mut i: usize = 0;
        while i < n
            invariant
                i <= n,
                n == lines@.len(),
                forall|j: int| 0 <= j < i ==> !spec_line_active((#[trigger] lines@[j])@),
            decreases n - i,
        {
            let line = lines[i].as_str();
            if contains_sub(line, "[INFO]") || contains_sub(line, "[WARN]") || contains_sub(
                line,
                "[ERROR]",
            ) {
                return true;
            }
            i = i + 1;
        }
        false
    }

    /// A counter command's output parsed as a count: the trimmed text read
    /// as a decimal number, zero when it is not one or does not fit.
    pub fn parse_count(output: &str) -> (r: u64)
        ensures
            r == spec_parsed_count(output@),
    {
        parse_trimmed_count(output)
    }
}

pub open spec fn spec_line_active(line: Seq<char>) -> bool {
    spec_contains_sub(line, "[INFO]"@) || spec_contains_sub(line, "[WARN]"@) || spec_contains_sub(
        line,
        "[ERROR]"@,
    )
}

pub open spec fn spec_is_space(c: char) -> bool {
    c == ' ' || c == '\n' || c == '\t' || c == '\r'
}

pub open spec fn spec_trim_start(s: Seq<char>) -> Seq<char>
    decreases s.len(),
{
    if s.len() > 0 && spec_is_space(s[0]) {
        spec_trim_start(s.skip(1))
    } else {
        s
    }
}

pub open spec fn spec_trim_end(s: Seq<char>) -> Seq<char>
    decreases s.len(),
{
    if s.len() > 0 && spec_is_space(s.last()) {
        spec_trim_end(s.drop_last())
    } else {
        s
    }
}

pub open spec fn spec_trimmed(s: Seq<char>) -> Seq<char> {
    spec_trim_end(spec_trim_start(s))
}

pub open spec fn spec_is_digit(c: char) -> bool {
    '0' <= c <= '9'
}

pub open spec fn spec_digit_value(c: char) -> int {
    c as int - '0' as int
}

pub open spec fn spec_all_digits(s: Seq<char>) -> bool {
    forall|i: int| 0 <= i < s.len() ==> spec_is_digit(#[trigger] s[i])
}

/// The number a digit string denotes.
pub open spec fn spec_dec_num(s: Seq<char>) -> int
    decreases s.len(),
{
    if s.len() == 0 {
        0
    } else {
        spec_dec_num(s.drop_last()) * 10 + spec_digit_value(s.last())
    }
}

/// What a counter command's output denotes: the trimmed text's value when it
/// is a non-empty digit string whose value fits, zero otherwise.
pub open spec fn spec_parsed_count(s: Seq<char>) -> int {
    let t = spec_trimmed(s);
    if t.len() > 0 && spec_all_digits(t) && spec_dec_num(t) <= u64::MAX {
        spec_dec_num(t)
    } else {
        0
    }
}

proof fn lemma_dec_num_nonneg(s: Seq<char>)
    requires
        spec_all_digits(s),
    ensures
        spec_dec_num(s) >= 0,
    decreases s.len(),
{
    if s.len() > 0 {
        assert(spec_all_digits(s.drop_last())) by {
            assert(forall|i: int| 0 <= i < s.len() - 1 ==> s.drop_last()[i] == s[i]);
        }
        lemma_dec_num_nonneg(s.drop_last());
    }
}

/// A digit string's prefixes denote no more than the whole.
proof fn lemma_dec_num_prefix(s: Seq<char>, k: int)
    requires
        spec_all_digits(s),
        0 <= k <= s.len(),
    ensures
        spec_dec_num(s.subrange(0, k)) <= spec_dec_num(s),
    decreases s.len() - k,
{
    if k == s.len() {
        assert(s.subrange(0, k) =~= s);
    } else {
        let t = s.subrange(0, k + 1);
        assert(t.drop_last() =~= s.subrange(0, k));
        assert(spec_all_digits(t)) by {
            assert(forall|i: int| 0 <= i < t.len() ==> t[i] == s[i]);
        }
        lemma_dec_num_nonneg(s.subrange(0, k));
        assert(spec_dec_num(s.subrange(0, k)) <= spec_dec_num(t));
        lemma_dec_num_prefix(s, k + 1);
    }
}

fn is_space(c: char) -> (r: bool)
    ensures
        r == spec_is_space(c),
{
    c == ' ' || c == '\n' || c == '\t' || c == '\r'
}

fn is_digit(c: char) -> (r: bool)
    ensures
        r == spec_is_digit(c),
{
    '0' <= c && c <= '9'
}

/// Parse the trimmed text as a decimal count, zero when it is not a number
/// or does not fit in 64 bits.
fn parse_trimmed_count(s: &str) -> (r: u64)
    ensures
        r == spec_parsed_count(s@),
{
    let n: usize = s.unicode_len();
    let mut lo: usize = 0;
    proof {
        assert(s@.skip(0) =~= s@);
    }
    while lo < n && is_space(s.get_char(lo))
        invariant
            lo <= n,
            n == s@.len(),
            spec_trim_start(s@) == spec_trim_start(s@.skip(lo as int)),
            forall|j: int| 0 <= j < lo ==> spec_is_space(#[trigger] s@[j]),
        decreases n - lo,
    {
        proof {
            assert(s@.skip(lo as int).skip(1) =~= s@.skip(lo + 1));
        }
        lo = lo + 1;
    }
    proof {
        if lo < n {
            assert(!spec_is_space(s@.skip(lo as int)[0]));
        }
        assert(spec_trim_start(s@.skip(lo as int)) =~= s@.skip(lo as int));
    }
    let mut hi: usize = n;
    proof {
        assert(s@.skip(lo as int).take(n - lo as int) =~= s@.skip(lo as int));
    }
    while hi > lo && is_space(s.get_char(hi - 1))
        invariant
            lo <= hi <= n,
            n == s@.len(),
            spec_trim_start(s@) == s@.skip(lo as int),
            spec_trim_end(s@.skip(lo as int)) == spec_trim_end(
                s@.skip(lo as int).take(hi - lo as int),
            ),
        decreases hi,
    {
        proof {
            let cur = s@.skip(lo as int).take(hi - lo as int);
            assert(cur.last() == s@[hi - 1]);
            assert(cur.drop_last() =~= s@.skip(lo as int).take(hi - 1 - lo as int));
        }
        hi = hi - 1;
    }
    let ghost trimmed = spec_trimmed(s@);
    proof {
        let cur = s@.skip(lo as int).take(hi - lo as int);
        if hi > lo {
            assert(cur.last() == s@[hi - 1]);
            assert(!spec_is_space(cur.last()));
        }
        assert(spec_trim_end(cur) =~= cur);
        assert(trimmed =~= cur);
    }
    if hi == lo {
        proof {
            assert(trimmed.len() == 0);
        }
        return 0;
    }
    let mut acc: u64 = 0;
    let mut i: usize = lo;
    while i < hi
        invariant
            lo <= i <= hi <= n,
            n == s@.len(),
            trimmed == s@.skip(lo as int).take(hi - lo as int),
            trimmed == spec_trimmed(s@),
            hi > lo,
            spec_all_digits(trimmed.subrange(0, i - lo as int)),
            acc == spec_dec_num(trimmed.subrange(0, i - lo as int)),
        decreases hi - i,
    {
        let c = s.get_char(i);
        proof {
            assert(trimmed[i - lo as int] == s@[i as int]);
        }
        if !is_digit(c) {
            proof {
                assert(!spec_all_digits(trimmed));
            }
            return 0;
        }
        let d: u64 = digit_of(c);
        if acc > (u64::MAX - d) / 10 {
            proof {
                let pre = trimmed.subrange(0, i + 1 - lo as int);
                assert(pre.drop_last() =~= trimmed.subrange(0, i - lo as int));
                assert(pre.last() == trimmed[i - lo as int]);
                assert(spec_all_digits(pre)) by {
                    assert(forall|q: int| 0 <= q < pre.len() ==> pre[q] == trimmed[q]);
                }
                assert(spec_dec_num(pre) == acc * 10 + d);
                assert(acc * 10 + d > u64::MAX) by (nonlinear_arith)
                    requires
                        acc > (u64::MAX - d) / 10,
                        0 <= d <= 9,
                        acc >= 0,
                ;
                if spec_all_digits(trimmed) {
                    lemma_dec_num_prefix(trimmed, i + 1 - lo as int);
                    assert(pre =~= trimmed.subrange(0, i + 1 - lo as int));
                    assert(spec_dec_num(trimmed) > u64::MAX);
                }
            }
            return 0;
        }
        proof {
            assert(acc * 10 + d <= u64::MAX) by (nonlinear_arith)
                requires
                    acc <= (u64::MAX - d) / 10,
                    0 <= d <= 9,
                    acc >= 0,
            ;
            let pre = trimmed.subrange(0, i + 1 - lo as int);
            assert(pre.drop_last() =~= trimmed.subrange(0, i - lo as int));
            assert(pre.last() == trimmed[i - lo as int]);
            assert(spec_all_digits(pre)) by {
                assert(forall|q: int| 0 <= q < pre.len() ==> pre[q] == trimmed[q]);
            }
        }
        acc = acc * 10 + d;
        i = i + 1;
    }
    proof {
        assert(trimmed.subrange(0, hi - lo as int) =~= trimmed);
        assert(spec_all_digits(trimmed));
        assert(acc == spec_dec_num(trimmed));
        lemma_dec_num_nonneg(trimmed);
    }
    acc
}

fn digit_of(c: char) -> (r: u64)
    requires
        spec_is_digit(c),
    ensures
        r == spec_digit_value(c),
        r <= 9,
{
    (c as u32 - '0' as u32) as u64
}

} // verus!
