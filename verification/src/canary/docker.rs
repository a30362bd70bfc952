//! The Docker check: a container's state, asked over SSH.

use vstd::prelude::*;
use crate::canary::command::CommandOutput;
use crate::canary::{CanaryStatus, HealthCheck};
use crate::text::{
    chars_of, contains_seq, contains_str, decimal, last_index_of, last_pos, lowercase, parse_unsigned,
    parse_unsigned_chars, push_decimal, push_str, string_from_range, string_of, to_lowercase, trim,
    trim_str, views,
};

verus! {

/// Splits `user@host:port` into the target and the port; the part after the
/// last `:` is a port only when it reads as a `u16`.
pub open spec fn ssh_parts(ssh: Seq<char>) -> (Seq<char>, Option<Seq<char>>) {
    let k = last_pos(ssh, ':');
    if k >= 0 && parse_unsigned(ssh.skip(k + 1), 65535) is Some {
        (ssh.take(k), Some(ssh.skip(k + 1)))
    } else {
        (ssh, None)
    }
}

/// The SSH target and port of `user@host[:port]`.
pub fn parse_ssh(ssh: &str) -> (r: (String, Option<String>))
    ensures
        r.0@ == ssh_parts(ssh@).0,
        crate::config::opt_view(r.1) == ssh_parts(ssh@).1,
{
    let v = chars_of(ssh);
    if let Some(k) = last_index_of(&v, ':') {
        let port = string_from_range(&v, k + 1, v.len());
        let pv = chars_of(port.as_str());
        proof {
            assert(pv@ =~= v@.skip(k + 1));
        }
        if parse_unsigned_chars(&pv, 65535).is_some() {
            let target = string_from_range(&v, 0, k);
            proof {
                assert(target@ =~= v@.take(k as int));
            }
            return (target, Some(port));
        }
    }
    (string_of(ssh), None)
}

/// Taking an SSH string apart loses nothing: target, `:` and port give the
/// string back.
pub proof fn law_ssh_parts_round_trip(ssh: Seq<char>)
    ensures
        ssh_parts(ssh).1 matches Some(p) ==> ssh_parts(ssh).0 + ":"@ + p == ssh,
        ssh_parts(ssh).1 is None ==> ssh_parts(ssh).0 == ssh,
{
    let k = last_pos(ssh, ':');
    if k >= 0 && parse_unsigned(ssh.skip(k + 1), 65535) is Some {
        lemma_last_pos_in(ssh, ':');
        reveal_strlit(":");
        assert(ssh.take(k) + ":"@ + ssh.skip(k + 1) =~= ssh);
    }
}

proof fn lemma_last_pos_in(s: Seq<char>, c: char)
    ensures
        -1 <= last_pos(s, c) < s.len(),
        last_pos(s, c) >= 0 ==> s[last_pos(s, c)] == c,
    decreases s.len(),
{
    if s.len() > 0 && s.last() != c {
        lemma_last_pos_in(s.drop_last(), c);
    }
}

/// The arguments of `ssh` that run `cmd` on `target` without prompting.
pub open spec fn ssh_arg_list(
    target: Seq<char>,
    port: Option<Seq<char>>,
    connect_timeout: nat,
    cmd: Seq<char>,
) -> Seq<Seq<char>> {
    let opts = seq![
        "-o"@,
        "StrictHostKeyChecking=no"@,
        "-o"@,
        "ConnectTimeout="@ + decimal(connect_timeout),
        "-o"@,
        "BatchMode=yes"@,
    ];
    let port_args = match port {
        Some(p) => seq!["-p"@, p],
        None => Seq::<Seq<char>>::empty(),
    };
    opts + port_args + seq![target, cmd]
}

/// The arguments of an `ssh` call that runs `cmd` on `target`.
pub fn ssh_args(target: &str, port: Option<&str>, connect_timeout: u64, cmd: &str) -> (r: Vec<String>)
    ensures
        views(r@) == ssh_arg_list(target@, crate::text::str_opt(port), connect_timeout as nat, cmd@),
{
    let mut timeout = string_of("ConnectTimeout=");
    push_decimal(&mut timeout, connect_timeout);
    let mut r: Vec<String> = Vec::new();
    r.push(string_of("-o"));
    r.push(string_of("StrictHostKeyChecking=no"));
    r.push(string_of("-o"));
    r.push(timeout);
    r.push(string_of("-o"));
    r.push(string_of("BatchMode=yes"));
    if let Some(p) = port {
        r.push(string_of("-p"));
        r.push(string_of(p));
    }
    r.push(string_of(target));
    r.push(string_of(cmd));
    proof {
        assert(views(r@) =~= ssh_arg_list(target@, crate::text::str_opt(port), connect_timeout as nat, cmd@));
    }
    r
}

/// The remote command that prints a container's state.
pub open spec fn inspect_command(container: Seq<char>) -> Seq<char> {
    "docker inspect --format='{{.State.Status}}' "@ + container
}

pub fn docker_inspect_command(container: &str) -> (r: String)
    ensures
        r@ == inspect_command(container@),
{
    let mut r = string_of("docker inspect --format='{{.State.Status}}' ");
    push_str(&mut r, container);
    r
}

/// `s` without leading and trailing `'` (std `trim_matches('\'')`).
pub open spec fn strip_quotes(s: Seq<char>) -> Seq<char>
    decreases s.len(),
{
    if s.len() > 0 && s[0] == '\'' {
        strip_quotes(s.drop_first())
    } else if s.len() > 0 && s.last() == '\'' {
        strip_quotes(s.drop_last())
    } else {
        s
    }
}

fn strip_quotes_str(s: &str) -> (r: String)
    ensures
        r@ == strip_quotes(s@),
{
    let v = chars_of(s);
    let mut i: usize = 0;
    let mut j: usize = v.len();
    proof {
        assert(v@.subrange(0, v.len() as int) =~= v@);
    }
    while i < j && (v[i] == '\'' || v[j - 1] == '\'')
        invariant
            i <= j <= v.len(),
            strip_quotes(v@) == strip_quotes(v@.subrange(i as int, j as int)),
        decreases j - i,
    {
        let ghost w = v@.subrange(i as int, j as int);
        if v[i] == '\'' {
            proof {
                assert(w.drop_first() =~= v@.subrange(i + 1, j as int));
            }
            i = i + 1;
        } else {
            proof {
                assert(w.drop_last() =~= v@.subrange(i as int, j - 1));
            }
            j = j - 1;
        }
    }
    string_from_range(&v, i, j)
}

/// Why the SSH call of a Docker check failed, from what it wrote to stderr.
pub open spec fn docker_failure(container: Seq<char>, stderr: Seq<char>) -> Seq<char> {
    if contains_seq(stderr, "Permission denied"@) {
        "SSH auth failed"@
    } else if contains_seq(stderr, "Connection refused"@) || contains_seq(stderr, "timed out"@) {
        "SSH connection failed"@
    } else if contains_seq(stderr, "No such object"@) {
        "container '"@ + container + "' not found"@
    } else {
        "SSH error: "@ + stderr
    }
}

/// The result of a Docker check on `container`, from the outcome of the SSH
/// call (`Err` when it could not be started) and its latency.
pub open spec fn docker_check_ok(
    h: HealthCheck,
    container: Seq<char>,
    out: Result<(bool, Seq<char>, Seq<char>), Seq<char>>,
    latency_ms: u64,
) -> bool {
    &&& h.name@ == "Docker "@ + container
    &&& match out {
        Err(e) => h.status matches CanaryStatus::Down(m) && m@ == "ssh command failed: "@ + e
            && h.latency_ms is None && h.details is None,
        Ok((success, stdout, stderr)) => {
            let err = trim(stderr);
            let state = lowercase(strip_quotes(trim(stdout)));
            &&& h.latency_ms == Some(latency_ms)
            &&& !success ==> {
                &&& h.status matches CanaryStatus::Down(m) && m@ == docker_failure(container, err)
                &&& if err.len() == 0 {
                    h.details is None
                } else {
                    h.details matches Some(d) && d@ == err
                }
            }
            &&& success ==> {
                &&& h.details matches Some(d) && d@ == "status: "@ + state
                &&& if state == "running"@ {
                    h.status is Healthy
                } else if state == "restarting"@ {
                    h.status matches CanaryStatus::Degraded(m) && m@ == "container restarting"@
                } else {
                    h.status matches CanaryStatus::Down(m) && m@ == "container status: "@ + state
                }
            }
        },
    }
}

/// The plain content of a command's outcome.
pub open spec fn outcome_view(out: Result<CommandOutput, String>) -> Result<(bool, Seq<char>, Seq<char>), Seq<char>> {
    match out {
        Ok(o) => Ok((o.success, o.stdout@, o.stderr@)),
        Err(e) => Err(e@),
    }
}

fn docker_failure_text(container: &str, stderr: &str) -> (r: String)
    ensures
        r@ == docker_failure(container@, stderr@),
{
    if contains_str(stderr, "Permission denied") {
        string_of("SSH auth failed")
    } else if contains_str(stderr, "Connection refused") || contains_str(stderr, "timed out") {
        string_of("SSH connection failed")
    } else if contains_str(stderr, "No such object") {
        let mut r = string_of("container '");
        push_str(&mut r, container);
        push_str(&mut r, "' not found");
        r
    } else {
        let mut r = string_of("SSH error: ");
        push_str(&mut r, stderr);
        r
    }
}

/// The Docker check of `container`, once the SSH call ran.
pub fn check(container: &str, out: Result<CommandOutput, String>, latency_ms: u64) -> (h: HealthCheck)
    ensures
        docker_check_ok(h, container@, outcome_view(out), latency_ms),
{
    let mut name = string_of("Docker ");
    push_str(&mut name, container);
    match out {
        Err(e) => {
            let mut msg = string_of("ssh command failed: ");
            push_str(&mut msg, e.as_str());
            HealthCheck { name, status: CanaryStatus::Down(msg), latency_ms: None, details: None }
        },
        Ok(o) => {
            let stdout = trim_str(o.stdout.as_str());
            let stderr = trim_str(o.stderr.as_str());
            if !o.success {
                let msg = docker_failure_text(container, stderr.as_str());
                let details = if stderr.as_str().is_empty() {
                    None
                } else {
                    Some(stderr)
                };
                return HealthCheck {
                    name,
                    status: CanaryStatus::Down(msg),
                    latency_ms: Some(latency_ms),
                    details,
                };
            }
            let unquoted = strip_quotes_str(stdout.as_str());
            let state = to_lowercase(unquoted.as_str());
            let mut details = string_of("status: ");
            push_str(&mut details, state.as_str());
            let sv = chars_of(state.as_str());
            let status = if crate::text::eq_text(&sv, "running") {
                CanaryStatus::Healthy
            } else if crate::text::eq_text(&sv, "restarting") {
                CanaryStatus::Degraded(string_of("container restarting"))
            } else {
                let mut m = string_of("container status: ");
                push_str(&mut m, state.as_str());
                CanaryStatus::Down(m)
            };
            HealthCheck { name, status, latency_ms: Some(latency_ms), details: Some(details) }
        },
    }
}

/// The `ssh` arguments that ask the Docker daemon behind `ssh` about `container`.
pub fn invocation(container: &str, ssh: &str) -> (r: Vec<String>)
    ensures
        views(r@) == ssh_arg_list(ssh_parts(ssh@).0, ssh_parts(ssh@).1, 10, inspect_command(container@)),
{
    let (target, port) = parse_ssh(ssh);
    let port_ref: Option<&str> = match &port {
        Some(p) => Some(p.as_str()),
        None => None,
    };
    let cmd = docker_inspect_command(container);
    ssh_args(target.as_str(), port_ref, 10, cmd.as_str())
}

} // verus!
