//! Custom command checks, run on this machine or over SSH.

use vstd::prelude::*;
use crate::canary::docker::{parse_ssh, ssh_args, ssh_arg_list, ssh_parts};
use crate::canary::{CanaryStatus, HealthCheck};
use crate::config::CustomCheckConfig;
use crate::text::{
    contains_seq, contains_str, push_signed, push_str, signed_decimal, str_opt, string_of, trim,
    trim_str, views,
};

verus! {

/// What a finished command left behind: whether it succeeded, its exit
/// code (none when a signal ended it), and its output decoded as text.
#[derive(Debug, Clone)]
pub struct CommandOutput {
    pub success: bool,
    pub code: Option<i32>,
    pub stdout: String,
    pub stderr: String,
}

/// `exit code <n>`, with -1 when there is no exit code.
pub open spec fn exit_code_text(code: Option<i32>) -> Seq<char> {
    "exit code "@ + signed_decimal(
        match code {
            Some(c) => c as int,
            None => -1,
        },
    )
}

fn exit_code_message(code: Option<i32>) -> (r: String)
    ensures
        r@ == exit_code_text(code),
{
    let mut r = string_of("exit code ");
    let c: i32 = match code {
        Some(c) => c,
        None => -1,
    };
    push_signed(&mut r, c);
    r
}

/// The outcome of a command run on this machine: its trimmed stdout on
/// success, else its trimmed stderr or, when that is empty, its exit code.
pub open spec fn local_outcome(out: Result<CommandOutput, String>) -> Result<Seq<char>, Seq<char>> {
    match out {
        Err(e) => Err("failed to execute: "@ + e@),
        Ok(o) => if o.success {
            Ok(trim(o.stdout@))
        } else if trim(o.stderr@).len() == 0 {
            Err(exit_code_text(o.code))
        } else {
            Err(trim(o.stderr@))
        },
    }
}

/// The outcome of a command run over SSH; authentication and connection
/// failures are named as such.
pub open spec fn ssh_outcome(out: Result<CommandOutput, String>) -> Result<Seq<char>, Seq<char>> {
    match out {
        Err(e) => Err("ssh failed: "@ + e@),
        Ok(o) => {
            let err = trim(o.stderr@);
            if o.success {
                Ok(trim(o.stdout@))
            } else if contains_seq(err, "Permission denied"@) {
                Err("SSH auth failed"@)
            } else if contains_seq(err, "Connection refused"@) || contains_seq(err, "timed out"@) {
                Err("SSH connection failed"@)
            } else if err.len() == 0 {
                Err(exit_code_text(o.code))
            } else {
                Err(err)
            }
        },
    }
}

pub open spec fn text_result(r: Result<String, String>) -> Result<Seq<char>, Seq<char>> {
    match r {
        Ok(s) => Ok(s@),
        Err(e) => Err(e@),
    }
}

/// What a command run on this machine yields (`Err` with the reason it
/// failed).
pub fn run_local(out: Result<CommandOutput, String>) -> (r: Result<String, String>)
    ensures
        text_result(r) == local_outcome(out),
{
    match out {
        Err(e) => {
            let mut m = string_of("failed to execute: ");
            push_str(&mut m, e.as_str());
            Err(m)
        },
        Ok(o) => {
            if o.success {
                Ok(trim_str(o.stdout.as_str()))
            } else {
                let err = trim_str(o.stderr.as_str());
                if err.as_str().is_empty() {
                    Err(exit_code_message(o.code))
                } else {
                    Err(err)
                }
            }
        },
    }
}

/// What a command run over SSH yields (`Err` with the reason it failed).
pub fn run_via_ssh(out: Result<CommandOutput, String>) -> (r: Result<String, String>)
    ensures
        text_result(r) == ssh_outcome(out),
{
    match out {
        Err(e) => {
            let mut m = string_of("ssh failed: ");
            push_str(&mut m, e.as_str());
            Err(m)
        },
        Ok(o) => {
            let err = trim_str(o.stderr.as_str());
            if o.success {
                Ok(trim_str(o.stdout.as_str()))
            } else if contains_str(err.as_str(), "Permission denied") {
                Err(string_of("SSH auth failed"))
            } else if contains_str(err.as_str(), "Connection refused") || contains_str(
                err.as_str(),
                "timed out",
            ) {
                Err(string_of("SSH connection failed"))
            } else if err.as_str().is_empty() {
                Err(exit_code_message(o.code))
            } else {
                Err(err)
            }
        },
    }
}

/// The program and arguments that run a custom check: `sh -c <command>` on
/// this machine, or `ssh ... <target> <command>` when an SSH target is given.
pub open spec fn invocation_of(command: Seq<char>, ssh: Option<Seq<char>>) -> (Seq<char>, Seq<Seq<char>>) {
    match ssh {
        None => ("sh"@, seq!["-c"@, command]),
        Some(s) => ("ssh"@, ssh_arg_list(ssh_parts(s).0, ssh_parts(s).1, 10, command)),
    }
}

pub fn invocation(custom: &CustomCheckConfig, ssh: Option<&str>) -> (r: (String, Vec<String>))
    ensures
        r.0@ == invocation_of(custom.command@, str_opt(ssh)).0,
        views(r.1@) == invocation_of(custom.command@, str_opt(ssh)).1,
{
    match ssh {
        None => {
            let mut args: Vec<String> = Vec::new();
            args.push(string_of("-c"));
            args.push(custom.command.clone());
            proof {
                assert(views(args@) =~= seq!["-c"@, custom.command@]);
            }
            (string_of("sh"), args)
        },
        Some(s) => {
            let (target, port) = parse_ssh(s);
            let port_ref: Option<&str> = match &port {
                Some(p) => Some(p.as_str()),
                None => None,
            };
            let args = ssh_args(target.as_str(), port_ref, 10, custom.command.as_str());
            (string_of("ssh"), args)
        },
    }
}

/// The result of a custom check, from what its command yielded.
pub open spec fn custom_check_ok(
    h: HealthCheck,
    name: Seq<char>,
    outcome: Result<Seq<char>, Seq<char>>,
    latency_ms: u64,
) -> bool {
    &&& h.name@ == name
    &&& h.latency_ms == Some(latency_ms)
    &&& match outcome {
        Ok(stdout) => h.status is Healthy && if stdout.len() == 0 {
            h.details is None
        } else {
            h.details matches Some(d) && d@ == stdout
        },
        Err(msg) => h.status matches CanaryStatus::Down(m) && m@ == msg && h.details is None,
    }
}

/// A custom check, once its command ran (`ssh` is the target it ran on, if
/// any) and took `latency_ms`.
pub fn check(
    custom: &CustomCheckConfig,
    ssh: Option<&str>,
    out: Result<CommandOutput, String>,
    latency_ms: u64,
) -> (h: HealthCheck)
    ensures
        custom_check_ok(
            h,
            custom.name@,
            if ssh is Some {
                ssh_outcome(out)
            } else {
                local_outcome(out)
            },
            latency_ms,
        ),
{
    let result = if ssh.is_some() {
        run_via_ssh(out)
    } else {
        run_local(out)
    };
    match result {
        Ok(stdout) => {
            let details = if stdout.as_str().is_empty() {
                None
            } else {
                Some(stdout)
            };
            HealthCheck {
                name: custom.name.clone(),
                status: CanaryStatus::Healthy,
                latency_ms: Some(latency_ms),
                details,
            }
        },
        Err(msg) => HealthCheck {
            name: custom.name.clone(),
            status: CanaryStatus::Down(msg),
            latency_ms: Some(latency_ms),
            details: None,
        },
    }
}

} // verus!
