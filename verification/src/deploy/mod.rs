//! Deployment: which provider does what, the commands an SSH deploy runs,
//! and the errors a deploy ends with.

use vstd::prelude::*;
use std::time::Duration;
use crate::canary::docker::{parse_ssh, ssh_parts};
use crate::config::{opt_view, CanaryConfig, DeployConfig};
use crate::error::ShipError;
use crate::pipeline::test::test_program;
use crate::text::{chars_of, push_str, string_of, views, words};
use crate::text::eq_text;

verus! {

/// The outcome of a deploy.
pub struct DeployResult {
    pub success: bool,
    pub duration: Duration,
}

/// One command of an SSH deploy: what is announced before it runs, the
/// command, and whether its output is shown.
pub struct RemoteCommand {
    pub notice: String,
    pub command: String,
    pub shows_output: bool,
}

/// What a deploy does.
pub enum DeployPlan {
    /// Run these commands, in order, on `target` over SSH.
    Ssh { target: String, port: Option<String>, commands: Vec<RemoteCommand> },
    /// GitHub Actions deploys on push: only report the latest workflow run.
    GithubActions,
    /// `cargo publish --dry-run`.
    Cargo,
    /// Render deploys on push: nothing to trigger.
    Render,
    /// Run this program with these arguments on this machine (the words of
    /// the configured command line).
    Custom { command: String, program: String, args: Vec<String> },
}

/// The deploy command of the SSH provider when none is configured.
pub open spec fn default_deploy_command() -> Seq<char> {
    "cd /opt/app && git pull origin main && docker compose build && docker compose up -d"@
}

/// The remote commands of an SSH deploy, with their notices: the deploy
/// command (whose output is shown), bracketed by switching maintenance mode
/// on and off when it is configured.
pub open spec fn ssh_commands(config: DeployConfig) -> Seq<(Seq<char>, Seq<char>, bool)> {
    let deploy = (
        "  \u{1f680} Running deploy..."@,
        match config.command {
            Some(c) => c@,
            None => default_deploy_command(),
        },
        true,
    );
    if config.maintenance_mode {
        seq![
            ("  \u{1f527} Maintenance mode ON..."@, "echo 'maintenance on'"@, false),
            deploy,
            ("  \u{1f527} Maintenance mode OFF..."@, "echo 'maintenance off'"@, false),
        ]
    } else {
        seq![deploy]
    }
}

pub open spec fn remote_views(cs: Seq<RemoteCommand>) -> Seq<(Seq<char>, Seq<char>, bool)> {
    cs.map_values(|c: RemoteCommand| (c.notice@, c.command@, c.shows_output))
}

/// What `config` asks a deploy to do, or why it cannot.
pub open spec fn plan_ok(r: Result<DeployPlan, ShipError>, config: DeployConfig) -> bool {
    let p = config.provider@;
    if p == "ssh"@ {
        match config.ssh {
            Some(s) => r matches Ok(DeployPlan::Ssh { target, port, commands }) && target@
                == ssh_parts(s@).0 && opt_view(port) == ssh_parts(s@).1 && remote_views(commands@)
                == ssh_commands(config),
            None => r matches Err(ShipError::Config(m)) && m@
                == "deploy.ssh required for ssh provider"@,
        }
    } else if p == "github-actions"@ {
        r matches Ok(DeployPlan::GithubActions)
    } else if p == "cargo"@ {
        r matches Ok(DeployPlan::Cargo)
    } else if p == "render"@ {
        r matches Ok(DeployPlan::Render)
    } else if p == "custom"@ {
        match config.command {
            Some(c) if words(c@).len() > 0 => r matches Ok(
                DeployPlan::Custom { command, program, args },
            ) && command@ == c@ && program@ == words(c@)[0] && views(args@) == words(c@).drop_first(),
            _ => r matches Err(ShipError::Config(m)) && m@
                == "deploy.command required for custom provider"@,
        }
    } else {
        r matches Err(ShipError::Config(m)) && m@ == "unknown deploy provider: "@ + p
    }
}

fn ssh_command_list(config: &DeployConfig) -> (r: Vec<RemoteCommand>)
    ensures
        remote_views(r@) == ssh_commands(*config),
{
    let deploy = RemoteCommand {
        notice: string_of("  \u{1f680} Running deploy..."),
        command: match &config.command {
            Some(c) => c.clone(),
            None => string_of(
                "cd /opt/app && git pull origin main && docker compose build && docker compose up -d",
            ),
        },
        shows_output: true,
    };
    let mut r: Vec<RemoteCommand> = Vec::new();
    if config.maintenance_mode {
        r.push(
            RemoteCommand {
                notice: string_of("  \u{1f527} Maintenance mode ON..."),
                command: string_of("echo 'maintenance on'"),
                shows_output: false,
            },
        );
        r.push(deploy);
        r.push(
            RemoteCommand {
                notice: string_of("  \u{1f527} Maintenance mode OFF..."),
                command: string_of("echo 'maintenance off'"),
                shows_output: false,
            },
        );
    } else {
        r.push(deploy);
    }
    proof {
        assert(remote_views(r@) =~= ssh_commands(*config));
    }
    r
}

/// Decides what a deploy under `config` does.
pub fn plan(config: &DeployConfig) -> (r: Result<DeployPlan, ShipError>)
    ensures
        plan_ok(r, *config),
{
    let p = chars_of(config.provider.as_str());
    if eq_text(&p, "ssh") {
        match &config.ssh {
            Some(s) => {
                let (target, port) = parse_ssh(s.as_str());
                Ok(DeployPlan::Ssh { target, port, commands: ssh_command_list(config) })
            },
            None => Err(ShipError::Config(string_of("deploy.ssh required for ssh provider"))),
        }
    } else if eq_text(&p, "github-actions") {
        Ok(DeployPlan::GithubActions)
    } else if eq_text(&p, "cargo") {
        Ok(DeployPlan::Cargo)
    } else if eq_text(&p, "render") {
        Ok(DeployPlan::Render)
    } else if eq_text(&p, "custom") {
        let words_of = match &config.command {
            Some(c) => test_program(c.as_str()),
            None => None,
        };
        match (&config.command, words_of) {
            (Some(c), Some((program, args))) => Ok(DeployPlan::Custom { command: c.clone(), program, args }),
            _ => Err(ShipError::Config(string_of("deploy.command required for custom provider"))),
        }
    } else {
        let mut m = string_of("unknown deploy provider: ");
        push_str(&mut m, config.provider.as_str());
        Err(ShipError::Config(m))
    }
}

/// The error of a remote command that failed, with what it wrote to stderr.
pub fn ssh_command_failed(stderr: &str) -> (e: ShipError)
    ensures
        e matches ShipError::PushFailed(m) && m@ == "SSH command failed: "@ + stderr@,
{
    let mut m = string_of("SSH command failed: ");
    push_str(&mut m, stderr);
    ShipError::PushFailed(m)
}

/// The error of a custom deploy command that failed.
pub fn custom_command_failed(stderr: &str) -> (e: ShipError)
    ensures
        e matches ShipError::PushFailed(m) && m@ == "deploy command failed: "@ + stderr@,
{
    let mut m = string_of("deploy command failed: ");
    push_str(&mut m, stderr);
    ShipError::PushFailed(m)
}

/// A deploy is followed by a canary run when a health-check URL is configured.
pub fn wants_canary(canary: &CanaryConfig) -> (b: bool)
    ensures
        b == canary.url is Some,
{
    canary.url.is_some()
}

} // verus!
