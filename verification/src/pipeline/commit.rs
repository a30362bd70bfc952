//! The commit step: stage everything, stop when there is nothing to
//! commit, then commit with the release message.

use vstd::prelude::*;
use crate::canary::command::CommandOutput;
use crate::pipeline::{StepResult, StepStatus};
use crate::text::{push_str, string_of, trim, trim_str};

verus! {

/// The message of a release commit.
pub open spec fn commit_message_text(project: Seq<char>, version: Seq<char>) -> Seq<char> {
    "chore: ship "@ + project + " v"@ + version
        + "\n\nAutomated release via ship CLI.\n\nCo-Authored-By: ship-cli <noreply@ship.dev>"@
}

pub fn commit_message(project: &str, version: &str) -> (r: String)
    ensures
        r@ == commit_message_text(project@, version@),
{
    let mut r = string_of("chore: ship ");
    push_str(&mut r, project);
    push_str(&mut r, " v");
    push_str(&mut r, version);
    push_str(&mut r, "\n\nAutomated release via ship CLI.\n\nCo-Authored-By: ship-cli <noreply@ship.dev>");
    r
}

/// What the commit step has learnt so far.
pub struct CommitProgress {
    /// Whether `git add -A` succeeded, once it ran.
    pub staged: Option<bool>,
    /// The output of `git status --porcelain`, once it ran.
    pub status: Option<String>,
    /// What `git commit` left behind, once it ran.
    pub committed: Option<CommandOutput>,
}

/// The next thing the driver of the commit step does.
pub enum CommitAction {
    /// Run `git add -A` and record whether it succeeded.
    Stage,
    /// Run `git status --porcelain` and record its output.
    CheckStatus,
    /// Run `git commit -m <message>` and record its outcome.
    Commit(String),
    /// The step is over.
    Done(StepResult),
}

/// `r` is the commit step's result with this status and output.
pub open spec fn commit_result(r: StepResult, duration: u64) -> bool {
    r.name@ == "Commit"@ && r.duration == duration
}

/// The commit step's decisions: a failed `git add` fails the step, a clean
/// working tree skips it, and otherwise the release commit is made and its
/// outcome reported.
pub open spec fn commit_next_ok(
    a: CommitAction,
    project: Seq<char>,
    version: Seq<char>,
    p: CommitProgress,
    duration: u64,
) -> bool {
    match p.staged {
        None => a is Stage,
        Some(false) => a matches CommitAction::Done(r) && commit_result(r, duration)
            && (r.status matches StepStatus::Fail(m) && m@ == "git add failed"@) && r.output is None,
        Some(true) => match p.status {
            None => a is CheckStatus,
            Some(s) => if trim(s@).len() == 0 {
                a matches CommitAction::Done(r) && commit_result(r, duration) && (r.status matches StepStatus::Skip(m)
                    && m@ == "nothing to commit"@) && r.output is None
            } else {
                match p.committed {
                    None => a matches CommitAction::Commit(m) && m@ == commit_message_text(project, version),
                    Some(o) => a matches CommitAction::Done(r) && commit_result(r, duration) && if o.success {
                        r.status is Pass && (r.output matches Some(out) && out@ == "v"@ + version)
                    } else {
                        (r.status matches StepStatus::Fail(m) && m@ == "commit failed: "@ + o.stderr@)
                            && r.output is None
                    },
                }
            },
        },
    }
}

fn commit_done(status: StepStatus, output: Option<String>, duration: u64) -> (a: CommitAction)
    ensures
        a matches CommitAction::Done(r) && commit_result(r, duration) && r.status == status && r.output
            == output,
{
    CommitAction::Done(StepResult { name: string_of("Commit"), status, duration, output })
}

/// Decides the next move of the commit step for `project` at `version`.
pub fn next(project: &str, version: &str, p: &CommitProgress, duration: u64) -> (a: CommitAction)
    ensures
        commit_next_ok(a, project@, version@, *p, duration),
{
    match p.staged {
        None => CommitAction::Stage,
        Some(false) => commit_done(StepStatus::Fail(string_of("git add failed")), None, duration),
        Some(true) => match &p.status {
            None => CommitAction::CheckStatus,
            Some(s) => {
                let t = trim_str(s.as_str());
                if t.as_str().is_empty() {
                    commit_done(StepStatus::Skip(string_of("nothing to commit")), None, duration)
                } else {
                    match &p.committed {
                        None => CommitAction::Commit(commit_message(project, version)),
                        Some(o) => {
                            if o.success {
                                let mut v = string_of("v");
                                push_str(&mut v, version);
                                commit_done(StepStatus::Pass, Some(v), duration)
                            } else {
                                let mut m = string_of("commit failed: ");
                                push_str(&mut m, o.stderr.as_str());
                                commit_done(StepStatus::Fail(m), None, duration)
                            }
                        },
                    }
                }
            },
        },
    }
}

} // verus!
