//! The push step: push the branch to `origin` and report where it went.

use vstd::prelude::*;
use crate::canary::command::CommandOutput;
use crate::pipeline::{StepResult, StepStatus};
use crate::text::{push_str, string_of, trim, trim_str, views};

verus! {

/// The arguments of `git` that push the current branch to `origin` and
/// track it there.
pub fn push_args() -> (r: Vec<String>)
    ensures
        views(r@) == seq!["push"@, "-u"@, "origin"@, "HEAD"@],
{
    let mut r: Vec<String> = Vec::new();
    r.push(string_of("push"));
    r.push(string_of("-u"));
    r.push(string_of("origin"));
    r.push(string_of("HEAD"));
    proof {
        assert(views(r@) =~= seq!["push"@, "-u"@, "origin"@, "HEAD"@]);
    }
    r
}

/// The push step once `git push` ran on `branch`: the remote branch on
/// success, else the trimmed error.
pub fn run(out: &CommandOutput, branch: &str, duration: u64) -> (r: StepResult)
    ensures
        r.name@ == "Push"@,
        r.duration == duration,
        out.success ==> r.status is Pass && (r.output matches Some(o) && o@ == "origin/"@ + trim(
            branch@,
        )),
        !out.success ==> (r.status matches StepStatus::Fail(m) && m@ == "push failed: "@ + trim(
            out.stderr@,
        )) && r.output is None,
{
    if out.success {
        let mut o = string_of("origin/");
        let b = trim_str(branch);
        push_str(&mut o, b.as_str());
        StepResult { name: string_of("Push"), status: StepStatus::Pass, duration, output: Some(o) }
    } else {
        let mut m = string_of("push failed: ");
        let e = trim_str(out.stderr.as_str());
        push_str(&mut m, e.as_str());
        StepResult { name: string_of("Push"), status: StepStatus::Fail(m), duration, output: None }
    }
}

} // verus!
