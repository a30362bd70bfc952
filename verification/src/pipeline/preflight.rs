//! The preflight step: refuse protected branches, then report the branch
//! and the size of the change.

use vstd::prelude::*;
use crate::canary::command::CommandOutput;
use crate::config::Config;
use crate::error::ShipError;
use crate::pipeline::{StepResult, StepStatus};
use crate::text::{chars_of, decimal, lines, lines_of, push_decimal, push_str, string_of, trim, trim_str};
use crate::text::eq_text;

verus! {

/// Branches that a release never starts from: the configured base branch,
/// `master` and `main`.
pub open spec fn is_protected_branch(config: Config, branch: Seq<char>) -> bool {
    branch == config.base_branch@ || branch == "master"@ || branch == "main"@
}

pub fn is_protected(config: &Config, branch: &str) -> (b: bool)
    ensures
        b == is_protected_branch(*config, branch@),
{
    let v = chars_of(branch);
    eq_text(&v, config.base_branch.as_str()) || eq_text(&v, "master") || eq_text(&v, "main")
}

/// The summary line of `git diff --stat`: its last line, trimmed; `no
/// changes` when it printed nothing, `diff unavailable` when it failed.
pub open spec fn diff_summary_of(success: bool, stat: Seq<char>) -> Seq<char> {
    if !success {
        "diff unavailable"@
    } else if lines(stat).len() == 0 {
        "no changes"@
    } else {
        trim(lines(stat).last())
    }
}

pub fn diff_summary(success: bool, stat: &str) -> (r: String)
    ensures
        r@ == diff_summary_of(success, stat@),
{
    if !success {
        return string_of("diff unavailable");
    }
    let ls = lines_of(stat);
    if ls.len() == 0 {
        return string_of("no changes");
    }
    proof {
        assert(crate::text::views(ls@)[ls.len() - 1] == ls@[ls.len() - 1]@);
    }
    trim_str(ls[ls.len() - 1].as_str())
}

/// `branch: <branch>, <diff>`, and `, <n> uncommitted` when the working
/// tree has changes (`status` is the trimmed `git status --porcelain`).
pub open spec fn preflight_detail(branch: Seq<char>, status: Seq<char>, diff: Seq<char>) -> Seq<char> {
    "branch: "@ + branch + ", "@ + diff + if status.len() == 0 {
        Seq::<char>::empty()
    } else {
        ", "@ + decimal(lines(status).len()) + " uncommitted"@
    }
}

/// The preflight step, given the current branch, the trimmed output of
/// `git status --porcelain` and the diff summary.
pub fn run(config: &Config, branch: &str, status: &str, diff: &str, duration: u64) -> (r:
    StepResult)
    ensures
        r.name@ == "Preflight"@,
        r.duration == duration,
        is_protected_branch(*config, branch@) ==> (r.status matches StepStatus::Fail(m) && m@
            == "On protected branch: "@ + branch@) && r.output is None,
        !is_protected_branch(*config, branch@) ==> r.status is Pass && (r.output matches Some(o)
            && o@ == preflight_detail(branch@, status@, diff@)),
{
    if is_protected(config, branch) {
        let mut m = string_of("On protected branch: ");
        push_str(&mut m, branch);
        return StepResult {
            name: string_of("Preflight"),
            status: StepStatus::Fail(m),
            duration,
            output: None,
        };
    }
    let mut detail = string_of("branch: ");
    push_str(&mut detail, branch);
    push_str(&mut detail, ", ");
    push_str(&mut detail, diff);
    if !status.is_empty() {
        let n = lines_of(status).len();
        push_str(&mut detail, ", ");
        push_decimal(&mut detail, n as u64);
        push_str(&mut detail, " uncommitted");
    }
    proof {
        assert(detail@ =~= preflight_detail(branch@, status@, diff@));
    }
    StepResult { name: string_of("Preflight"), status: StepStatus::Pass, duration, output: Some(detail) }
}

/// The current branch from the outcome of `git rev-parse --abbrev-ref HEAD`:
/// its trimmed output, or, when the command failed, the error that this is
/// not a git repository.
pub fn current_branch(lookup: &CommandOutput) -> (r: Result<String, ShipError>)
    ensures
        !lookup.success ==> (r matches Err(ShipError::Git(m)) && m@ == "Not a git repository"@),
        lookup.success ==> (r matches Ok(b) && b@ == trim(lookup.stdout@)),
{
    if lookup.success {
        Ok(trim_str(lookup.stdout.as_str()))
    } else {
        Err(ShipError::Git(string_of("Not a git repository")))
    }
}

} // verus!
