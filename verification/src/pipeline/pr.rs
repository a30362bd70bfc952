//! The PR step: open a pull request with the GitHub CLI and report its
//! address.

use vstd::prelude::*;
use crate::canary::command::CommandOutput;
use crate::config::Config;
use crate::pipeline::{StepResult, StepStatus};
use crate::text::{push_str, string_of, trim, trim_str, views};

verus! {

/// `--label <label>` for each label, in order.
pub open spec fn label_args(labels: Seq<Seq<char>>) -> Seq<Seq<char>>
    decreases labels.len(),
{
    if labels.len() == 0 {
        seq![]
    } else {
        label_args(labels.drop_last()) + seq!["--label"@, labels.last()]
    }
}

/// The arguments of `gh` that open the pull request: filled from the
/// commits, a draft when so configured, with the configured labels.
pub open spec fn pr_arg_list(config: Config) -> Seq<Seq<char>> {
    seq!["pr"@, "create"@, "--fill"@] + (if config.pr.draft {
        seq!["--draft"@]
    } else {
        Seq::<Seq<char>>::empty()
    }) + label_args(views(config.pr.labels@))
}

pub fn pr_args(config: &Config) -> (r: Vec<String>)
    ensures
        views(r@) == pr_arg_list(*config),
{
    let mut r: Vec<String> = Vec::new();
    r.push(string_of("pr"));
    r.push(string_of("create"));
    r.push(string_of("--fill"));
    if config.pr.draft {
        r.push(string_of("--draft"));
    }
    let ghost head = views(r@);
    let ghost ls = views(config.pr.labels@);
    let mut i: usize = 0;
    while i < config.pr.labels.len()
        invariant
            i <= config.pr.labels.len(),
            ls == views(config.pr.labels@),
            views(r@) == head + label_args(ls.take(i as int)),
        decreases config.pr.labels.len() - i,
    {
        let ghost before = views(r@);
        r.push(string_of("--label"));
        r.push(config.pr.labels[i].clone());
        proof {
            assert(ls.take(i + 1).drop_last() =~= ls.take(i as int));
            assert(ls.take(i + 1).last() == config.pr.labels@[i as int]@);
            assert(views(r@) =~= before + seq!["--label"@, config.pr.labels@[i as int]@]);
        }
        i = i + 1;
    }
    proof {
        assert(ls.take(i as int) =~= ls);
        assert(views(r@) =~= pr_arg_list(*config));
    }
    r
}

/// The PR step once `gh pr create` ran: the PR's address (its trimmed
/// output) on success, else the trimmed error.
pub fn run(out: &CommandOutput, duration: u64) -> (r: StepResult)
    ensures
        r.name@ == "PR"@,
        r.duration == duration,
        out.success ==> r.status is Pass && (r.output matches Some(o) && o@ == trim(out.stdout@)),
        !out.success ==> (r.status matches StepStatus::Fail(m) && m@ == "gh pr create failed: "@
            + trim(out.stderr@)) && r.output is None,
{
    if out.success {
        StepResult {
            name: string_of("PR"),
            status: StepStatus::Pass,
            duration,
            output: Some(trim_str(out.stdout.as_str())),
        }
    } else {
        let mut m = string_of("gh pr create failed: ");
        let e = trim_str(out.stderr.as_str());
        push_str(&mut m, e.as_str());
        StepResult { name: string_of("PR"), status: StepStatus::Fail(m), duration, output: None }
    }
}

} // verus!
