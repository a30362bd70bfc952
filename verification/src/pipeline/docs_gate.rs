//! The docs-gate step: run the external documentation checker and report
//! what it found; a non-blocking gate only warns.

use vstd::prelude::*;
use crate::canary::command::CommandOutput;
use crate::config::Config;
use crate::pipeline::{StepResult, StepStatus};
use crate::text::{push_str, string_of};

verus! {

/// The step when the `docs-gate` program is not installed.
pub fn not_found(duration: u64) -> (r: StepResult)
    ensures
        r.name@ == "Docs Gate"@,
        r.status matches StepStatus::Skip(m) && m@ == "docs-gate not found in PATH"@,
        r.output is None,
        r.duration == duration,
{
    StepResult {
        name: string_of("Docs Gate"),
        status: StepStatus::Skip(string_of("docs-gate not found in PATH")),
        duration,
        output: None,
    }
}

/// The step once `docs-gate --all` ran; `has_config` tells whether the
/// project has a `.docs-gate.toml`.
pub fn run(config: &Config, has_config: bool, out: &CommandOutput, duration: u64) -> (r:
    StepResult)
    ensures
        r.name@ == "Docs Gate"@,
        r.duration == duration,
        out.success ==> r.status is Pass && (r.output matches Some(o) && o@ == "all checks passed"@
            + if has_config {
            Seq::<char>::empty()
        } else {
            " (default config)"@
        }),
        !out.success && config.docs_gate.blocking ==> (r.status matches StepStatus::Fail(m) && m@
            == "docs-gate failed:\n"@ + out.stdout@) && r.output is None,
        !out.success && !config.docs_gate.blocking ==> (r.status matches StepStatus::Warn(m) && m@
            == "docs-gate issues:\n"@ + out.stdout@) && r.output is None,
        !config.docs_gate.blocking ==> !(r.status is Fail),
{
    if out.success {
        let mut o = string_of("all checks passed");
        if !has_config {
            push_str(&mut o, " (default config)");
        }
        return StepResult {
            name: string_of("Docs Gate"),
            status: StepStatus::Pass,
            duration,
            output: Some(o),
        };
    }
    let status = if config.docs_gate.blocking {
        let mut m = string_of("docs-gate failed:\n");
        push_str(&mut m, out.stdout.as_str());
        StepStatus::Fail(m)
    } else {
        let mut m = string_of("docs-gate issues:\n");
        push_str(&mut m, out.stdout.as_str());
        StepStatus::Warn(m)
    };
    StepResult { name: string_of("Docs Gate"), status, duration, output: None }
}

} // verus!
