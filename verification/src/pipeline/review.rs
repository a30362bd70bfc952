//! The code-review step, which is not configured yet and always skips.

use vstd::prelude::*;
use crate::pipeline::{StepResult, StepStatus};
use crate::text::string_of;

verus! {

/// Code-review step: always skipped for now.
pub fn _run(duration: u64) -> (r: StepResult)
    ensures
        r.name@ == "Review"@,
        r.status matches StepStatus::Skip(m) && m@ == "AI review not configured (Phase 3)"@,
        r.output is None,
        r.duration == duration,
{
    StepResult {
        name: string_of("Review"),
        status: StepStatus::Skip(string_of("AI review not configured (Phase 3)")),
        duration,
        output: None,
    }
}

} // verus!
