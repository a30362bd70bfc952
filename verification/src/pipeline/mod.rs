//! The release pipeline: step results, their tallies, and the rules
//! that decide which step comes next.

use vstd::prelude::*;
use crate::config::Config;
use crate::text::string_of;

pub mod changelog;
pub mod commit;
pub mod docs_gate;
pub mod pr;
pub mod preflight;
pub mod push;
pub mod review;
pub mod test;
pub mod version;

verus! {

/// The outcome of one pipeline step.
#[derive(Debug, Clone)]
pub enum StepStatus {
    Pass,
    Fail(String),
    Warn(String),
    Skip(String),
}

/// One executed (or skipped) pipeline step.
#[derive(Debug)]
pub struct StepResult {
    pub name: String,
    pub status: StepStatus,
    /// Time the step took, in nanoseconds.
    pub duration: u64,
    pub output: Option<String>,
}

impl StepResult {
    pub fn is_failure(&self) -> (b: bool)
        ensures
            b == (self.status is Fail),
    {
        match self.status {
            StepStatus::Fail(_) => true,
            _ => false,
        }
    }
}

/// Command-line switches of a pipeline run.
pub struct PipelineOptions {
    pub dry_run: bool,
    pub skip_tests: bool,
    pub skip_docs_gate: bool,
    pub bump: Option<String>,
    pub no_pr: bool,
    pub verbose: bool,
}

/// All steps of a run, its total duration and the PR it opened.
pub struct PipelineResult {
    pub steps: Vec<StepResult>,
    /// Time the run took, in nanoseconds.
    pub duration: u64,
    pub pr_url: Option<String>,
}

/// Number of failed steps.
pub open spec fn count_failed(s: Seq<StepResult>) -> nat
    decreases s.len(),
{
    if s.len() == 0 {
        0
    } else {
        count_failed(s.drop_last()) + if s.last().status is Fail { 1nat } else { 0nat }
    }
}

/// Number of passed steps.
pub open spec fn count_passed(s: Seq<StepResult>) -> nat
    decreases s.len(),
{
    if s.len() == 0 {
        0
    } else {
        count_passed(s.drop_last()) + if s.last().status is Pass { 1nat } else { 0nat }
    }
}

pub open spec fn any_failed(s: Seq<StepResult>) -> bool {
    exists|i: int| 0 <= i < s.len() && (#[trigger] s[i]).status is Fail
}

proof fn lemma_count_le(s: Seq<StepResult>)
    ensures
        count_failed(s) + count_passed(s) <= s.len(),
        count_failed(s) > 0 <==> any_failed(s),
    decreases s.len(),
{
    if s.len() > 0 {
        lemma_count_le(s.drop_last());
        if any_failed(s.drop_last()) {
            let i = choose|i: int| 0 <= i < s.drop_last().len() && (#[trigger] s.drop_last()[i]).status is Fail;
            assert(s[i] == s.drop_last()[i]);
        }
        if any_failed(s) && !(s.last().status is Fail) {
            let i = choose|i: int| 0 <= i < s.len() && (#[trigger] s[i]).status is Fail;
            assert(s.drop_last()[i] == s[i]);
        }
        if s.last().status is Fail {
            assert(s[s.len() - 1].status is Fail);
        }
    }
}

impl PipelineResult {
    pub fn has_failures(&self) -> (b: bool)
        ensures
            b == any_failed(self.steps@),
    {
        let mut i: usize = 0;
        while i < self.steps.len()
            invariant
                i <= self.steps.len(),
                forall|k: int| 0 <= k < i ==> !(self.steps@[k].status is Fail),
            decreases self.steps.len() - i,
        {
            if self.steps[i].is_failure() {
                return true;
            }
            i = i + 1;
        }
        false
    }

    pub fn passed_count(&self) -> (n: usize)
        ensures
            n as nat == count_passed(self.steps@),
    {
        let mut n: usize = 0;
        let mut i: usize = 0;
        while i < self.steps.len()
            invariant
                i <= self.steps.len(),
                n <= i,
                n as nat == count_passed(self.steps@.take(i as int)),
            decreases self.steps.len() - i,
        {
            proof {
                assert(self.steps@.take(i + 1).drop_last() =~= self.steps@.take(i as int));
            }
            match self.steps[i].status {
                StepStatus::Pass => {
                    n = n + 1;
                },
                _ => {},
            }
            i = i + 1;
        }
        proof {
            assert(self.steps@.take(i as int) =~= self.steps@);
        }
        n
    }

    pub fn failed_count(&self) -> (n: usize)
        ensures
            n as nat == count_failed(self.steps@),
    {
        let mut n: usize = 0;
        let mut i: usize = 0;
        while i < self.steps.len()
            invariant
                i <= self.steps.len(),
                n <= i,
                n as nat == count_failed(self.steps@.take(i as int)),
            decreases self.steps.len() - i,
        {
            proof {
                assert(self.steps@.take(i + 1).drop_last() =~= self.steps@.take(i as int));
            }
            if self.steps[i].is_failure() {
                n = n + 1;
            }
            i = i + 1;
        }
        proof {
            assert(self.steps@.take(i as int) =~= self.steps@);
        }
        n
    }
}

/// A run has failures exactly when its failure count is positive, and no
/// step counts both as passed and as failed.
pub proof fn law_failure_tally(r: PipelineResult)
    ensures
        any_failed(r.steps@) <==> count_failed(r.steps@) > 0,
        count_failed(r.steps@) + count_passed(r.steps@) <= r.steps@.len(),
{
    lemma_count_le(r.steps@);
}

/// A step that was not run, with the reason.
pub fn skip(name: &str, reason: &str) -> (r: StepResult)
    ensures
        r.name@ == name@,
        r.status matches StepStatus::Skip(m) && m@ == reason@,
        r.output is None,
        r.duration == 0,
{
    StepResult {
        name: string_of(name),
        status: StepStatus::Skip(string_of(reason)),
        duration: 0,
        output: None,
    }
}

/// Gathers the steps of a run into its result.
pub fn finish(steps: Vec<StepResult>, duration: u64, pr_url: Option<String>) -> (r: PipelineResult)
    ensures
        r.steps@ == steps@,
        r.duration == duration,
        r.pr_url == pr_url,
{
    PipelineResult { duration, pr_url, steps }
}


// ---------------------------------------------------------------------
// Gate logic
// ---------------------------------------------------------------------

/// The steps of a full release, in their order.
#[derive(Debug, Clone, Copy, PartialEq, Eq, Structural)]
pub enum StepKind {
    Preflight,
    Test,
    DocsGate,
    Version,
    Changelog,
    Commit,
    Push,
    Pr,
}

pub open spec fn kind_name(k: StepKind) -> Seq<char> {
    match k {
        StepKind::Preflight => "Preflight"@,
        StepKind::Test => "Test"@,
        StepKind::DocsGate => "Docs Gate"@,
        StepKind::Version => "Version"@,
        StepKind::Changelog => "Changelog"@,
        StepKind::Commit => "Commit"@,
        StepKind::Push => "Push"@,
        StepKind::Pr => "PR"@,
    }
}

/// Steps that change the repository or the remote.
pub open spec fn is_mutating(k: StepKind) -> bool {
    match k {
        StepKind::Version | StepKind::Changelog | StepKind::Commit | StepKind::Push
        | StepKind::Pr => true,
        _ => false,
    }
}

/// What the pipeline does next.
pub enum Plan {
    RunStep(StepKind),
    SkipStep(StepKind),
    Stop,
}

/// The step at position `n` of a full release.
pub open spec fn stage_kind(n: int) -> StepKind {
    if n <= 0 {
        StepKind::Preflight
    } else if n == 1 {
        StepKind::Test
    } else if n == 2 {
        StepKind::DocsGate
    } else if n == 3 {
        StepKind::Version
    } else if n == 4 {
        StepKind::Changelog
    } else if n == 5 {
        StepKind::Commit
    } else if n == 6 {
        StepKind::Push
    } else {
        StepKind::Pr
    }
}

pub open spec fn last_failed(steps: Seq<StepResult>) -> bool {
    steps.len() > 0 && steps.last().status is Fail
}

/// The full release: each step in turn; a failed preflight, test, commit or
/// push ends the run, and so does a failed docs gate when it is blocking; a
/// dry run skips every step from the version bump on.
pub open spec fn run_plan(c: Config, o: PipelineOptions, steps: Seq<StepResult>) -> Plan {
    let n = steps.len();
    if n == 0 {
        Plan::RunStep(StepKind::Preflight)
    } else if n == 1 {
        if last_failed(steps) {
            Plan::Stop
        } else if o.skip_tests {
            Plan::SkipStep(StepKind::Test)
        } else {
            Plan::RunStep(StepKind::Test)
        }
    } else if n == 2 {
        if last_failed(steps) {
            Plan::Stop
        } else if o.skip_docs_gate || !c.docs_gate.enabled {
            Plan::SkipStep(StepKind::DocsGate)
        } else {
            Plan::RunStep(StepKind::DocsGate)
        }
    } else if n == 3 {
        if last_failed(steps) && c.docs_gate.blocking {
            Plan::Stop
        } else if o.dry_run {
            Plan::SkipStep(StepKind::Version)
        } else {
            Plan::RunStep(StepKind::Version)
        }
    } else if n < 8 && o.dry_run {
        Plan::SkipStep(stage_kind(n as int))
    } else if n == 4 {
        Plan::RunStep(StepKind::Changelog)
    } else if n == 5 {
        Plan::RunStep(StepKind::Commit)
    } else if n == 6 {
        if last_failed(steps) {
            Plan::Stop
        } else {
            Plan::RunStep(StepKind::Push)
        }
    } else if n == 7 {
        if last_failed(steps) {
            Plan::Stop
        } else if o.no_pr {
            Plan::SkipStep(StepKind::Pr)
        } else {
            Plan::RunStep(StepKind::Pr)
        }
    } else {
        Plan::Stop
    }
}

/// Why a full release skips a step.
pub open spec fn run_skip_reason(o: PipelineOptions, k: StepKind) -> Seq<char> {
    match k {
        StepKind::Test => "skipped (--skip-tests)"@,
        StepKind::DocsGate => "skipped"@,
        StepKind::Pr => if o.dry_run {
            "dry run"@
        } else {
            "skipped (--no-pr)"@
        },
        _ => "dry run"@,
    }
}

/// The PR address of a finished run: the output of a passed PR step.
pub open spec fn run_pr_url(steps: Seq<StepResult>) -> Option<Seq<char>> {
    if steps.len() == 8 && steps[7].status is Pass {
        crate::config::opt_view(steps[7].output)
    } else {
        None
    }
}

/// Check-only mode: preflight, then the tests and the docs gate unless they
/// are switched off; never stops early and never changes anything.
pub open spec fn check_plan(c: Config, o: PipelineOptions, steps: Seq<StepResult>) -> Plan {
    let n = steps.len();
    let docs = c.docs_gate.enabled && !o.skip_docs_gate;
    if n == 0 {
        Plan::RunStep(StepKind::Preflight)
    } else if n == 1 {
        if !o.skip_tests {
            Plan::RunStep(StepKind::Test)
        } else if docs {
            Plan::RunStep(StepKind::DocsGate)
        } else {
            Plan::Stop
        }
    } else if n == 2 {
        if !o.skip_tests && docs {
            Plan::RunStep(StepKind::DocsGate)
        } else {
            Plan::Stop
        }
    } else {
        Plan::Stop
    }
}

/// The next thing for the driver of a pipeline to do.
pub enum PipelineAction {
    /// Execute this step and record its result.
    Run(StepKind),
    /// Record this (skipped) step without executing anything.
    Record(StepResult),
    /// The run is over; the address of the PR it opened, if any.
    Finish(Option<String>),
}

/// `a` carries out `plan`.
pub open spec fn carries_out(
    a: PipelineAction,
    plan: Plan,
    reason: spec_fn(StepKind) -> Seq<char>,
    pr: Option<Seq<char>>,
) -> bool {
    match plan {
        Plan::RunStep(k) => a matches PipelineAction::Run(j) && j == k,
        Plan::SkipStep(k) => a matches PipelineAction::Record(r) && r.name@ == kind_name(k)
            && r.output is None && r.duration == 0 && (r.status matches StepStatus::Skip(m) && m@ == reason(k)),
        Plan::Stop => a matches PipelineAction::Finish(u) && crate::config::opt_view(u) == pr,
    }
}

fn kind_label(k: StepKind) -> (r: &'static str)
    ensures
        r@ == kind_name(k),
{
    match k {
        StepKind::Preflight => "Preflight",
        StepKind::Test => "Test",
        StepKind::DocsGate => "Docs Gate",
        StepKind::Version => "Version",
        StepKind::Changelog => "Changelog",
        StepKind::Commit => "Commit",
        StepKind::Push => "Push",
        StepKind::Pr => "PR",
    }
}

fn skip_kind(k: StepKind, reason: &str) -> (r: StepResult)
    ensures
        r.name@ == kind_name(k),
        r.status matches StepStatus::Skip(m) && m@ == reason@,
        r.output is None,
        r.duration == 0,
{
    skip(kind_label(k), reason)
}

fn last_is_failure(steps: &Vec<StepResult>) -> (b: bool)
    ensures
        b == last_failed(steps@),
{
    steps.len() > 0 && steps[steps.len() - 1].is_failure()
}

/// Decides the next move of a full release, given the steps recorded so far
/// (step `k` of `steps` being the result of the `k`-th decision).
pub fn run(config: &Config, opts: &PipelineOptions, steps: &Vec<StepResult>) -> (a: PipelineAction)
    ensures
        carries_out(
            a,
            run_plan(*config, *opts, steps@),
            |k: StepKind| run_skip_reason(*opts, k),
            run_pr_url(steps@),
        ),
{
    let n = steps.len();
    let failed = last_is_failure(steps);
    if n == 0 {
        PipelineAction::Run(StepKind::Preflight)
    } else if n == 1 {
        if failed {
            PipelineAction::Finish(None)
        } else if opts.skip_tests {
            PipelineAction::Record(skip_kind(StepKind::Test, "skipped (--skip-tests)"))
        } else {
            PipelineAction::Run(StepKind::Test)
        }
    } else if n == 2 {
        if failed {
            PipelineAction::Finish(None)
        } else if opts.skip_docs_gate || !config.docs_gate.enabled {
            PipelineAction::Record(skip_kind(StepKind::DocsGate, "skipped"))
        } else {
            PipelineAction::Run(StepKind::DocsGate)
        }
    } else if n == 3 {
        if failed && config.docs_gate.blocking {
            PipelineAction::Finish(None)
        } else if opts.dry_run {
            PipelineAction::Record(skip_kind(StepKind::Version, "dry run"))
        } else {
            PipelineAction::Run(StepKind::Version)
        }
    } else if n < 8 && opts.dry_run {
        let k = if n == 4 {
            StepKind::Changelog
        } else if n == 5 {
            StepKind::Commit
        } else if n == 6 {
            StepKind::Push
        } else {
            StepKind::Pr
        };
        PipelineAction::Record(skip_kind(k, "dry run"))
    } else if n == 4 {
        PipelineAction::Run(StepKind::Changelog)
    } else if n == 5 {
        PipelineAction::Run(StepKind::Commit)
    } else if n == 6 {
        if failed {
            PipelineAction::Finish(None)
        } else {
            PipelineAction::Run(StepKind::Push)
        }
    } else if n == 7 {
        if failed {
            PipelineAction::Finish(None)
        } else if opts.no_pr {
            PipelineAction::Record(skip_kind(StepKind::Pr, "skipped (--no-pr)"))
        } else {
            PipelineAction::Run(StepKind::Pr)
        }
    } else if n == 8 {
        match &steps[7].status {
            StepStatus::Pass => PipelineAction::Finish(steps[7].output.clone()),
            _ => PipelineAction::Finish(None),
        }
    } else {
        PipelineAction::Finish(None)
    }
}

/// Decides the next move of a check-only run, given the steps recorded so far.
pub fn check(config: &Config, opts: &PipelineOptions, steps: &Vec<StepResult>) -> (a: PipelineAction)
    ensures
        carries_out(a, check_plan(*config, *opts, steps@), |k: StepKind| Seq::<char>::empty(), None),
{
    let n = steps.len();
    let docs = config.docs_gate.enabled && !opts.skip_docs_gate;
    if n == 0 {
        PipelineAction::Run(StepKind::Preflight)
    } else if n == 1 {
        if !opts.skip_tests {
            PipelineAction::Run(StepKind::Test)
        } else if docs {
            PipelineAction::Run(StepKind::DocsGate)
        } else {
            PipelineAction::Finish(None)
        }
    } else if n == 2 && !opts.skip_tests && docs {
        PipelineAction::Run(StepKind::DocsGate)
    } else {
        PipelineAction::Finish(None)
    }
}


// ---------------------------------------------------------------------
// Laws of the step order
// ---------------------------------------------------------------------

/// `steps` is what a driver records when it carries out every decision of
/// the full release: a decided skip is recorded as a skip, and no step is
/// recorded after a decision to stop.
pub open spec fn follows_run(c: Config, o: PipelineOptions, steps: Seq<StepResult>) -> bool {
    forall|k: int|
        0 <= k < steps.len() ==> match #[trigger] run_plan(c, o, steps.take(k)) {
            Plan::RunStep(_) => true,
            Plan::SkipStep(_) => steps[k].status is Skip,
            Plan::Stop => false,
        }
}

/// The same for a check-only run.
pub open spec fn follows_check(c: Config, o: PipelineOptions, steps: Seq<StepResult>) -> bool {
    forall|k: int|
        0 <= k < steps.len() ==> !(#[trigger] check_plan(c, o, steps.take(k)) is Stop)
}

/// Positions whose failure ends a full release.
pub open spec fn is_gate(c: Config, i: int) -> bool {
    i == 0 || i == 1 || i == 5 || i == 6 || (i == 2 && c.docs_gate.blocking)
}

/// Gate-based: once the preflight, the tests, the commit or the push fails
/// (or a blocking docs gate), no further step runs.
pub proof fn law_nothing_after_failed_gate(
    c: Config,
    o: PipelineOptions,
    steps: Seq<StepResult>,
    i: int,
)
    requires
        follows_run(c, o, steps),
        0 <= i < steps.len(),
        steps[i].status is Fail,
        is_gate(c, i),
    ensures
        steps.len() == i + 1,
{
    if steps.len() > i + 1 {
        let pre = steps.take(i + 1);
        assert(pre.last() == steps[i]);
        assert(steps.take(i).len() == i);
        assert(match run_plan(c, o, steps.take(i)) {
            Plan::RunStep(_) => true,
            Plan::SkipStep(_) => steps[i].status is Skip,
            Plan::Stop => false,
        });
        assert(run_plan(c, o, pre) is Stop);
        assert(match run_plan(c, o, steps.take(i + 1)) {
            Plan::RunStep(_) => true,
            Plan::SkipStep(_) => steps[i + 1].status is Skip,
            Plan::Stop => false,
        });
    }
}

/// Steps come in their fixed order: whatever the plan runs or skips next is
/// the step that belongs at that position.
pub proof fn law_steps_in_order(c: Config, o: PipelineOptions, steps: Seq<StepResult>)
    ensures
        run_plan(c, o, steps) matches Plan::RunStep(k) ==> k == stage_kind(steps.len() as int),
        run_plan(c, o, steps) matches Plan::SkipStep(k) ==> k == stage_kind(steps.len() as int),
{
}

/// A dry run never executes a step that changes the repository or the remote.
pub proof fn law_dry_run_changes_nothing(c: Config, o: PipelineOptions, steps: Seq<StepResult>)
    requires
        o.dry_run,
    ensures
        !(run_plan(c, o, steps) matches Plan::RunStep(k) && is_mutating(k)),
{
}

/// Check mode never executes a step that changes the repository or the remote.
pub proof fn law_check_changes_nothing(c: Config, o: PipelineOptions, steps: Seq<StepResult>)
    ensures
        !(check_plan(c, o, steps) matches Plan::RunStep(k) && is_mutating(k)),
{
}

/// With `--no-pr` no pull request is opened.
pub proof fn law_no_pr_opens_none(c: Config, o: PipelineOptions, steps: Seq<StepResult>)
    requires
        o.no_pr,
    ensures
        !(run_plan(c, o, steps) matches Plan::RunStep(k) && k == StepKind::Pr),
{
}

/// Every run ends: a full release records at most eight steps and a check at
/// most three.
pub proof fn law_runs_end(c: Config, o: PipelineOptions, steps: Seq<StepResult>)
    ensures
        follows_run(c, o, steps) ==> steps.len() <= 8,
        follows_check(c, o, steps) ==> steps.len() <= 3,
{
    if follows_run(c, o, steps) && steps.len() > 8 {
        assert(steps.take(8).len() == 8);
        assert(run_plan(c, o, steps.take(8)) is Stop);
    }
    if follows_check(c, o, steps) && steps.len() > 3 {
        assert(steps.take(3).len() == 3);
        assert(check_plan(c, o, steps.take(3)) is Stop);
    }
}

/// Fail-safe: the branch is pushed only when the preflight, the tests, a
/// blocking docs gate and the commit have not failed.
pub proof fn law_push_only_after_gates_pass(c: Config, o: PipelineOptions, steps: Seq<StepResult>)
    requires
        follows_run(c, o, steps),
        run_plan(c, o, steps) matches Plan::RunStep(k) && k == StepKind::Push,
    ensures
        forall|i: int| 0 <= i < steps.len() && is_gate(c, i) ==> !(#[trigger] steps[i].status is Fail),
{
    assert(steps.len() == 6);
    assert forall|i: int| 0 <= i < steps.len() && is_gate(c, i) implies !(#[trigger] steps[i].status is Fail) by {
        if steps[i].status is Fail {
            law_nothing_after_failed_gate(c, o, steps, i);
        }
    }
}

} // verus!
