use ship::canary::command::CommandOutput;
use ship::config::Config;
use ship::detect::ProjectStack;
use ship::pipeline::commit::{commit_message, next as commit_next, CommitAction, CommitProgress};
use ship::pipeline::preflight::{diff_summary, is_protected, run as preflight_run};
use ship::pipeline::test::{no_test_command, resolve_test_command, run as test_run, test_program};
use ship::pipeline::{
    check, docs_gate, pr, push, finish, review, run, skip, PipelineAction, PipelineOptions, PipelineResult, StepKind,
    StepResult, StepStatus,
};

fn opts() -> PipelineOptions {
    PipelineOptions { dry_run: false, skip_tests: false, skip_docs_gate: false, bump: None, no_pr: false, verbose: false }
}

fn step(name: &str, status: StepStatus) -> StepResult {
    StepResult { name: name.into(), status, duration: 0, output: None }
}

fn out(success: bool, stdout: &str, stderr: &str) -> CommandOutput {
    CommandOutput { success, code: Some(if success { 0 } else { 1 }), stdout: stdout.into(), stderr: stderr.into() }
}

#[test]
fn full_release_runs_every_step_in_order() {
    let config = Config::default();
    let o = opts();
    let mut steps: Vec<StepResult> = Vec::new();
    let mut kinds = Vec::new();
    loop {
        match run(&config, &o, &steps) {
            PipelineAction::Run(k) => {
                kinds.push(k);
                let mut s = step("x", StepStatus::Pass);
                if k == StepKind::Pr {
                    s.output = Some("https://github.com/o/r/pull/1".into());
                }
                steps.push(s);
            }
            PipelineAction::Record(s) => steps.push(s),
            PipelineAction::Finish(url) => {
                assert_eq!(url.as_deref(), Some("https://github.com/o/r/pull/1"));
                break;
            }
        }
    }
    assert_eq!(
        kinds,
        vec![
            StepKind::Preflight,
            StepKind::Test,
            StepKind::DocsGate,
            StepKind::Version,
            StepKind::Changelog,
            StepKind::Commit,
            StepKind::Push,
            StepKind::Pr
        ]
    );
}

#[test]
fn failed_preflight_stops_the_release() {
    let config = Config::default();
    let steps = vec![step("Preflight", StepStatus::Fail("On protected branch: main".into()))];
    assert!(matches!(run(&config, &opts(), &steps), PipelineAction::Finish(None)));
}

#[test]
fn dry_run_records_skips_after_docs_gate() {
    let config = Config::default();
    let o = PipelineOptions { dry_run: true, ..opts() };
    let mut steps = vec![step("Preflight", StepStatus::Pass), step("Test", StepStatus::Pass), step("Docs", StepStatus::Pass)];
    let mut names = Vec::new();
    loop {
        match run(&config, &o, &steps) {
            PipelineAction::Run(k) => panic!("dry run executed {k:?}"),
            PipelineAction::Record(s) => {
                assert!(matches!(&s.status, StepStatus::Skip(m) if m == "dry run"));
                names.push(s.name.clone());
                steps.push(s);
            }
            PipelineAction::Finish(url) => {
                assert!(url.is_none());
                break;
            }
        }
    }
    assert_eq!(names, vec!["Version", "Changelog", "Commit", "Push", "PR"]);
}

#[test]
fn skipped_tests_and_no_pr_are_recorded() {
    let config = Config::default();
    let o = PipelineOptions { skip_tests: true, no_pr: true, ..opts() };
    let steps = vec![step("Preflight", StepStatus::Pass)];
    match run(&config, &o, &steps) {
        PipelineAction::Record(s) => {
            assert_eq!(s.name, "Test");
            assert!(matches!(&s.status, StepStatus::Skip(m) if m == "skipped (--skip-tests)"));
        }
        _ => panic!("expected a recorded skip"),
    }
    let steps: Vec<StepResult> = (0..7).map(|_| step("s", StepStatus::Pass)).collect();
    match run(&config, &o, &steps) {
        PipelineAction::Record(s) => assert!(matches!(&s.status, StepStatus::Skip(m) if m == "skipped (--no-pr)")),
        _ => panic!("expected the PR to be skipped"),
    }
}

#[test]
fn non_blocking_docs_gate_failure_goes_on() {
    let config = Config::default();
    let steps = vec![
        step("Preflight", StepStatus::Pass),
        step("Test", StepStatus::Pass),
        step("Docs Gate", StepStatus::Fail("x".into())),
    ];
    assert!(matches!(run(&config, &opts(), &steps), PipelineAction::Run(StepKind::Version)));
    let mut blocking = Config::default();
    blocking.docs_gate.blocking = true;
    assert!(matches!(run(&blocking, &opts(), &steps), PipelineAction::Finish(None)));
}

#[test]
fn check_mode_runs_three_steps_at_most() {
    let config = Config::default();
    let o = opts();
    let mut steps = Vec::new();
    let mut kinds = Vec::new();
    while let PipelineAction::Run(k) = check(&config, &o, &steps) {
        kinds.push(k);
        steps.push(step("x", StepStatus::Fail("f".into())));
    }
    assert_eq!(kinds, vec![StepKind::Preflight, StepKind::Test, StepKind::DocsGate]);
}

#[test]
fn result_tallies() {
    let r: PipelineResult = finish(
        vec![step("a", StepStatus::Pass), step("b", StepStatus::Fail("x".into())), skip("c", "why")],
        0,
        None,
    );
    assert!(r.has_failures());
    assert_eq!(r.passed_count(), 1);
    assert_eq!(r.failed_count(), 1);
    assert!(r.steps[1].is_failure());
}

#[test]
fn preflight_refuses_protected_branches() {
    let config = Config::default();
    assert!(is_protected(&config, "main"));
    assert!(is_protected(&config, "master"));
    assert!(!is_protected(&config, "feat/x"));
    let r = preflight_run(&config, "master", "", "", 0);
    assert!(matches!(&r.status, StepStatus::Fail(m) if m == "On protected branch: master"));
    let mut dev = Config::default();
    dev.base_branch = "develop".into();
    assert!(is_protected(&dev, "develop"));
}

#[test]
fn preflight_reports_branch_and_changes() {
    let config = Config::default();
    let diff = diff_summary(true, " a | 1 +\n 1 file changed, 1 insertion(+)\n");
    assert_eq!(diff, "1 file changed, 1 insertion(+)");
    let r = preflight_run(&config, "feat/x", "M a\n?? b", &diff, 0);
    assert!(matches!(r.status, StepStatus::Pass));
    assert_eq!(r.output.as_deref(), Some("branch: feat/x, 1 file changed, 1 insertion(+), 2 uncommitted"));
    assert_eq!(diff_summary(true, ""), "no changes");
    assert_eq!(diff_summary(false, "x"), "diff unavailable");
    let r = preflight_run(&config, "feat/x", "", "no changes", 0);
    assert_eq!(r.output.as_deref(), Some("branch: feat/x, no changes"));
}

#[test]
fn test_command_resolution() {
    let mut config = Config::default();
    assert_eq!(resolve_test_command(&config, Some(ProjectStack::Rust)), Some("cargo test".to_string()));
    assert_eq!(resolve_test_command(&config, Some(ProjectStack::Unknown)), None);
    assert_eq!(resolve_test_command(&config, None), None);
    config.test.command = Some("make check".into());
    assert_eq!(resolve_test_command(&config, Some(ProjectStack::Rust)), Some("make check".to_string()));
    assert_eq!(test_program("  cargo  test --all "), Some(("cargo".to_string(), vec!["test".to_string(), "--all".to_string()])));
    assert_eq!(test_program("   "), None);
}

#[test]
fn test_step_outcomes() {
    let r = test_run("cargo test", &out(true, "", ""), 0);
    assert_eq!(r.output.as_deref(), Some("passed (cargo test)"));
    let r = test_run("cargo test", &out(false, "", "l1\nl2\nl3\nl4\nl5\nl6\n"), 0);
    assert!(matches!(&r.status, StepStatus::Fail(m) if m == "tests failed (cargo test)\nl6\nl5\nl4\nl3\nl2"));
    let r = test_run("npm test", &out(false, "a\nb", ""), 0);
    assert!(matches!(&r.status, StepStatus::Fail(m) if m == "tests failed (npm test)\nb\na"));
    let r = no_test_command(0);
    assert!(matches!(&r.status, StepStatus::Warn(m) if m == "No test command detected"));
}

#[test]
fn commit_step_drives_git() {
    let mut p = CommitProgress { staged: None, status: None, committed: None };
    assert!(matches!(commit_next("tarot", "1.2.3", &p, 0), CommitAction::Stage));
    p.staged = Some(true);
    assert!(matches!(commit_next("tarot", "1.2.3", &p, 0), CommitAction::CheckStatus));
    p.status = Some(" M src/a.rs\n".into());
    match commit_next("tarot", "1.2.3", &p, 0) {
        CommitAction::Commit(m) => assert_eq!(m, commit_message("tarot", "1.2.3")),
        _ => panic!("expected a commit"),
    }
    assert!(commit_message("tarot", "1.2.3").starts_with("chore: ship tarot v1.2.3\n\nAutomated release via ship CLI."));
    p.committed = Some(out(true, "", ""));
    match commit_next("tarot", "1.2.3", &p, 0) {
        CommitAction::Done(r) => {
            assert!(matches!(r.status, StepStatus::Pass));
            assert_eq!(r.output.as_deref(), Some("v1.2.3"));
        }
        _ => panic!("expected done"),
    }
    p.committed = Some(out(false, "", "hook failed"));
    assert!(matches!(commit_next("t", "1", &p, 0),
        CommitAction::Done(r) if matches!(&r.status, StepStatus::Fail(m) if m == "commit failed: hook failed")));
    let clean = CommitProgress { staged: Some(true), status: Some("  \n".into()), committed: None };
    assert!(matches!(commit_next("t", "1", &clean, 0),
        CommitAction::Done(r) if matches!(&r.status, StepStatus::Skip(m) if m == "nothing to commit")));
    let bad = CommitProgress { staged: Some(false), status: None, committed: None };
    assert!(matches!(commit_next("t", "1", &bad, 0),
        CommitAction::Done(r) if matches!(&r.status, StepStatus::Fail(m) if m == "git add failed")));
}

#[test]
fn docs_gate_outcomes() {
    let config = Config::default();
    let r = docs_gate::run(&config, false, &out(true, "", ""), 0);
    assert_eq!(r.output.as_deref(), Some("all checks passed (default config)"));
    let r = docs_gate::run(&config, true, &out(true, "", ""), 0);
    assert_eq!(r.output.as_deref(), Some("all checks passed"));
    let r = docs_gate::run(&config, true, &out(false, "stale docs", ""), 0);
    assert!(matches!(&r.status, StepStatus::Warn(m) if m == "docs-gate issues:\nstale docs"));
    let mut blocking = Config::default();
    blocking.docs_gate.blocking = true;
    let r = docs_gate::run(&blocking, true, &out(false, "stale docs", ""), 0);
    assert!(matches!(&r.status, StepStatus::Fail(m) if m == "docs-gate failed:\nstale docs"));
    let r = docs_gate::not_found(0);
    assert!(matches!(&r.status, StepStatus::Skip(m) if m == "docs-gate not found in PATH"));
}

#[test]
fn review_is_skipped() {
    let r = review::_run(0);
    assert_eq!(r.name, "Review");
    assert!(matches!(&r.status, StepStatus::Skip(m) if m == "AI review not configured (Phase 3)"));
}

#[test]
fn skipped_step_takes_no_time() {
    let s = skip("Version", "dry run");
    assert_eq!(s.duration, 0);
    assert_eq!(s.name, "Version");
    assert!(s.output.is_none());
}

#[test]
fn today_is_a_calendar_date() {
    let d = ship::clock::today();
    let b = d.as_bytes();
    assert!(d.len() >= 10);
    assert_eq!(b[d.len() - 3], b'-');
    assert_eq!(b[d.len() - 6], b'-');
    let month: u32 = d[d.len() - 5..d.len() - 3].parse().unwrap();
    let day: u32 = d[d.len() - 2..].parse().unwrap();
    assert!((1..=12).contains(&month));
    assert!((1..=31).contains(&day));
}

#[test]
fn failed_commit_is_never_pushed() {
    let config = Config::default();
    let mut steps: Vec<StepResult> = (0..5).map(|_| step("s", StepStatus::Pass)).collect();
    steps.push(step("Commit", StepStatus::Fail("commit failed: x".into())));
    assert!(matches!(run(&config, &opts(), &steps), PipelineAction::Finish(None)));
    steps[5] = step("Commit", StepStatus::Pass);
    assert!(matches!(run(&config, &opts(), &steps), PipelineAction::Run(StepKind::Push)));
}

#[test]
fn blank_test_command_warns() {
    match ship::pipeline::test::prepare("  ", 7) {
        Err(r) => {
            assert!(matches!(&r.status, StepStatus::Warn(m) if m == "No test command detected"));
            assert_eq!(r.duration, 7);
        }
        Ok(_) => panic!("a blank command has no program"),
    }
    assert_eq!(ship::pipeline::test::prepare("cargo test", 0).ok(), Some(("cargo".to_string(), vec!["test".to_string()])));
}

#[test]
fn dry_run_skips_take_no_time() {
    let config = Config::default();
    let o = PipelineOptions { dry_run: true, ..opts() };
    let steps = vec![step("Preflight", StepStatus::Pass), step("Test", StepStatus::Pass), step("Docs", StepStatus::Pass)];
    match run(&config, &o, &steps) {
        PipelineAction::Record(s) => assert_eq!(s.duration, 0),
        _ => panic!("expected a recorded skip"),
    }
}

#[test]
fn push_and_pr_steps() {
    assert_eq!(push::push_args(), vec!["push", "-u", "origin", "HEAD"]);
    let r = push::run(&out(true, "", ""), "feat/x\n", 3);
    assert_eq!(r.output.as_deref(), Some("origin/feat/x"));
    let r = push::run(&out(false, "", " rejected \n"), "feat/x", 3);
    assert!(matches!(&r.status, StepStatus::Fail(m) if m == "push failed: rejected"));
    let mut config = Config::default();
    assert_eq!(pr::pr_args(&config), vec!["pr", "create", "--fill"]);
    config.pr.draft = true;
    config.pr.labels = vec!["ship".into(), "auto".into()];
    assert_eq!(pr::pr_args(&config), vec!["pr", "create", "--fill", "--draft", "--label", "ship", "--label", "auto"]);
    let r = pr::run(&out(true, "https://github.com/o/r/pull/7\n", ""), 1);
    assert_eq!(r.output.as_deref(), Some("https://github.com/o/r/pull/7"));
    let r = pr::run(&out(false, "", "no commits"), 1);
    assert!(matches!(&r.status, StepStatus::Fail(m) if m == "gh pr create failed: no commits"));
}

#[test]
fn branch_lookup_failure_is_not_a_repository() {
    let failed = out(false, "", "fatal: not a git repository");
    assert!(matches!(ship::pipeline::preflight::current_branch(&failed),
        Err(ship::error::ShipError::Git(m)) if m == "Not a git repository"));
    let ok = out(true, "feat/x\n", "");
    assert_eq!(ship::pipeline::preflight::current_branch(&ok).ok(), Some("feat/x".to_string()));
}
