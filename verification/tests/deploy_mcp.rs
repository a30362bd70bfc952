use ship::canary::{CanaryStatus, HealthCheck};
use ship::config::{CanaryConfig, DeployConfig};
use ship::deploy::{custom_command_failed, plan, ssh_command_failed, wants_canary, DeployPlan};
use ship::error::ShipError;
use ship::learn::store::Learning;
use ship::mcp::tools::{
    canary_report, check_options, check_report, error_report, learn_saved_report, learn_search_report,
    note_export_report, with_overrides, CheckParams,
};
use ship::note::NoteOutcome;
use ship::pipeline::{StepResult, StepStatus};

#[test]
fn deploy_plans_by_provider() {
    let mut c = DeployConfig::default();
    assert!(matches!(plan(&c), Err(ShipError::Config(m)) if m == "deploy.ssh required for ssh provider"));
    c.ssh = Some("ops@box:2200".into());
    c.maintenance_mode = true;
    match plan(&c) {
        Ok(DeployPlan::Ssh { target, port, commands }) => {
            assert_eq!(target, "ops@box");
            assert_eq!(port.as_deref(), Some("2200"));
            assert_eq!(commands.len(), 3);
            assert_eq!(commands[0].command, "echo 'maintenance on'");
            assert_eq!(commands[0].notice, "  \u{1f527} Maintenance mode ON...");
            assert!(!commands[0].shows_output);
            assert_eq!(
                commands[1].command,
                "cd /opt/app && git pull origin main && docker compose build && docker compose up -d"
            );
            assert!(commands[1].shows_output);
            assert_eq!(commands[2].command, "echo 'maintenance off'");
        }
        _ => panic!("expected an ssh plan"),
    }
    c.provider = "custom".into();
    c.command = None;
    assert!(matches!(plan(&c), Err(ShipError::Config(m)) if m == "deploy.command required for custom provider"));
    c.command = Some("./deploy.sh".into());
    assert!(matches!(plan(&c), Ok(DeployPlan::Custom { command, program, args })
        if command == "./deploy.sh" && program == "./deploy.sh" && args.is_empty()));
    c.command = Some("make  deploy ENV=prod".into());
    assert!(matches!(plan(&c), Ok(DeployPlan::Custom { program, args, .. })
        if program == "make" && args == vec!["deploy".to_string(), "ENV=prod".to_string()]));
    c.command = Some("   ".into());
    assert!(matches!(plan(&c), Err(ShipError::Config(m)) if m == "deploy.command required for custom provider"));
    c.provider = "render".into();
    assert!(matches!(plan(&c), Ok(DeployPlan::Render)));
    c.provider = "heroku".into();
    assert!(matches!(plan(&c), Err(ShipError::Config(m)) if m == "unknown deploy provider: heroku"));
}

#[test]
fn deploy_errors_and_canary() {
    assert_eq!(ssh_command_failed("boom").message(), "Push failed: SSH command failed: boom");
    assert_eq!(custom_command_failed("x").message(), "Push failed: deploy command failed: x");
    let mut c = CanaryConfig::default();
    assert!(!wants_canary(&c));
    c.url = Some("https://app".into());
    assert!(wants_canary(&c));
}

#[test]
fn error_messages() {
    assert_eq!(ShipError::Git("Not a git repository".into()).message(), "Git error: Not a git repository");
    assert_eq!(ShipError::TomlParse("bad".into()).message(), "TOML parse error: bad");
    assert_eq!(ShipError::ProtectedBranch("main".into()).message(), "On protected branch: main");
}

#[test]
fn mcp_check_report() {
    let o = check_options(&CheckParams { skip_tests: Some(true), skip_docs_gate: None });
    assert!(o.dry_run && o.no_pr && o.skip_tests && !o.skip_docs_gate);
    let steps = vec![
        StepResult { name: "Preflight".into(), status: StepStatus::Pass, duration: 0, output: None },
        StepResult {
            name: "Test".into(),
            status: StepStatus::Fail("tests failed".into()),
            duration: 0,
            output: None,
        },
    ];
    assert_eq!(check_report(&steps), "[PASS] Preflight: ok\n[FAIL] Test: tests failed");
}

#[test]
fn mcp_canary_report() {
    let checks = vec![
        HealthCheck { name: "HTTP x".into(), status: CanaryStatus::Healthy, latency_ms: Some(12), details: None },
        HealthCheck { name: "Docker w".into(), status: CanaryStatus::Down("gone".into()), latency_ms: None, details: None },
    ];
    assert_eq!(canary_report(&checks), "[HEALTHY] HTTP x (12ms)\n[DOWN] Docker w");
    let c = with_overrides(&CanaryConfig::default(), Some("https://a".into()), None, None, Some(5));
    assert_eq!(c.url.as_deref(), Some("https://a"));
    assert_eq!(c.timeout_secs, 5);
    assert_eq!(c.checks, vec!["http"]);
}

#[test]
fn mcp_learn_and_note_reports() {
    assert_eq!(learn_search_report("zzz", &vec![]), "No learnings found for \"zzz\"");
    let l = Learning::new("tarot", "docker restart", &["ops".into()]);
    assert_eq!(learn_search_report("docker", &vec![l]), "\u{2022} docker restart [ops] (tarot)");
    assert_eq!(learn_saved_report("m"), "Saved: m");
    assert_eq!(error_report("e"), "Error: e");
    assert_eq!(note_export_report(&NoteOutcome::Written("/v/n.md".into())), "Written: /v/n.md");
    assert_eq!(note_export_report(&NoteOutcome::Skipped("no vault".into())), "Skipped: no vault");
}
