use ship::config::ObsidianConfig;
use ship::note::slug::{kebab_case, slugify, strip_diacritics_vi, truncate_kebab};
use ship::note::{
    build_content, github_repo_url, pick_filename, resolve_project, resolve_vault, run, shellexpand_with_home,
    GitInfo, NoteEnv, NoteOptions, NoteOutcome, NoteProgress, NoteStep, PathStatus,
};
use std::path::Path;

#[test]
fn test_strip_diacritics_vi() {
    assert_eq!(strip_diacritics_vi("Đây là tiếng Việt"), "Day la tieng Viet");
    assert_eq!(strip_diacritics_vi("ăn quả nhớ kẻ trồng cây"), "an qua nho ke trong cay");
    assert_eq!(strip_diacritics_vi("plain ASCII"), "plain ASCII");
}

#[test]
fn test_kebab_case() {
    assert_eq!(kebab_case("Hello World"), "hello-world");
    assert_eq!(kebab_case("foo  bar___baz"), "foo-bar-baz");
    assert_eq!(kebab_case("already-kebab"), "already-kebab");
    assert_eq!(kebab_case("   leading trailing   "), "leading-trailing");
    assert_eq!(kebab_case(""), "");
}

#[test]
fn test_slugify_vietnamese() {
    assert_eq!(slugify("Thêm tính năng đặc biệt"), "them-tinh-nang-dac-biet");
    assert_eq!(
        slugify("feat: add retry logic to HTTP canary"),
        "feat-add-retry-logic-to-http-canary"
    );
}

#[test]
fn test_slugify_truncation() {
    let long = "a".repeat(60);
    let out = slugify(&long);
    assert!(out.len() <= 40);
    assert_eq!(out, "a".repeat(40));
}

#[test]
fn test_truncate_strips_trailing_dash() {
    assert_eq!(truncate_kebab("hello-world-foo", 12), "hello-world");
}

#[test]
fn slug_of_kebab_is_itself() {
    let s = slugify("Ship it: now!");
    assert_eq!(s, "ship-it-now");
    assert_eq!(slugify(&s), s);
}

#[test]
fn test_shellexpand_tilde_with_home() {
    assert_eq!(shellexpand_with_home("~/foo/bar", Some("/tmp/testhome")), "/tmp/testhome/foo/bar");
    assert_eq!(shellexpand_with_home("/abs/path", Some("/tmp/testhome")), "/abs/path");
    assert_eq!(shellexpand_with_home("relative/path", Some("/tmp/testhome")), "relative/path");
    assert_eq!(shellexpand_with_home("~/foo", None), "~/foo");
}

#[test]
fn test_resolve_project_arg_wins() {
    let cfg = ObsidianConfig { project_slug: Some("config-slug".into()), ..Default::default() };
    assert_eq!(resolve_project(&cfg, Some("arg-slug"), Some("cwd")), "arg-slug");
}

#[test]
fn test_resolve_project_config_fallback() {
    let cfg = ObsidianConfig { project_slug: Some("config-slug".into()), ..Default::default() };
    assert_eq!(resolve_project(&cfg, None, Some("cwd")), "config-slug");
}

#[test]
fn resolve_project_last_resorts() {
    let cfg = ObsidianConfig::default();
    assert_eq!(resolve_project(&cfg, None, Some("mydir")), "mydir");
    assert_eq!(resolve_project(&cfg, None, None), "unknown");
}

fn status_of(p: &str) -> PathStatus {
    let path = Path::new(p);
    PathStatus { exists: path.exists(), is_dir: path.is_dir() }
}

#[test]
fn test_resolve_vault_missing() {
    let cfg = ObsidianConfig::default();
    let arg = "/nonexistent/vault/path/xyz";
    let err = resolve_vault(&cfg, Some(arg), None, None, status_of(arg)).unwrap_err();
    assert!(err.contains("does not exist"));
}

#[test]
fn test_resolve_vault_not_dir() {
    let cfg = ObsidianConfig::default();
    let err = resolve_vault(&cfg, Some("/tmp/some-file"), None, None, PathStatus { exists: true, is_dir: false })
        .unwrap_err();
    assert!(err.contains("not a directory"));
}

#[test]
fn resolve_vault_order_of_sources() {
    let cfg = ObsidianConfig { vault_path: Some("~/vault".into()), ..Default::default() };
    let ok = PathStatus { exists: true, is_dir: true };
    assert_eq!(resolve_vault(&cfg, None, None, Some("/home/u"), ok), Ok("/home/u/vault".to_string()));
    assert_eq!(resolve_vault(&cfg, None, Some("/env/v"), Some("/home/u"), ok), Ok("/env/v".to_string()));
    assert_eq!(resolve_vault(&cfg, Some("/arg/v"), Some("/env/v"), None, ok), Ok("/arg/v".to_string()));
}

#[test]
fn test_pick_filename_collision() {
    let first = pick_filename("/vault/logs", "2026-04-24", "foo", false);
    assert_eq!(first, "/vault/logs/2026-04-24-foo.md");
    let second = pick_filename("/vault/logs", "2026-04-24", "foo", true);
    assert_ne!(first, second);
    let name = Path::new(&second).file_name().unwrap().to_string_lossy().to_string();
    assert!(name.starts_with("2026-04-24-foo-"));
    assert!(name.ends_with(".md"));
    assert_eq!(name.len(), "2026-04-24-foo-".len() + 4 + 3);
}

#[test]
fn test_run_vault_missing_returns_skipped() {
    let cfg = ObsidianConfig { vault_path: Some("/definitely/not/a/vault".into()), ..Default::default() };
    let opts = NoteOptions::default();
    let env = NoteEnv::default();
    let mut progress = NoteProgress::default();
    let outcome = loop {
        match run(&cfg, &opts, &env, &progress) {
            NoteStep::CheckVault(p) => progress.vault = Some(status_of(&p)),
            NoteStep::Done(o) => break o,
            other => panic!("unexpected step {other:?}"),
        }
    };
    match outcome {
        NoteOutcome::Skipped(r) => assert!(r.contains("does not exist")),
        _ => panic!("expected Skipped"),
    }
}

#[test]
fn test_run_writes_file_when_vault_exists() {
    let cfg = ObsidianConfig { vault_path: Some("/vault".into()), ..Default::default() };
    let opts = NoteOptions { project: Some("testproj".into()), message: Some("hi".into()), ..Default::default() };
    let env = NoteEnv::default();
    let mut progress = NoteProgress::default();
    let mut written_body = String::new();
    let outcome = loop {
        match run(&cfg, &opts, &env, &progress) {
            NoteStep::CheckVault(_) => progress.vault = Some(PathStatus { exists: true, is_dir: true }),
            NoteStep::CreateDir(d) => {
                assert_eq!(d, "/vault/10_Projects/testproj/logs");
                progress.logs_dir = Some(Ok(()));
            }
            NoteStep::CollectGit => {
                progress.git = Some(GitInfo { commit_subject: "feat: things".into(), ..Default::default() });
                progress.today = Some("2026-04-24".into());
            }
            NoteStep::CheckTarget(_) => progress.target_taken = Some(false),
            NoteStep::Write(path, content) => {
                written_body = content;
                progress.written = Some((path, Ok(())));
            }
            NoteStep::Done(o) => break o,
        }
    };
    match outcome {
        NoteOutcome::Written(path) => {
            assert!(path.contains("10_Projects/testproj/logs/"));
            assert_eq!(path, "/vault/10_Projects/testproj/logs/2026-04-24-feat-things.md");
            assert!(written_body.contains("project: testproj"));
            assert!(written_body.contains("## Learnings\nhi"));
        }
        NoteOutcome::Skipped(r) => panic!("expected Written, got Skipped: {r}"),
    }
}

#[test]
fn run_reports_write_failure() {
    let cfg = ObsidianConfig { vault_path: Some("/vault".into()), ..Default::default() };
    let opts = NoteOptions::default();
    let env = NoteEnv { cwd_name: Some("proj".into()), ..Default::default() };
    let progress = NoteProgress {
        vault: Some(PathStatus { exists: true, is_dir: true }),
        logs_dir: Some(Err("denied".into())),
        ..Default::default()
    };
    match run(&cfg, &opts, &env, &progress) {
        NoteStep::Done(NoteOutcome::Skipped(m)) => {
            assert_eq!(m, "cannot create /vault/10_Projects/proj/logs: denied")
        }
        other => panic!("unexpected {other:?}"),
    }
}

#[test]
fn test_build_content_includes_learnings_when_message_present() {
    let info = GitInfo { commit_subject: "test commit".into(), ..Default::default() };
    let content = build_content("foo", "2026-04-24", None, Some("a learning"), &info);
    assert!(content.contains("## Learnings\na learning"));
}

#[test]
fn test_build_content_omits_learnings_when_no_message() {
    let info = GitInfo { commit_subject: "test commit".into(), ..Default::default() };
    let content = build_content("foo", "2026-04-24", None, None, &info);
    assert!(!content.contains("## Learnings"));
}

#[test]
fn github_remote_becomes_web_url() {
    assert_eq!(
        github_repo_url(Some("git@github.com:owner/repo.git")),
        Some("https://github.com/owner/repo".to_string())
    );
    assert_eq!(
        github_repo_url(Some("https://github.com/owner/repo.git")),
        Some("https://github.com/owner/repo".to_string())
    );
    assert_eq!(github_repo_url(Some("https://gitlab.com/x/y")), None);
    assert_eq!(github_repo_url(None), None);
}

#[test]
fn kebab_case_is_idempotent_and_lowercase() {
    for s in ["Hello World", "ÀB--c__D", "  --Ship IT 2--  ", "", "already-kebab"] {
        let k = kebab_case(s);
        assert_eq!(kebab_case(&k), k);
        assert!(k.chars().all(|c| c.is_ascii_lowercase() || c.is_ascii_digit() || c == '-'));
        assert!(!k.starts_with('-') && !k.ends_with('-') && !k.contains("--"));
    }
}

#[test]
fn learnings_come_after_related() {
    let info = GitInfo { commit_subject: "s".into(), branch: Some("feat/x".into()), ..Default::default() };
    let content = build_content("foo", "2026-04-24", None, Some("m"), &info);
    let related = content.find("## Related").unwrap();
    let learnings = content.find("## Learnings").unwrap();
    assert!(related < learnings);
    assert!(content.ends_with("- Branch: feat/x\n\n## Learnings\nm\n"));
}
