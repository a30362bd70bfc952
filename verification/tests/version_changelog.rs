use ship::config::Config;
use ship::pipeline::changelog::{
    current_version, generate_entry, parse_commit, parse_commits, prepend_entry, run_dated, CommitInfo,
};
use ship::pipeline::version::{auto_detect_bump, bump_version, bump_version_fits, diff_stat_total, resolve_version_file};
use ship::pipeline::StepStatus;

#[test]
fn test_bump_patch() {
    assert_eq!(bump_version("1.2.3", "patch"), "1.2.4");
}

#[test]
fn test_bump_minor() {
    assert_eq!(bump_version("1.2.3", "minor"), "1.3.0");
}

#[test]
fn test_bump_major() {
    assert_eq!(bump_version("1.2.3", "major"), "2.0.0");
}

#[test]
fn test_bump_from_two_parts() {
    assert_eq!(bump_version("1.2", "patch"), "1.2.1");
}

#[test]
fn test_bump_from_empty() {
    assert_eq!(bump_version("", "patch"), "0.1.1");
}

#[test]
fn bump_unknown_level_bumps_patch() {
    assert_eq!(bump_version("1.2.3", "huge"), "1.2.4");
}

#[test]
fn bump_skips_parts_that_are_not_numbers() {
    assert_eq!(bump_version("1.x.3", "patch"), "1.3.1");
    assert_eq!(bump_version("v1.2.3", "minor"), "2.4.0");
}

#[test]
fn bump_reads_back_as_the_bumped_triple() {
    let v = bump_version("4.5.6", "minor");
    assert_eq!(v, "4.6.0");
    assert_eq!(bump_version(&v, "patch"), "4.6.1");
}

#[test]
fn bump_fits_refuses_overflow() {
    assert!(bump_version_fits("1.2.3", "major"));
    assert!(!bump_version_fits("4294967295.0.0", "major"));
    assert!(bump_version_fits("4294967295.0.0", "minor"));
}

#[test]
fn version_file_prefers_config_then_version_then_txt() {
    let mut config = Config::default();
    assert_eq!(resolve_version_file(&config, true, true), Some("VERSION".to_string()));
    assert_eq!(resolve_version_file(&config, false, true), Some("version.txt".to_string()));
    assert_eq!(resolve_version_file(&config, false, false), None);
    config.version.file = Some("Cargo.version".into());
    assert_eq!(resolve_version_file(&config, false, false), Some("Cargo.version".to_string()));
}

#[test]
fn diff_stat_sums_insertions_and_deletions() {
    let stat = " src/a.rs | 10 ++++\n 2 files changed, 30 insertions(+), 12 deletions(-)\n";
    assert_eq!(diff_stat_total(stat), Some(42));
    assert_eq!(diff_stat_total(""), Some(0));
}

#[test]
fn auto_bump_uses_thresholds() {
    let config = Config::default();
    let small = " 1 file changed, 3 insertions(+), 2 deletions(-)";
    let medium = " 9 files changed, 300 insertions(+), 2 deletions(-)";
    let large = " 90 files changed, 3000 insertions(+), 20 deletions(-)";
    assert_eq!(auto_detect_bump(small, &config.version.auto_thresholds), "patch");
    assert_eq!(auto_detect_bump(medium, &config.version.auto_thresholds), "minor");
    assert_eq!(auto_detect_bump(large, &config.version.auto_thresholds), "minor");
}

#[test]
fn test_parse_conventional_commit() {
    let c = parse_commit("feat: add health check endpoint");
    assert_eq!(c.kind, "feat");
    assert_eq!(c.message, "add health check endpoint");
}

#[test]
fn test_parse_non_conventional() {
    let c = parse_commit("random commit message");
    assert_eq!(c.kind, "other");
    assert_eq!(c.message, "random commit message");
}

#[test]
fn parse_commit_edge_cases() {
    let c = parse_commit("fix:   spaced out");
    assert_eq!((c.kind.as_str(), c.message.as_str()), ("fix", "spaced out"));
    let c = parse_commit("fix:");
    assert_eq!((c.kind.as_str(), c.message.as_str()), ("other", "fix:"));
    let c = parse_commit("feature: not a kind");
    assert_eq!(c.kind, "other");
    let c = parse_commit("ci: ");
    assert_eq!((c.kind.as_str(), c.message.as_str()), ("ci", " "));
}

#[test]
fn parse_commits_skips_empty_lines() {
    let cs = parse_commits("feat: one\n\nfix: two\nplain\n");
    assert_eq!(cs.len(), 3);
    assert_eq!(cs[0].kind, "feat");
    assert_eq!(cs[1].message, "two");
    assert_eq!(cs[2].kind, "other");
}

#[test]
fn test_generate_entry() {
    let commits = vec![
        CommitInfo { kind: "feat".into(), message: "add ship command".into() },
        CommitInfo { kind: "fix".into(), message: "handle empty diff".into() },
    ];
    let entry = generate_entry("0.2.0", "2026-04-04", &commits);
    assert!(entry.contains("## 0.2.0 (2026-04-04)"));
    assert!(entry.contains("### Added"));
    assert!(entry.contains("- add ship command"));
    assert!(entry.contains("### Fixed"));
    assert!(entry.contains("- handle empty diff"));
}

#[test]
fn generate_entry_exact_text_and_skipped_kinds() {
    let commits = vec![
        CommitInfo { kind: "chore".into(), message: "tidy".into() },
        CommitInfo { kind: "perf".into(), message: "faster".into() },
        CommitInfo { kind: "other".into(), message: "misc".into() },
        CommitInfo { kind: "docs".into(), message: "readme".into() },
    ];
    let entry = generate_entry("1.0.0", "2026-01-02", &commits);
    assert_eq!(
        entry,
        "## 1.0.0 (2026-01-02)\n\n### Improved\n- faster\n\n### Documentation\n- readme\n\n### Other\n- misc\n"
    );
}

#[test]
fn prepend_inserts_before_first_release() {
    let existing = "# Changelog\n\n## 0.1.0 (2026-01-01)\n- old\n";
    let out = prepend_entry(Some(existing), "## 0.2.0 (2026-02-02)\n");
    assert_eq!(out, "# Changelog\n\n## 0.2.0 (2026-02-02)\n\n## 0.1.0 (2026-01-01)\n- old\n");
}

#[test]
fn prepend_without_file_starts_a_changelog() {
    let out = prepend_entry(None, "## 0.2.0 (d)\n");
    assert_eq!(out, "# Changelog\n## 0.2.0 (d)\n");
    let out = prepend_entry(Some("  notes  \n"), "E");
    assert_eq!(out, "notes\nE");
}

#[test]
fn current_version_falls_back() {
    assert_eq!(current_version(Some(" 1.2.3\n"), Some("9.9.9")), "1.2.3");
    assert_eq!(current_version(Some("  "), Some("9.9.9")), "9.9.9");
    assert_eq!(current_version(None, None), "0.1.0");
}

#[test]
fn changelog_step_skips_without_commits_and_writes_with_them() {
    let config = Config::default();
    let r = run_dated(&config, "", None, None, None, "2026-03-03", 0);
    assert!(matches!(&r.step.status, StepStatus::Skip(m) if m == "no commits to log"));
    assert!(r.write.is_none());

    let r = run_dated(&config, "feat: a\nfix: b", Some("0.3.0"), None, None, "2026-03-03", 0);
    assert!(matches!(r.step.status, StepStatus::Pass));
    assert_eq!(r.step.output.as_deref(), Some("2 commits \u{2192} docs/CHANGELOG.md"));
    let (file, content) = r.write.unwrap();
    assert_eq!(file, "docs/CHANGELOG.md");
    assert_eq!(
        content,
        "# Changelog\n## 0.3.0 (2026-03-03)\n\n### Added\n- a\n\n### Fixed\n- b\n"
    );
}

#[test]
fn changelog_run_uses_a_date() {
    let config = Config::default();
    let r = ship::pipeline::changelog::run(&config, "feat: x", None, None, None, 0);
    let (_, content) = r.write.unwrap();
    assert!(content.contains("## 0.1.0 ("));
    assert!(content.contains("- x\n"));
}

#[test]
fn version_step_reports_bump() {
    let r = ship::pipeline::version::run(Some("VERSION".into()), "1.2.3\n", "minor", 0);
    assert_eq!(r.step.output.as_deref(), Some("1.2.3 \u{2192} 1.3.0 (minor)"));
    assert_eq!(r.write, Some(("VERSION".to_string(), "1.3.0\n".to_string())));
    let r = ship::pipeline::version::run(None, "", "patch", 0);
    assert!(matches!(&r.step.status, StepStatus::Skip(m) if m == "no VERSION file found"));
}
