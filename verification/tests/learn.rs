use ship::config::LearnConfig;
use ship::learn::display::learning_lines;
use ship::learn::store::{dedupe_by_message, search, Learning};
use ship::learn::{prune_summary, recent, resolve_path_pub};

#[test]
fn test_learning_new() {
    let l = Learning::new("tarot", "always run migrations", &["deploy".into()]);
    assert_eq!(l.project, "tarot");
    assert_eq!(l.message, "always run migrations");
    assert_eq!(l.tags, vec!["deploy"]);
    assert!(!l.id.is_empty());
}

#[test]
fn learning_new_id_and_timestamp_shapes() {
    let a = Learning::new("p", "m", &[]);
    let b = Learning::new("p", "m", &[]);
    assert_eq!(a.id.len(), 36);
    assert_eq!(&a.id[14..15], "4");
    assert_ne!(a.id, b.id);
    assert!(a.timestamp.ends_with("+00:00"));
}

#[test]
fn test_matches_message() {
    let l = Learning::new("tarot", "Prisma needs ALTER TABLE after deploy", &[]);
    assert!(l.matches("prisma"));
    assert!(l.matches("ALTER"));
    assert!(!l.matches("flask"));
}

#[test]
fn test_matches_tag() {
    let l = Learning::new("tarot", "something", &["docker".into(), "deploy".into()]);
    assert!(l.matches("docker"));
    assert!(l.matches("deploy"));
}

#[test]
fn matches_project_too() {
    let l = Learning::new("Tarot", "x", &[]);
    assert!(l.matches("tarot"));
    assert!(!l.matches("jarvis"));
}

#[test]
fn test_search() {
    let all = vec![
        Learning::new("tarot", "docker compose down", &[]),
        Learning::new("tarot", "prisma migration", &[]),
        Learning::new("jarvis", "docker restart", &[]),
    ];
    let results = search(&all, "docker");
    assert_eq!(results.len(), 2);
    assert_eq!(results[0].message, "docker compose down");
    assert_eq!(results[1].message, "docker restart");
}

#[test]
fn test_write_all_prune() {
    let all = vec![
        Learning::new("tarot", "duplicate", &[]),
        Learning::new("tarot", "duplicate", &[]),
        Learning::new("tarot", "unique", &[]),
    ];
    assert_eq!(all.len(), 3);
    let deduped = dedupe_by_message(&all);
    assert_eq!(deduped.len(), 2);
    assert_eq!(deduped[0].id, all[0].id);
    assert_eq!(deduped[1].message, "unique");
    assert_eq!(dedupe_by_message(&deduped).len(), 2);
}

#[test]
fn prune_report() {
    assert_eq!(prune_summary(3, 2), "Pruned 1 duplicates (3 \u{2192} 2)");
}

#[test]
fn recent_is_newest_first() {
    let all = vec![Learning::new("p", "a", &[]), Learning::new("p", "b", &[]), Learning::new("p", "c", &[])];
    let r = recent(&all, 2);
    assert_eq!(r.len(), 2);
    assert_eq!(r[0].message, "c");
    assert_eq!(r[1].message, "b");
    assert_eq!(recent(&all, 10).len(), 3);
}

#[test]
fn learnings_path_local_or_global() {
    let c = LearnConfig::default();
    assert_eq!(resolve_path_pub(&c, "tarot", true, Some("/home/u")), ".ship/learnings/tarot.jsonl");
    assert_eq!(resolve_path_pub(&c, "tarot", false, Some("/home/u")), "/home/u/.ship/learnings/tarot.jsonl");
    assert_eq!(resolve_path_pub(&c, "tarot", false, None), "~/.ship/learnings/tarot.jsonl");
}

#[test]
fn learning_display() {
    let mut l = Learning::new("tarot", "msg", &["a".into(), "b".into()]);
    l.timestamp = "2026-04-04T10:00:00+00:00".into();
    let ls = learning_lines(&l);
    assert_eq!(ls, vec!["  \u{2022} msg [a, b]", "    tarot | 2026-04-04", ""]);
}
