//! Changelog entries from conventional commits.

use vstd::prelude::*;
use crate::config::Config;
use crate::clock::{is_date_text, today};
use crate::pipeline::{StepResult, StepStatus};
use crate::text::{
    chars_of, char_is_ws, decimal, has_suffix, contains_seq, has_prefix, is_ws, lines, lines_of, matches_at, occurs_at,
    push_decimal, push_str, str_opt, string_from_range, string_of, trim, trim_start, trim_str, views,
};

verus! {

/// A commit subject split into its conventional kind and message.
#[derive(Debug, Clone)]
pub struct CommitInfo {
    pub kind: String,
    pub message: String,
}

// ---------------------------------------------------------------------
// Conventional commit subjects
// ---------------------------------------------------------------------

/// The conventional kind that `line` starts with, followed by a colon.
pub open spec fn kind_of(line: Seq<char>) -> Option<Seq<char>> {
    if has_prefix(line, "feat:"@) {
        Some("feat"@)
    } else if has_prefix(line, "fix:"@) {
        Some("fix"@)
    } else if has_prefix(line, "refactor:"@) {
        Some("refactor"@)
    } else if has_prefix(line, "docs:"@) {
        Some("docs"@)
    } else if has_prefix(line, "test:"@) {
        Some("test"@)
    } else if has_prefix(line, "chore:"@) {
        Some("chore"@)
    } else if has_prefix(line, "perf:"@) {
        Some("perf"@)
    } else if has_prefix(line, "style:"@) {
        Some("style"@)
    } else if has_prefix(line, "ci:"@) {
        Some("ci"@)
    } else {
        None
    }
}

pub open spec fn has_newline(s: Seq<char>) -> bool {
    exists|i: int| 0 <= i < s.len() && s[i] == '\n'
}

/// The message after `kind:`: optional whitespace, then at least one
/// character, none of them a line break. Whitespace is skipped as far as
/// possible, leaving at least one character for the message.
pub open spec fn message_after_colon(rest: Seq<char>) -> Option<Seq<char>> {
    let m = trim_start(rest);
    if rest.len() == 0 {
        None
    } else if m.len() > 0 {
        if has_newline(m) {
            None
        } else {
            Some(m)
        }
    } else if rest.last() == '\n' {
        None
    } else {
        Some(seq![rest.last()])
    }
}

/// Kind and message of a conventional commit subject
/// (`^(feat|fix|refactor|docs|test|chore|perf|style|ci):\s*(.+)$`).
pub open spec fn conventional(line: Seq<char>) -> Option<(Seq<char>, Seq<char>)> {
    match kind_of(line) {
        Some(k) => match message_after_colon(line.skip(k.len() as int + 1)) {
            Some(m) => Some((k, m)),
            None => None,
        },
        None => None,
    }
}

fn starts_with_lit(v: &Vec<char>, lit: &str) -> (b: bool)
    ensures
        b == has_prefix(v@, lit@),
{
    let p = chars_of(lit);
    if p.len() > v.len() {
        return false;
    }
    matches_at(v, &p, 0)
}

/// The conventional kind at the start of `v` (without its colon).
fn kind_prefix(v: &Vec<char>) -> (r: Option<&'static str>)
    ensures
        match r {
            Some(k) => kind_of(v@) == Some(k@),
            None => kind_of(v@) is None,
        },
{
    if starts_with_lit(v, "feat:") {
        Some("feat")
    } else if starts_with_lit(v, "fix:") {
        Some("fix")
    } else if starts_with_lit(v, "refactor:") {
        Some("refactor")
    } else if starts_with_lit(v, "docs:") {
        Some("docs")
    } else if starts_with_lit(v, "test:") {
        Some("test")
    } else if starts_with_lit(v, "chore:") {
        Some("chore")
    } else if starts_with_lit(v, "perf:") {
        Some("perf")
    } else if starts_with_lit(v, "style:") {
        Some("style")
    } else if starts_with_lit(v, "ci:") {
        Some("ci")
    } else {
        None
    }
}

proof fn lemma_trim_start_index(s: Seq<char>, i: int)
    requires
        0 <= i <= s.len(),
        forall|k: int| 0 <= k < i ==> is_ws(s[k]),
        i == s.len() || !is_ws(s[i]),
    ensures
        trim_start(s) == s.skip(i),
    decreases i,
{
    if i > 0 {
        assert(s.drop_first().skip(i - 1) =~= s.skip(i));
        lemma_trim_start_index(s.drop_first(), i - 1);
    } else {
        assert(s.skip(0) =~= s);
    }
}

/// Splits a commit subject into its conventional kind and message; a
/// subject that is not conventional has kind `"other"` and is its own message.
pub fn parse_commit(line: &str) -> (r: CommitInfo)
    ensures
        match conventional(line@) {
            Some((k, m)) => r.kind@ == k && r.message@ == m,
            None => r.kind@ == "other"@ && r.message@ == line@,
        },
{
    let v = chars_of(line);
    let other = CommitInfo { kind: string_of("other"), message: string_of(line) };
    let kind = match kind_prefix(&v) {
        Some(k) => k,
        None => return other,
    };
    proof {
        reveal_strlit("feat");
        reveal_strlit("fix");
        reveal_strlit("refactor");
        reveal_strlit("docs");
        reveal_strlit("test");
        reveal_strlit("chore");
        reveal_strlit("perf");
        reveal_strlit("style");
        reveal_strlit("ci");
        reveal_strlit("feat:");
        reveal_strlit("fix:");
        reveal_strlit("refactor:");
        reveal_strlit("docs:");
        reveal_strlit("test:");
        reveal_strlit("chore:");
        reveal_strlit("perf:");
        reveal_strlit("style:");
        reveal_strlit("ci:");
        assert(kind@.len() + 1 <= v@.len());
    }
    let start = kind.unicode_len() + 1;
    let ghost rest = v@.skip(start as int);
    if start == v.len() {
        proof {
            assert(rest.len() == 0);
        }
        return other;
    }
    let mut i = start;
    while i < v.len() && char_is_ws(v[i])
        invariant
            start <= i <= v.len(),
            rest == v@.skip(start as int),
            forall|k: int| start <= k < i ==> is_ws(v@[k]),
        decreases v.len() - i,
    {
        i = i + 1;
    }
    proof {
        lemma_trim_start_index(rest, i - start);
        assert(rest.skip(i - start) =~= v@.skip(i as int));
    }
    if i < v.len() {
        let mut j = i;
        while j < v.len() && v[j] != '\n'
            invariant
                i <= j <= v.len(),
                forall|k: int| i <= k < j ==> v@[k] != '\n',
            decreases v.len() - j,
        {
            j = j + 1;
        }
        if j < v.len() {
            proof {
                assert(v@.skip(i as int)[j - i] == '\n');
            }
            return other;
        }
        proof {
            assert forall|k: int| 0 <= k < v@.skip(i as int).len() implies v@.skip(i as int)[k]
                != '\n' by {
                assert(v@.skip(i as int)[k] == v@[i + k]);
            }
        }
        CommitInfo { kind: string_of(kind), message: string_from_range(&v, i, v.len()) }
    } else {
        let last = v[v.len() - 1];
        proof {
            assert(rest.last() == last);
        }
        if last == '\n' {
            return other;
        }
        let msg = string_from_range(&v, v.len() - 1, v.len());
        proof {
            assert(msg@ =~= seq![last]);
        }
        CommitInfo { kind: string_of(kind), message: msg }
    }
}


/// The commits of a `git log --pretty=format:%s` listing: one per non-empty line.
pub open spec fn commits_of_lines(ls: Seq<Seq<char>>) -> Seq<Seq<char>>
    decreases ls.len(),
{
    if ls.len() == 0 {
        seq![]
    } else if ls.last().len() == 0 {
        commits_of_lines(ls.drop_last())
    } else {
        commits_of_lines(ls.drop_last()).push(ls.last())
    }
}

/// Kind and message of a commit, as plain text.
pub open spec fn commit_view(c: CommitInfo) -> (Seq<char>, Seq<char>) {
    (c.kind@, c.message@)
}

pub open spec fn commit_views(cs: Seq<CommitInfo>) -> Seq<(Seq<char>, Seq<char>)> {
    cs.map_values(|c: CommitInfo| commit_view(c))
}

/// Kind and message that `parse_commit` gives a subject line.
pub open spec fn subject_view(line: Seq<char>) -> (Seq<char>, Seq<char>) {
    match conventional(line) {
        Some(km) => km,
        None => ("other"@, line),
    }
}

/// The commits of a `git log` listing, parsed.
pub open spec fn parsed_log(stdout: Seq<char>) -> Seq<(Seq<char>, Seq<char>)> {
    commits_of_lines(lines(stdout)).map_values(|l: Seq<char>| subject_view(l))
}

/// The commits listed by `git log`, in the listing's order.
pub fn parse_commits(stdout: &str) -> (r: Vec<CommitInfo>)
    ensures
        commit_views(r@) == parsed_log(stdout@),
{
    let ls = lines_of(stdout);
    let ghost lv = views(ls@);
    let mut out: Vec<CommitInfo> = Vec::new();
    let mut i: usize = 0;
    while i < ls.len()
        invariant
            i <= ls.len(),
            lv == views(ls@),
            lv == lines(stdout@),
            commit_views(out@) == commits_of_lines(lv.take(i as int)).map_values(
                |l: Seq<char>| subject_view(l),
            ),
        decreases ls.len() - i,
    {
        proof {
            assert(lv.take(i + 1).drop_last() =~= lv.take(i as int));
            assert(lv.take(i + 1).last() == ls@[i as int]@);
        }
        if !ls[i].as_str().is_empty() {
            let ghost before = out@;
            let c = parse_commit(ls[i].as_str());
            out.push(c);
            proof {
                assert(out@.drop_last() == before);
                assert(commit_views(out@) =~= commit_views(before).push(commit_view(c)));
                assert(commit_views(out@) =~= commits_of_lines(lv.take(i + 1)).map_values(
                    |l: Seq<char>| subject_view(l),
                ));
            }
        } else {
            proof {
                assert(commits_of_lines(lv.take(i + 1)) == commits_of_lines(lv.take(i as int)));
            }
        }
        i = i + 1;
    }
    proof {
        assert(lv.take(i as int) =~= lv);
    }
    out
}

// ---------------------------------------------------------------------
// Changelog entries
// ---------------------------------------------------------------------

/// Changelog section of a commit kind: 0 Added, 1 Fixed, 2 Improved,
/// 3 Documentation, 4 Other; -1 for kinds left out of the changelog.
pub open spec fn section_of(kind: Seq<char>) -> int {
    if kind == "feat"@ {
        0
    } else if kind == "fix"@ {
        1
    } else if kind == "refactor"@ || kind == "perf"@ {
        2
    } else if kind == "docs"@ {
        3
    } else if kind == "chore"@ || kind == "ci"@ || kind == "style"@ || kind == "test"@ {
        -1
    } else {
        4
    }
}

pub open spec fn heading_of(sec: int) -> Seq<char> {
    if sec == 0 {
        "Added"@
    } else if sec == 1 {
        "Fixed"@
    } else if sec == 2 {
        "Improved"@
    } else if sec == 3 {
        "Documentation"@
    } else {
        "Other"@
    }
}

/// The messages of the commits of one section, in commit order.
pub open spec fn messages_in(commits: Seq<(Seq<char>, Seq<char>)>, sec: int) -> Seq<Seq<char>>
    decreases commits.len(),
{
    if commits.len() == 0 {
        seq![]
    } else if section_of(commits.last().0) == sec {
        messages_in(commits.drop_last(), sec).push(commits.last().1)
    } else {
        messages_in(commits.drop_last(), sec)
    }
}

/// `- item` lines.
pub open spec fn item_lines(items: Seq<Seq<char>>) -> Seq<char>
    decreases items.len(),
{
    if items.len() == 0 {
        seq![]
    } else {
        item_lines(items.drop_last()) + "- "@ + items.last() + "\n"@
    }
}

/// A section with its heading, or nothing when it has no items.
pub open spec fn section_text(sec: int, items: Seq<Seq<char>>) -> Seq<char> {
    if items.len() == 0 {
        seq![]
    } else {
        "\n### "@ + heading_of(sec) + "\n"@ + item_lines(items)
    }
}

/// A changelog entry: the version heading, then the sections in order.
pub open spec fn entry_text(
    version: Seq<char>,
    date: Seq<char>,
    commits: Seq<(Seq<char>, Seq<char>)>,
) -> Seq<char> {
    "## "@ + version + " ("@ + date + ")\n"@ + section_text(0, messages_in(commits, 0))
        + section_text(1, messages_in(commits, 1)) + section_text(2, messages_in(commits, 2))
        + section_text(3, messages_in(commits, 3)) + section_text(4, messages_in(commits, 4))
}

fn kind_section(kind: &str) -> (r: i8)
    ensures
        r as int == section_of(kind@),
{
    let v = chars_of(kind);
    if crate::text::eq_text(&v, "feat") {
        0
    } else if crate::text::eq_text(&v, "fix") {
        1
    } else if crate::text::eq_text(&v, "refactor")
        || crate::text::eq_text(&v, "perf") {
        2
    } else if crate::text::eq_text(&v, "docs") {
        3
    } else if crate::text::eq_text(&v, "chore")
        || crate::text::eq_text(&v, "ci")
        || crate::text::eq_text(&v, "style")
        || crate::text::eq_text(&v, "test") {
        -1
    } else {
        4
    }
}

fn heading_label(sec: i8) -> (r: &'static str)
    ensures
        r@ == heading_of(sec as int),
{
    if sec == 0 {
        "Added"
    } else if sec == 1 {
        "Fixed"
    } else if sec == 2 {
        "Improved"
    } else if sec == 3 {
        "Documentation"
    } else {
        "Other"
    }
}

fn push_section(out: &mut String, commits: &Vec<CommitInfo>, sec: i8)
    requires
        0 <= sec <= 4,
    ensures
        final(out)@ == old(out)@ + section_text(sec as int, messages_in(commit_views(commits@), sec as int)),
{
    let ghost o0 = out@;
    let ghost cv = commit_views(commits@);
    let mut items = String::new();
    let mut any = false;
    let mut i: usize = 0;
    while i < commits.len()
        invariant
            i <= commits.len(),
            out@ == o0,
            cv == commit_views(commits@),
            0 <= sec <= 4,
            any == (messages_in(cv.take(i as int), sec as int).len() > 0),
            items@ == item_lines(messages_in(cv.take(i as int), sec as int)),
        decreases commits.len() - i,
    {
        proof {
            assert(cv.take(i + 1).drop_last() =~= cv.take(i as int));
            assert(cv.take(i + 1).last() == commit_view(commits@[i as int]));
        }
        if kind_section(commits[i].kind.as_str()) == sec {
            push_str(&mut items, "- ");
            push_str(&mut items, commits[i].message.as_str());
            push_str(&mut items, "\n");
            proof {
                let ms = messages_in(cv.take(i + 1), sec as int);
                assert(ms.drop_last() =~= messages_in(cv.take(i as int), sec as int));
                assert(items@ =~= item_lines(ms));
            }
            any = true;
        }
        i = i + 1;
    }
    proof {
        assert(cv.take(i as int) =~= cv);
    }
    if any {
        push_str(out, "\n### ");
        push_str(out, heading_label(sec));
        push_str(out, "\n");
        push_str(out, items.as_str());
        proof {
            assert(out@ =~= o0 + section_text(sec as int, messages_in(cv, sec as int)));
        }
    } else {
        proof {
            assert(o0 + section_text(sec as int, messages_in(cv, sec as int)) =~= o0);
        }
    }
}

/// The changelog entry of a release: a `## version (date)` heading, then the
/// commits grouped as Added, Fixed, Improved, Documentation and Other; chore,
/// ci, style and test commits are left out.
pub fn generate_entry(version: &str, date: &str, commits: &Vec<CommitInfo>) -> (r: String)
    ensures
        r@ == entry_text(version@, date@, commit_views(commits@)),
{
    let mut out = string_of("## ");
    push_str(&mut out, version);
    push_str(&mut out, " (");
    push_str(&mut out, date);
    push_str(&mut out, ")\n");
    let ghost head = out@;
    push_section(&mut out, commits, 0);
    push_section(&mut out, commits, 1);
    push_section(&mut out, commits, 2);
    push_section(&mut out, commits, 3);
    push_section(&mut out, commits, 4);
    proof {
        assert(head =~= "## "@ + version@ + " ("@ + date@ + ")\n"@);
        assert(out@ =~= entry_text(version@, date@, commit_views(commits@)));
    }
    out
}


// ---------------------------------------------------------------------
// The changelog file
// ---------------------------------------------------------------------

/// `p` is the first position at which `needle` occurs in `hay`.
pub open spec fn first_at(hay: Seq<char>, needle: Seq<char>, p: int) -> bool {
    occurs_at(hay, needle, p) && forall|q: int| 0 <= q < p ==> !occurs_at(hay, needle, q)
}

/// The first position of `needle` in `hay` (std `str::find`).
pub open spec fn find_seq(hay: Seq<char>, needle: Seq<char>) -> Option<int> {
    if contains_seq(hay, needle) {
        Some(choose|p: int| first_at(hay, needle, p))
    } else {
        None
    }
}

proof fn lemma_find_seq(hay: Seq<char>, needle: Seq<char>, p: int)
    requires
        first_at(hay, needle, p),
    ensures
        find_seq(hay, needle) == Some(p),
{
    assert(contains_seq(hay, needle));
    let c = choose|q: int| first_at(hay, needle, q);
    assert(first_at(hay, needle, c));
    if c < p {
        assert(!occurs_at(hay, needle, c));
    }
    if p < c {
        assert(!occurs_at(hay, needle, p));
    }
}

/// The changelog as it was: the file's content, or a bare title when the
/// file could not be read.
pub open spec fn changelog_base(existing: Option<Seq<char>>) -> Seq<char> {
    match existing {
        Some(s) => s,
        None => "# Changelog\n"@,
    }
}

/// The changelog with `entry` inserted before its first `## ` heading, or
/// appended after the trimmed text when it has none.
pub open spec fn prepended(existing: Option<Seq<char>>, entry: Seq<char>) -> Seq<char> {
    let e = changelog_base(existing);
    match find_seq(e, "\n## "@) {
        Some(p) => e.take(p) + "\n"@ + entry + e.skip(p),
        None => trim(e) + "\n"@ + entry,
    }
}

/// Where `needle` first occurs in `hay`, if it does.
fn find_chars(hay: &Vec<char>, needle: &Vec<char>) -> (r: Option<usize>)
    ensures
        match r {
            Some(p) => first_at(hay@, needle@, p as int),
            None => !contains_seq(hay@, needle@),
        },
{
    if needle.len() > hay.len() {
        return None;
    }
    if needle.len() == 0 {
        proof {
            assert(hay@.subrange(0, 0) =~= needle@);
        }
        return Some(0);
    }
    let last = hay.len() - needle.len();
    let mut i: usize = 0;
    while i <= last
        invariant
            last + needle.len() == hay.len(),
            needle.len() > 0,
            i <= last + 1,
            forall|k: int| 0 <= k < i ==> !occurs_at(hay@, needle@, k),
        decreases last + 1 - i,
    {
        if matches_at(hay, needle, i) {
            return Some(i);
        }
        i = i + 1;
    }
    proof {
        assert forall|k: int| !occurs_at(hay@, needle@, k) by {
            if 0 <= k < i {
            }
        }
    }
    None
}

/// The changelog's new content: `entry` inserted before the first release
/// heading of `existing` (`None` when the file could not be read).
pub fn prepend_entry(existing: Option<&str>, entry: &str) -> (r: String)
    ensures
        r@ == prepended(str_opt(existing), entry@),
{
    let base: String = match existing {
        Some(s) => string_of(s),
        None => string_of("# Changelog\n"),
    };
    let ghost e = changelog_base(str_opt(existing));
    assert(base@ == e);
    let v = chars_of(base.as_str());
    let pat = chars_of("\n## ");
    match find_chars(&v, &pat) {
        Some(p) => {
            proof {
                lemma_find_seq(e, "\n## "@, p as int);
            }
            let mut out = string_from_range(&v, 0, p);
            push_str(&mut out, "\n");
            push_str(&mut out, entry);
            let tail = string_from_range(&v, p, v.len());
            push_str(&mut out, tail.as_str());
            proof {
                assert(v@.subrange(0, p as int) =~= e.take(p as int));
                assert(v@.subrange(p as int, v@.len() as int) =~= e.skip(p as int));
            }
            out
        },
        None => {
            let mut out = trim_str(base.as_str());
            push_str(&mut out, "\n");
            push_str(&mut out, entry);
            out
        },
    }
}

/// The version a changelog entry is written for: the trimmed content of
/// `VERSION`, else of `version.txt`, the first that is not empty; `0.1.0`
/// when neither is.
pub open spec fn current_version_of(version: Option<Seq<char>>, version_txt: Option<Seq<char>>) -> Seq<char> {
    if version is Some && trim(version->0).len() > 0 {
        trim(version->0)
    } else if version_txt is Some && trim(version_txt->0).len() > 0 {
        trim(version_txt->0)
    } else {
        "0.1.0"@
    }
}

/// The version for the changelog entry, from the contents of `VERSION` and
/// `version.txt` (`None` for a file that could not be read).
pub fn current_version(version: Option<&str>, version_txt: Option<&str>) -> (r: String)
    ensures
        r@ == current_version_of(str_opt(version), str_opt(version_txt)),
{
    if let Some(v) = version {
        let t = trim_str(v);
        if !t.as_str().is_empty() {
            return t;
        }
    }
    if let Some(v) = version_txt {
        let t = trim_str(v);
        if !t.as_str().is_empty() {
            return t;
        }
    }
    string_of("0.1.0")
}

// ---------------------------------------------------------------------
// The changelog step
// ---------------------------------------------------------------------

/// The changelog step's result, and the changelog file with its new
/// content when an entry was written.
pub struct ChangelogOutcome {
    pub step: StepResult,
    pub write: Option<(String, String)>,
}

/// `<n> commits → <file>`.
pub open spec fn changelog_detail(n: nat, file: Seq<char>) -> Seq<char> {
    decimal(n) + " commits \u{2192} "@ + file
}

/// What the changelog step does with the branch's commit subjects (`log`,
/// as `git log --pretty=format:%s` lists them), the version files, the
/// changelog's current content and today's date.
pub open spec fn changelog_step_ok(
    r: ChangelogOutcome,
    config: Config,
    log: Seq<char>,
    version: Option<Seq<char>>,
    version_txt: Option<Seq<char>>,
    existing: Option<Seq<char>>,
    date: Seq<char>,
    duration: u64,
) -> bool {
    let commits = parsed_log(log);
    &&& r.step.name@ == "Changelog"@
    &&& r.step.duration == duration
    &&& commits.len() == 0 ==> {
        &&& r.step.status matches StepStatus::Skip(m) && m@ == "no commits to log"@
        &&& r.step.output is None
        &&& r.write is None
    }
    &&& commits.len() > 0 ==> {
        &&& r.step.status is Pass
        &&& r.step.output matches Some(o) && o@ == changelog_detail(
            commits.len(),
            config.changelog.file@,
        )
        &&& r.write matches Some(w) && w.0@ == config.changelog.file@ && w.1@ == prepended(
            existing,
            entry_text(current_version_of(version, version_txt), date, commits),
        )
    }
}

/// The changelog step on a given date.
pub fn run_dated(
    config: &Config,
    log: &str,
    version: Option<&str>,
    version_txt: Option<&str>,
    existing: Option<&str>,
    date: &str,
    duration: u64,
) -> (r: ChangelogOutcome)
    ensures
        changelog_step_ok(
            r,
            *config,
            log@,
            str_opt(version),
            str_opt(version_txt),
            str_opt(existing),
            date@,
            duration,
        ),
{
    let commits = parse_commits(log);
    proof {
        assert(commit_views(commits@).len() == commits@.len());
    }
    if commits.len() == 0 {
        return ChangelogOutcome {
            step: StepResult {
                name: string_of("Changelog"),
                status: StepStatus::Skip(string_of("no commits to log")),
                duration,
                output: None,
            },
            write: None,
        };
    }
    let current = current_version(version, version_txt);
    let entry = generate_entry(current.as_str(), date, &commits);
    let content = prepend_entry(existing, entry.as_str());
    let mut detail = String::new();
    push_decimal(&mut detail, commits.len() as u64);
    push_str(&mut detail, " commits \u{2192} ");
    push_str(&mut detail, config.changelog.file.as_str());
    proof {
        assert(detail@ =~= changelog_detail(parsed_log(log@).len(), config.changelog.file@));
    }
    ChangelogOutcome {
        step: StepResult {
            name: string_of("Changelog"),
            status: StepStatus::Pass,
            duration,
            output: Some(detail),
        },
        write: Some((config.changelog.file.clone(), content)),
    }
}

/// The changelog step: today's date from the clock, then `run_dated`.
pub fn run(
    config: &Config,
    log: &str,
    version: Option<&str>,
    version_txt: Option<&str>,
    existing: Option<&str>,
    duration: u64,
) -> (r: ChangelogOutcome)
    ensures
        exists|date: Seq<char>|
            is_date_text(date) && changelog_step_ok(
                r,
                *config,
                log@,
                str_opt(version),
                str_opt(version_txt),
                str_opt(existing),
                date,
                duration,
            ),
{
    let date = today();
    run_dated(config, log, version, version_txt, existing, date.as_str(), duration)
}

// ---------------------------------------------------------------------
// Laws of the changelog
// ---------------------------------------------------------------------

proof fn lemma_occurs_extend(a: Seq<char>, b: Seq<char>, c: Seq<char>, n: Seq<char>, i: int)
    requires
        occurs_at(b, n, i),
    ensures
        occurs_at(a + b + c, n, a.len() + i),
{
    assert((a + b + c).subrange(a.len() + i, a.len() + i + n.len()) =~= b.subrange(i, i + n.len()));
}

proof fn lemma_item_lines_contains(items: Seq<Seq<char>>, k: int)
    requires
        0 <= k < items.len(),
    ensures
        contains_seq(item_lines(items), "- "@ + items[k] + "\n"@),
    decreases items.len(),
{
    let n = "- "@ + items[k] + "\n"@;
    let prev = item_lines(items.drop_last());
    if k == items.len() - 1 {
        assert(item_lines(items) =~= prev + n + Seq::<char>::empty());
        assert(occurs_at(n, n, 0)) by {
            assert(n.subrange(0, n.len() as int) =~= n);
        }
        lemma_occurs_extend(prev, n, Seq::<char>::empty(), n, 0);
    } else {
        lemma_item_lines_contains(items.drop_last(), k);
        assert(items.drop_last()[k] == items[k]);
        let i = choose|i: int| occurs_at(prev, n, i);
        lemma_occurs_extend(Seq::<char>::empty(), prev, "- "@ + items.last() + "\n"@, n, i);
        assert(Seq::<char>::empty() + prev + ("- "@ + items.last() + "\n"@) =~= item_lines(items));
    }
}

proof fn lemma_messages_in_has(commits: Seq<(Seq<char>, Seq<char>)>, j: int, sec: int)
    requires
        0 <= j < commits.len(),
        section_of(commits[j].0) == sec,
    ensures
        exists|k: int|
            0 <= k < messages_in(commits, sec).len() && messages_in(commits, sec)[k] == commits[j].1,
    decreases commits.len(),
{
    if j == commits.len() - 1 {
        let m = messages_in(commits, sec);
        assert(m[m.len() - 1] == commits[j].1);
    } else {
        lemma_messages_in_has(commits.drop_last(), j, sec);
        let p = messages_in(commits.drop_last(), sec);
        let k = choose|k: int| 0 <= k < p.len() && p[k] == commits.drop_last()[j].1;
        assert(commits.drop_last()[j] == commits[j]);
        if section_of(commits.last().0) == sec {
            assert(messages_in(commits, sec) == p.push(commits.last().1));
            assert(messages_in(commits, sec)[k] == p[k]);
        } else {
            assert(messages_in(commits, sec) == p);
        }
        assert(messages_in(commits, sec)[k] == commits[j].1);
    }
}

proof fn lemma_section_has(sec: int, items: Seq<Seq<char>>, k: int)
    requires
        0 <= k < items.len(),
    ensures
        contains_seq(section_text(sec, items), "- "@ + items[k] + "\n"@),
{
    let n = "- "@ + items[k] + "\n"@;
    lemma_item_lines_contains(items, k);
    let i = choose|i: int| occurs_at(item_lines(items), n, i);
    let head = "\n### "@ + heading_of(sec) + "\n"@;
    lemma_occurs_extend(head, item_lines(items), Seq::<char>::empty(), n, i);
    assert(head + item_lines(items) + Seq::<char>::empty() =~= section_text(sec, items));
}

/// Every commit that belongs in the changelog is listed in the entry as a
/// `- message` line.
pub proof fn law_entry_lists_commit(
    version: Seq<char>,
    date: Seq<char>,
    commits: Seq<(Seq<char>, Seq<char>)>,
    j: int,
)
    requires
        0 <= j < commits.len(),
        section_of(commits[j].0) >= 0,
    ensures
        contains_seq(entry_text(version, date, commits), "- "@ + commits[j].1 + "\n"@),
{
    let sec = section_of(commits[j].0);
    let n = "- "@ + commits[j].1 + "\n"@;
    lemma_messages_in_has(commits, j, sec);
    let ms = messages_in(commits, sec);
    let k = choose|k: int| 0 <= k < ms.len() && ms[k] == commits[j].1;
    lemma_section_has(sec, ms, k);
    let i = choose|i: int| occurs_at(section_text(sec, ms), n, i);
    let head = "## "@ + version + " ("@ + date + ")\n"@;
    let s0 = section_text(0, messages_in(commits, 0));
    let s1 = section_text(1, messages_in(commits, 1));
    let s2 = section_text(2, messages_in(commits, 2));
    let s3 = section_text(3, messages_in(commits, 3));
    let s4 = section_text(4, messages_in(commits, 4));
    let e = entry_text(version, date, commits);
    assert(e == head + s0 + s1 + s2 + s3 + s4);
    if sec == 0 {
        lemma_occurs_extend(head, s0, s1 + s2 + s3 + s4, n, i);
        assert(head + s0 + (s1 + s2 + s3 + s4) =~= e);
    } else if sec == 1 {
        lemma_occurs_extend(head + s0, s1, s2 + s3 + s4, n, i);
        assert(head + s0 + s1 + (s2 + s3 + s4) =~= e);
    } else if sec == 2 {
        lemma_occurs_extend(head + s0 + s1, s2, s3 + s4, n, i);
        assert(head + s0 + s1 + s2 + (s3 + s4) =~= e);
    } else if sec == 3 {
        lemma_occurs_extend(head + s0 + s1 + s2, s3, s4, n, i);
        assert(head + s0 + s1 + s2 + s3 + s4 =~= e);
    } else {
        lemma_occurs_extend(head + s0 + s1 + s2 + s3, s4, Seq::<char>::empty(), n, i);
        assert(head + s0 + s1 + s2 + s3 + s4 + Seq::<char>::empty() =~= e);
    }
}

/// An entry opens with its `## <version> (<date>)` heading.
pub proof fn law_entry_heading(version: Seq<char>, date: Seq<char>, commits: Seq<(Seq<char>, Seq<char>)>)
    ensures
        has_prefix(entry_text(version, date, commits), "## "@ + version + " ("@ + date + ")\n"@),
{
    let head = "## "@ + version + " ("@ + date + ")\n"@;
    let e = entry_text(version, date, commits);
    assert(e.subrange(0, head.len() as int) =~= head);
}

/// A new entry goes in whole, before the changelog's first release, and
/// what was there before stays, in its place around the entry.
pub proof fn law_prepend_keeps_changelog(existing: Option<Seq<char>>, entry: Seq<char>)
    ensures
        contains_seq(prepended(existing, entry), entry),
        find_seq(changelog_base(existing), "\n## "@) matches Some(p) ==> {
            &&& has_prefix(prepended(existing, entry), changelog_base(existing).take(p))
            &&& has_suffix(prepended(existing, entry), changelog_base(existing).skip(p))
        },
{
    let e = changelog_base(existing);
    let r = prepended(existing, entry);
    assert(occurs_at(entry, entry, 0)) by {
        assert(entry.subrange(0, entry.len() as int) =~= entry);
    }
    match find_seq(e, "\n## "@) {
        Some(p) => {
            lemma_occurs_extend(e.take(p) + "\n"@, entry, e.skip(p), entry, 0);
            assert(r =~= e.take(p) + "\n"@ + entry + e.skip(p));
            assert(r.subrange(0, e.take(p).len() as int) =~= e.take(p));
            assert(r.subrange(r.len() - e.skip(p).len(), r.len() as int) =~= e.skip(p));
        },
        None => {
            lemma_occurs_extend(trim(e) + "\n"@, entry, Seq::<char>::empty(), entry, 0);
            assert(r =~= trim(e) + "\n"@ + entry + Seq::<char>::empty());
        },
    }
}

proof fn lemma_lift_section(
    version: Seq<char>,
    date: Seq<char>,
    commits: Seq<(Seq<char>, Seq<char>)>,
    sec: int,
    n: Seq<char>,
    i: int,
)
    requires
        0 <= sec <= 4,
        occurs_at(section_text(sec, messages_in(commits, sec)), n, i),
    ensures
        contains_seq(entry_text(version, date, commits), n),
{
    let head = "## "@ + version + " ("@ + date + ")\n"@;
    let s0 = section_text(0, messages_in(commits, 0));
    let s1 = section_text(1, messages_in(commits, 1));
    let s2 = section_text(2, messages_in(commits, 2));
    let s3 = section_text(3, messages_in(commits, 3));
    let s4 = section_text(4, messages_in(commits, 4));
    let e = entry_text(version, date, commits);
    if sec == 0 {
        lemma_occurs_extend(head, s0, s1 + s2 + s3 + s4, n, i);
        assert(head + s0 + (s1 + s2 + s3 + s4) =~= e);
    } else if sec == 1 {
        lemma_occurs_extend(head + s0, s1, s2 + s3 + s4, n, i);
        assert(head + s0 + s1 + (s2 + s3 + s4) =~= e);
    } else if sec == 2 {
        lemma_occurs_extend(head + s0 + s1, s2, s3 + s4, n, i);
        assert(head + s0 + s1 + s2 + (s3 + s4) =~= e);
    } else if sec == 3 {
        lemma_occurs_extend(head + s0 + s1 + s2, s3, s4, n, i);
        assert(head + s0 + s1 + s2 + s3 + s4 =~= e);
    } else {
        lemma_occurs_extend(head + s0 + s1 + s2 + s3, s4, Seq::<char>::empty(), n, i);
        assert(head + s0 + s1 + s2 + s3 + s4 + Seq::<char>::empty() =~= e);
    }
}

/// `entry` has a `### heading` section and lists `message` as `- message`.
pub open spec fn listed_under(entry: Seq<char>, heading: Seq<char>, message: Seq<char>) -> bool {
    contains_seq(entry, "\n### "@ + heading + "\n"@) && contains_seq(entry, "- "@ + message + "\n"@)
}

proof fn lemma_listed(
    version: Seq<char>,
    date: Seq<char>,
    commits: Seq<(Seq<char>, Seq<char>)>,
    j: int,
    sec: int,
)
    requires
        0 <= j < commits.len(),
        0 <= sec <= 4,
        section_of(commits[j].0) == sec,
    ensures
        listed_under(entry_text(version, date, commits), heading_of(sec), commits[j].1),
{
    lemma_messages_in_has(commits, j, sec);
    let ms = messages_in(commits, sec);
    let k = choose|k: int| 0 <= k < ms.len() && ms[k] == commits[j].1;
    let n = "- "@ + commits[j].1 + "\n"@;
    lemma_section_has(sec, ms, k);
    let i = choose|i: int| occurs_at(section_text(sec, ms), n, i);
    lemma_lift_section(version, date, commits, sec, n, i);
    let h = "\n### "@ + heading_of(sec) + "\n"@;
    let st = section_text(sec, ms);
    assert(st =~= h + (item_lines(ms)));
    assert(st.subrange(0, h.len() as int) =~= h);
    assert(occurs_at(st, h, 0));
    lemma_lift_section(version, date, commits, sec, h, 0);
}

/// Where a commit goes in the changelog, by its kind: `feat` under Added,
/// `fix` under Fixed, `refactor` and `perf` under Improved, `docs` under
/// Documentation, and any kind that is not conventional under Other; each
/// as a `- message` line below its section's heading.
pub proof fn law_commit_kind_sections(
    version: Seq<char>,
    date: Seq<char>,
    commits: Seq<(Seq<char>, Seq<char>)>,
    j: int,
)
    requires
        0 <= j < commits.len(),
    ensures
        commits[j].0 == "feat"@ ==> listed_under(entry_text(version, date, commits), "Added"@, commits[j].1),
        commits[j].0 == "fix"@ ==> listed_under(entry_text(version, date, commits), "Fixed"@, commits[j].1),
        commits[j].0 == "refactor"@ || commits[j].0 == "perf"@ ==> listed_under(entry_text(version, date, commits), "Improved"@, commits[j].1),
        commits[j].0 == "docs"@ ==> listed_under(entry_text(version, date, commits), "Documentation"@, commits[j].1),
        commits[j].0 != "feat"@ && commits[j].0 != "fix"@ && commits[j].0 != "refactor"@ && commits[j].0 != "perf"@ && commits[j].0 != "docs"@
            && commits[j].0 != "chore"@ && commits[j].0 != "ci"@ && commits[j].0 != "style"@ && commits[j].0 != "test"@ ==> listed_under(
            entry_text(version, date, commits),
            "Other"@,
            commits[j].1,
        ),
{
    reveal_strlit("feat");
    reveal_strlit("fix");
    reveal_strlit("refactor");
    reveal_strlit("perf");
    reveal_strlit("docs");
    reveal_strlit("chore");
    reveal_strlit("ci");
    reveal_strlit("style");
    reveal_strlit("test");
    assert("feat"@.len() == 4 && "feat"@[0] == 'f' && "feat"@[1] == 'e');
    assert("fix"@.len() == 3);
    assert("refactor"@.len() == 8);
    assert("perf"@.len() == 4 && "perf"@[0] == 'p');
    assert("docs"@.len() == 4 && "docs"@[0] == 'd');
    let k = commits[j].0;
    let e = entry_text(version, date, commits);
    let m = commits[j].1;
    if k == "feat"@ {
        lemma_listed(version, date, commits, j, 0);
    }
    if k == "fix"@ {
        assert(k != "feat"@);
        lemma_listed(version, date, commits, j, 1);
    }
    if k == "refactor"@ || k == "perf"@ {
        assert(k != "feat"@ && k != "fix"@);
        lemma_listed(version, date, commits, j, 2);
    }
    if k == "docs"@ {
        assert(k != "feat"@ && k != "fix"@ && k != "refactor"@ && k != "perf"@);
        lemma_listed(version, date, commits, j, 3);
    }
    if section_of(k) == 4 {
        lemma_listed(version, date, commits, j, 4);
    }
}

} // verus!
