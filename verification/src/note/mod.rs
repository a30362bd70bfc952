//! Ship notes for an Obsidian vault: where a note goes, what it says, and
//! the steps that write it.

pub mod slug;

use vstd::prelude::*;
use std::time::{Duration, SystemTime};
use crate::config::{ObsidianConfig, opt_view};
use crate::path::{join_path, path_join};
use slug::{slug_of, slugify};
use crate::text::{
    chars_of, contains_seq, contains_str, has_prefix, has_suffix, lines, lines_of, matches_at,
    push_str, str_opt, string_from_range, string_of, strip_prefix, trim, trim_str, views,
};

verus! {

/// Options of one note export.
#[derive(Debug, Clone, Default)]
pub struct NoteOptions {
    pub project: Option<String>,
    pub ticket: Option<String>,
    pub message: Option<String>,
    pub vault_path: Option<String>,
}

/// A written note (its path), or why none was written.
#[derive(Debug)]
pub enum NoteOutcome {
    Written(String),
    Skipped(String),
}

/// What git says about the last commit.
#[derive(Debug, Default)]
pub struct GitInfo {
    pub commit_hash: Option<String>,
    pub commit_subject: String,
    pub commit_body: Option<String>,
    pub branch: Option<String>,
    pub diff_stat: Option<String>,
    pub github_commit_url: Option<String>,
    pub pr_url: Option<String>,
}

// ---------------------------------------------------------------------
// Home directory expansion
// ---------------------------------------------------------------------

/// `~/rest` becomes `home/rest` when the home directory is known; anything
/// else is kept.
pub open spec fn expand_home(path: Seq<char>, home: Option<Seq<char>>) -> Seq<char> {
    if has_prefix(path, "~/"@) && home is Some {
        home->0 + "/"@ + path.skip(2)
    } else {
        path
    }
}

/// Expands a leading `~/` to the home directory.
pub fn shellexpand_with_home(path: &str, home: Option<&str>) -> (r: String)
    ensures
        r@ == expand_home(
            path@,
            match home {
                Some(h) => Some(h@),
                None => None,
            },
        ),
{
    proof {
        reveal_strlit("~/");
    }
    match strip_prefix(path, "~/") {
        Some(rest) => match home {
            Some(h) => {
                let mut r = string_of(h);
                push_str(&mut r, "/");
                push_str(&mut r, rest.as_str());
                r
            },
            None => string_of(path),
        },
        None => string_of(path),
    }
}

// ---------------------------------------------------------------------
// Git details
// ---------------------------------------------------------------------

/// `s` with every trailing occurrence of `p` removed, repeatedly.
pub open spec fn trim_end_matches(s: Seq<char>, p: Seq<char>) -> Seq<char>
    decreases s.len(),
{
    if p.len() > 0 && has_suffix(s, p) {
        trim_end_matches(s.take(s.len() - p.len()), p)
    } else {
        s
    }
}

fn trim_end_matches_vec(v: &Vec<char>, p: &str) -> (r: String)
    ensures
        r@ == trim_end_matches(v@, p@),
{
    let pv = chars_of(p);
    let mut end = v.len();
    proof {
        assert(v@.take(end as int) =~= v@);
    }
    while pv.len() > 0 && end >= pv.len() && matches_at(v, &pv, end - pv.len())
        invariant
            end <= v.len(),
            pv@ == p@,
            trim_end_matches(v@.take(end as int), p@) == trim_end_matches(v@, p@),
        decreases end,
    {
        proof {
            let t = v@.take(end as int);
            assert(t.subrange(t.len() - pv.len(), t.len() as int) =~= v@.subrange(
                end - pv.len(),
                end as int,
            ));
            assert(t.take(t.len() - pv.len()) =~= v@.take(end - pv.len()));
        }
        end = end - pv.len();
    }
    proof {
        let t = v@.take(end as int);
        if pv.len() > 0 && end >= pv.len() {
            assert(t.subrange(t.len() - pv.len(), t.len() as int) =~= v@.subrange(
                end - pv.len(),
                end as int,
            ));
        }
    }
    string_from_range(v, 0, end)
}

/// The web address of a GitHub remote: SSH remotes are rewritten to HTTPS,
/// other GitHub addresses lose a trailing `.git` and `/`.
pub open spec fn github_url_of(raw: Seq<char>) -> Option<Seq<char>> {
    if has_prefix(raw, "git@github.com:"@) {
        Some("https://github.com/"@ + trim_end_matches(raw.skip(15), ".git"@))
    } else if contains_seq(raw, "github.com"@) {
        Some(trim_end_matches(trim_end_matches(raw, ".git"@), "/"@))
    } else {
        None
    }
}

/// The GitHub web address of the `origin` remote, if it is on GitHub.
pub fn github_repo_url(remote: Option<&str>) -> (r: Option<String>)
    ensures
        opt_view(r) == match remote {
            Some(raw) => github_url_of(raw@),
            None => None,
        },
{
    let raw = match remote {
        Some(raw) => raw,
        None => return None,
    };
    proof {
        reveal_strlit("git@github.com:");
    }
    match strip_prefix(raw, "git@github.com:") {
        Some(rest) => {
            let rv = chars_of(rest.as_str());
            let clean = trim_end_matches_vec(&rv, ".git");
            let mut url = string_of("https://github.com/");
            push_str(&mut url, clean.as_str());
            return Some(url);
        },
        None => {},
    }
    if contains_str(raw, "github.com") {
        let v = chars_of(raw);
        let a = trim_end_matches_vec(&v, ".git");
        let av = chars_of(a.as_str());
        Some(trim_end_matches_vec(&av, "/"))
    } else {
        None
    }
}

/// The text a git command printed, trimmed; nothing when it printed nothing.
pub open spec fn output_text(stdout: Seq<char>) -> Option<Seq<char>> {
    if trim(stdout).len() == 0 {
        None
    } else {
        Some(trim(stdout))
    }
}

/// The trimmed output of a command, or `None` when it is blank.
pub fn command_text(stdout: &str) -> (r: Option<String>)
    ensures
        opt_view(r) == output_text(stdout@),
{
    let t = trim_str(stdout);
    if t.as_str().is_empty() {
        None
    } else {
        Some(t)
    }
}

/// The link to a commit on GitHub.
pub open spec fn commit_url_of(base: Option<Seq<char>>, hash: Option<Seq<char>>) -> Option<Seq<char>> {
    match (base, hash) {
        (Some(b), Some(h)) => Some(b + "/commit/"@ + h),
        _ => None,
    }
}

/// Gathers what git printed into the details of the last commit: a blank
/// body counts as none, and the commit link needs both a GitHub remote and
/// a hash.
pub fn git_info(
    commit_hash: Option<String>,
    commit_subject: Option<String>,
    commit_body: Option<String>,
    branch: Option<String>,
    diff_stat: Option<String>,
    remote: Option<String>,
    pr_url: Option<String>,
) -> (r: GitInfo)
    ensures
        opt_view(r.commit_hash) == opt_view(commit_hash),
        r.commit_subject@ == match commit_subject {
            Some(s) => s@,
            None => Seq::<char>::empty(),
        },
        opt_view(r.commit_body) == match commit_body {
            Some(b) => if trim(b@).len() == 0 {
                None
            } else {
                Some(b@)
            },
            None => None,
        },
        opt_view(r.branch) == opt_view(branch),
        opt_view(r.diff_stat) == opt_view(diff_stat),
        opt_view(r.github_commit_url) == commit_url_of(
            match remote {
                Some(raw) => github_url_of(raw@),
                None => None,
            },
            opt_view(commit_hash),
        ),
        opt_view(r.pr_url) == opt_view(pr_url),
{
    let subject = match commit_subject {
        Some(s) => s,
        None => String::new(),
    };
    let body = match commit_body {
        Some(b) => if trim_str(b.as_str()).as_str().is_empty() {
            None
        } else {
            Some(b)
        },
        None => None,
    };
    let base = match &remote {
        Some(raw) => github_repo_url(Some(raw.as_str())),
        None => None,
    };
    let url = match (&base, &commit_hash) {
        (Some(b), Some(h)) => {
            let mut u = b.clone();
            push_str(&mut u, "/commit/");
            push_str(&mut u, h.as_str());
            Some(u)
        },
        _ => None,
    };
    GitInfo {
        commit_hash,
        commit_subject: subject,
        commit_body: body,
        branch,
        diff_stat,
        github_commit_url: url,
        pr_url,
    }
}


// ---------------------------------------------------------------------
// Note content
// ---------------------------------------------------------------------

/// Front matter and title.
pub open spec fn note_header(project: Seq<char>, date: Seq<char>, ticket: Seq<char>) -> Seq<char> {
    "---\ndate: "@ + date + "\nproject: "@ + project + "\nticket: "@ + ticket
        + "\ntype: ship-note\ntags: [project-log, ship]\n---\n\n# "@ + project + " \u{2014} "@ + date
        + "\n\n"@
}

/// The commit subject and body, when there is a subject.
pub open spec fn changes_section(info: GitInfo) -> Seq<char> {
    if info.commit_subject@.len() == 0 {
        Seq::empty()
    } else {
        "## Changes\n"@ + info.commit_subject@ + "\n\n"@ + match info.commit_body {
            Some(b) => b@ + "\n\n"@,
            None => Seq::empty(),
        }
    }
}

/// Each line followed by a line break.
pub open spec fn line_block(ls: Seq<Seq<char>>) -> Seq<char>
    decreases ls.len(),
{
    if ls.len() == 0 {
        Seq::empty()
    } else {
        line_block(ls.drop_last()) + ls.last() + "\n"@
    }
}

/// The first 20 lines of the diff summary, in a code block.
pub open spec fn files_section(info: GitInfo) -> Seq<char> {
    match info.diff_stat {
        Some(st) => if st@.len() == 0 {
            Seq::empty()
        } else {
            "## Files changed\n```\n"@ + line_block(
                lines(st@).take(if lines(st@).len() < 20 { lines(st@).len() as int } else { 20 }),
            ) + "```\n\n"@
        },
        None => Seq::empty(),
    }
}

/// The learnings section, present exactly when a message was given; it
/// closes the note, after a blank line.
pub open spec fn learnings_section(message: Option<Seq<char>>) -> Seq<char> {
    match message {
        Some(m) => "\n## Learnings\n"@ + m + "\n"@,
        None => Seq::empty(),
    }
}

/// The commit line of the related section.
pub open spec fn commit_line(info: GitInfo) -> Seq<char> {
    match info.commit_hash {
        Some(h) => match info.github_commit_url {
            Some(u) => "- Commit: "@ + h@ + " \u{2014} "@ + u@ + "\n"@,
            None => "- Commit: "@ + h@ + "\n"@,
        },
        None => Seq::empty(),
    }
}

/// The branch line of the related section.
pub open spec fn branch_line(info: GitInfo) -> Seq<char> {
    match info.branch {
        Some(b) => "- Branch: "@ + b@ + "\n"@,
        None => Seq::empty(),
    }
}

/// The PR line of the related section.
pub open spec fn pr_line(info: GitInfo) -> Seq<char> {
    match info.pr_url {
        Some(p) => "- PR: "@ + p@ + "\n"@,
        None => Seq::empty(),
    }
}

/// Links to the commit, the branch and the PR, as far as they are known.
pub open spec fn related_section(info: GitInfo) -> Seq<char> {
    "## Related\n"@ + commit_line(info) + branch_line(info) + pr_line(info)
}

/// A whole note.
pub open spec fn note_text(
    project: Seq<char>,
    date: Seq<char>,
    ticket: Option<Seq<char>>,
    message: Option<Seq<char>>,
    info: GitInfo,
) -> Seq<char> {
    note_header(
        project,
        date,
        match ticket {
            Some(t) => t,
            None => Seq::empty(),
        },
    ) + changes_section(info) + files_section(info) + related_section(info) + learnings_section(
        message,
    )
}

fn push_lines_block(out: &mut String, stat: &str)
    ensures
        final(out)@ == old(out)@ + line_block(
            lines(stat@).take(if lines(stat@).len() < 20 { lines(stat@).len() as int } else { 20 }),
        ),
{
    let ls = lines_of(stat);
    let ghost lv = views(ls@);
    let n = if ls.len() < 20 {
        ls.len()
    } else {
        20
    };
    let ghost o0 = out@;
    let mut i: usize = 0;
    proof {
        assert(lv.take(0) =~= Seq::<Seq<char>>::empty());
        assert(o0 + line_block(lv.take(0)) =~= o0);
    }
    while i < n
        invariant
            i <= n <= ls.len(),
            lv == views(ls@),
            lv == lines(stat@),
            n == if lv.len() < 20 { lv.len() as int } else { 20 },
            out@ == o0 + line_block(lv.take(i as int)),
        decreases n - i,
    {
        proof {
            assert(lv.take(i + 1).drop_last() =~= lv.take(i as int));
            assert(lv.take(i + 1).last() == ls@[i as int]@);
        }
        push_str(out, ls[i].as_str());
        push_str(out, "\n");
        proof {
            assert(out@ =~= o0 + line_block(lv.take(i + 1)));
        }
        i = i + 1;
    }
}

fn push_header(out: &mut String, project: &str, date: &str, ticket: &str)
    ensures
        final(out)@ == old(out)@ + note_header(project@, date@, ticket@),
{
    let ghost o0 = out@;
    push_str(out, "---\ndate: ");
    push_str(out, date);
    push_str(out, "\nproject: ");
    push_str(out, project);
    push_str(out, "\nticket: ");
    push_str(out, ticket);
    push_str(out, "\ntype: ship-note\ntags: [project-log, ship]\n---\n\n# ");
    push_str(out, project);
    push_str(out, " \u{2014} ");
    push_str(out, date);
    push_str(out, "\n\n");
    proof {
        assert(out@ =~= o0 + note_header(project@, date@, ticket@));
    }
}

fn push_changes(out: &mut String, info: &GitInfo)
    ensures
        final(out)@ == old(out)@ + changes_section(*info),
{
    let ghost o0 = out@;
    if !info.commit_subject.as_str().is_empty() {
        push_str(out, "## Changes\n");
        push_str(out, info.commit_subject.as_str());
        push_str(out, "\n\n");
        match &info.commit_body {
            Some(body) => {
                push_str(out, body.as_str());
                push_str(out, "\n\n");
            },
            None => {},
        }
    }
    proof {
        assert(out@ =~= o0 + changes_section(*info));
    }
}

fn push_files(out: &mut String, info: &GitInfo)
    ensures
        final(out)@ == old(out)@ + files_section(*info),
{
    let ghost o0 = out@;
    match &info.diff_stat {
        Some(stat) => {
            if !stat.as_str().is_empty() {
                push_str(out, "## Files changed\n```\n");
                push_lines_block(out, stat.as_str());
                push_str(out, "```\n\n");
            }
        },
        None => {},
    }
    proof {
        assert(out@ =~= o0 + files_section(*info));
    }
}

fn push_learnings(out: &mut String, message: Option<&str>)
    ensures
        final(out)@ == old(out)@ + learnings_section(
            match message {
                Some(m) => Some(m@),
                None => None,
            },
        ),
{
    let ghost o0 = out@;
    match message {
        Some(msg) => {
            push_str(out, "\n## Learnings\n");
            push_str(out, msg);
            push_str(out, "\n");
        },
        None => {},
    }
    proof {
        assert(out@ =~= o0 + learnings_section(
            match message {
                Some(m) => Some(m@),
                None => None,
            },
        ));
    }
}

fn push_commit_line(out: &mut String, info: &GitInfo)
    ensures
        final(out)@ == old(out)@ + commit_line(*info),
{
    let ghost o0 = out@;
    match &info.commit_hash {
        Some(hash) => {
            push_str(out, "- Commit: ");
            push_str(out, hash.as_str());
            match &info.github_commit_url {
                Some(url) => {
                    push_str(out, " \u{2014} ");
                    push_str(out, url.as_str());
                },
                None => {},
            }
            push_str(out, "\n");
        },
        None => {},
    }
    proof {
        assert(out@ =~= o0 + commit_line(*info));
    }
}

fn push_branch_line(out: &mut String, info: &GitInfo)
    ensures
        final(out)@ == old(out)@ + branch_line(*info),
{
    let ghost o0 = out@;
    match &info.branch {
        Some(branch) => {
            push_str(out, "- Branch: ");
            push_str(out, branch.as_str());
            push_str(out, "\n");
        },
        None => {},
    }
    proof {
        assert(out@ =~= o0 + branch_line(*info));
    }
}

fn push_pr_line(out: &mut String, info: &GitInfo)
    ensures
        final(out)@ == old(out)@ + pr_line(*info),
{
    let ghost o0 = out@;
    match &info.pr_url {
        Some(pr) => {
            push_str(out, "- PR: ");
            push_str(out, pr.as_str());
            push_str(out, "\n");
        },
        None => {},
    }
    proof {
        assert(out@ =~= o0 + pr_line(*info));
    }
}

fn push_related(out: &mut String, info: &GitInfo)
    ensures
        final(out)@ == old(out)@ + related_section(*info),
{
    let ghost o0 = out@;
    push_str(out, "## Related\n");
    push_commit_line(out, info);
    push_branch_line(out, info);
    push_pr_line(out, info);
    proof {
        assert(out@ =~= o0 + related_section(*info));
    }
}

/// The markdown of a ship note.
pub fn build_content(
    project: &str,
    date: &str,
    ticket: Option<&str>,
    message: Option<&str>,
    info: &GitInfo,
) -> (r: String)
    ensures
        r@ == note_text(
            project@,
            date@,
            match ticket {
                Some(t) => Some(t@),
                None => None,
            },
            match message {
                Some(m) => Some(m@),
                None => None,
            },
            *info,
        ),
{
    let ticket_line = match ticket {
        Some(t) => t,
        None => "",
    };
    proof {
        reveal_strlit("");
    }
    let mut out = String::new();
    push_header(&mut out, project, date, ticket_line);
    push_changes(&mut out, info);
    push_files(&mut out, info);
    push_related(&mut out, info);
    push_learnings(&mut out, message);
    proof {
        assert(out@ =~= note_text(
            project@,
            date@,
            match ticket {
                Some(t) => Some(t@),
                None => None,
            },
            match message {
                Some(m) => Some(m@),
                None => None,
            },
            *info,
        ));
    }
    out
}

/// A note with a message is the note without it, followed by a blank line
/// and the message under a "Learnings" heading: the section comes last,
/// after the related links.
pub proof fn law_message_becomes_learnings(
    project: Seq<char>,
    date: Seq<char>,
    ticket: Option<Seq<char>>,
    m: Seq<char>,
    info: GitInfo,
)
    ensures
        note_text(project, date, ticket, Some(m), info) == note_text(project, date, ticket, None, info)
            + "\n## Learnings\n"@ + m + "\n"@,
        contains_seq(note_text(project, date, ticket, Some(m), info), "## Learnings\n"@ + m),
{
    let t = match ticket {
        Some(t) => t,
        None => Seq::<char>::empty(),
    };
    let pre = note_header(project, date, t) + changes_section(info) + files_section(info)
        + related_section(info) + "\n"@;
    let text = note_text(project, date, ticket, Some(m), info);
    let needle = "## Learnings\n"@ + m;
    reveal_strlit("\n## Learnings\n");
    reveal_strlit("## Learnings\n");
    reveal_strlit("\n");
    assert(note_text(project, date, ticket, None, info) =~= note_header(project, date, t)
        + changes_section(info) + files_section(info) + related_section(info));
    assert(text =~= pre + needle + "\n"@);
    assert(text.subrange(pre.len() as int, pre.len() + needle.len() as int) =~= needle);
    assert(crate::text::occurs_at(text, needle, pre.len() as int));
}

/// Without a message the note has no learnings section: it is exactly the
/// header, changes, files and related sections.
pub proof fn law_no_message_no_learnings(
    project: Seq<char>,
    date: Seq<char>,
    ticket: Option<Seq<char>>,
    info: GitInfo,
)
    ensures
        note_text(project, date, ticket, None, info) == note_header(
            project,
            date,
            match ticket {
                Some(t) => t,
                None => Seq::empty(),
            },
        ) + changes_section(info) + files_section(info) + related_section(info),
{
    let t = match ticket {
        Some(t) => t,
        None => Seq::<char>::empty(),
    };
    assert(note_text(project, date, ticket, None, info) =~= note_header(project, date, t)
        + changes_section(info) + files_section(info) + related_section(info));
}


// ---------------------------------------------------------------------
// Where a note goes
// ---------------------------------------------------------------------


/// The project of a note: the argument, else the configured slug, else the
/// working directory's name, else `"unknown"`.
pub open spec fn project_choice(
    arg: Option<Seq<char>>,
    configured: Option<Seq<char>>,
    cwd_name: Option<Seq<char>>,
) -> Seq<char> {
    match arg {
        Some(a) => a,
        None => match configured {
            Some(c) => c,
            None => match cwd_name {
                Some(d) => d,
                None => "unknown"@,
            },
        },
    }
}

/// The project slug of a note.
pub fn resolve_project(config: &ObsidianConfig, arg: Option<&str>, cwd_name: Option<&str>) -> (r:
    String)
    ensures
        r@ == project_choice(str_opt(arg), opt_view(config.project_slug), str_opt(cwd_name)),
{
    match arg {
        Some(a) => string_of(a),
        None => match &config.project_slug {
            Some(c) => c.clone(),
            None => match cwd_name {
                Some(d) => string_of(d),
                None => string_of("unknown"),
            },
        },
    }
}

/// The vault of a note: the argument, else `$OBSIDIAN_VAULT_PATH`, else the
/// configured vault, else `~/VibeNotes`; `~/` is expanded.
pub open spec fn vault_choice(
    arg: Option<Seq<char>>,
    env_vault: Option<Seq<char>>,
    configured: Option<Seq<char>>,
    home: Option<Seq<char>>,
) -> Seq<char> {
    let raw = match arg {
        Some(a) => a,
        None => match env_vault {
            Some(e) => e,
            None => match configured {
                Some(c) => c,
                None => "~/VibeNotes"@,
            },
        },
    };
    expand_home(raw, home)
}

/// The vault path to use, before checking it on disk.
pub fn vault_candidate(
    config: &ObsidianConfig,
    arg: Option<&str>,
    env_vault: Option<&str>,
    home: Option<&str>,
) -> (r: String)
    ensures
        r@ == vault_choice(str_opt(arg), str_opt(env_vault), opt_view(config.vault_path), str_opt(home)),
{
    let raw = match arg {
        Some(a) => string_of(a),
        None => match env_vault {
            Some(e) => string_of(e),
            None => match &config.vault_path {
                Some(c) => c.clone(),
                None => string_of("~/VibeNotes"),
            },
        },
    };
    shellexpand_with_home(raw.as_str(), home)
}

/// What the file system says about a path.
#[derive(Debug, Clone, Copy)]
pub struct PathStatus {
    pub exists: bool,
    pub is_dir: bool,
}

/// A vault is usable when it exists and is a directory.
pub open spec fn vault_verdict(path: Seq<char>, st: PathStatus) -> Result<Seq<char>, Seq<char>> {
    if !st.exists {
        Err("vault path does not exist: "@ + path)
    } else if !st.is_dir {
        Err("vault path is not a directory: "@ + path)
    } else {
        Ok(path)
    }
}

pub open spec fn result_view(r: Result<String, String>) -> Result<Seq<char>, Seq<char>> {
    match r {
        Ok(s) => Ok(s@),
        Err(e) => Err(e@),
    }
}

/// The vault directory, or why it cannot be used; `status` is what the file
/// system says about the candidate path.
pub fn resolve_vault(
    config: &ObsidianConfig,
    arg: Option<&str>,
    env_vault: Option<&str>,
    home: Option<&str>,
    status: PathStatus,
) -> (r: Result<String, String>)
    ensures
        result_view(r) == vault_verdict(
            vault_choice(str_opt(arg), str_opt(env_vault), opt_view(config.vault_path), str_opt(home)),
            status,
        ),
{
    let path = vault_candidate(config, arg, env_vault, home);
    if !status.exists {
        let mut m = string_of("vault path does not exist: ");
        push_str(&mut m, path.as_str());
        Err(m)
    } else if !status.is_dir {
        let mut m = string_of("vault path is not a directory: ");
        push_str(&mut m, path.as_str());
        Err(m)
    } else {
        Ok(path)
    }
}

/// `<vault>/10_Projects/<project>/logs`.
pub open spec fn logs_dir_of(vault: Seq<char>, project: Seq<char>) -> Seq<char> {
    path_join(path_join(path_join(vault, "10_Projects"@), project), "logs"@)
}

fn logs_dir(vault: &str, project: &str) -> (r: String)
    ensures
        r@ == logs_dir_of(vault@, project@),
{
    let a = join_path(vault, "10_Projects");
    let b = join_path(a.as_str(), project);
    join_path(b.as_str(), "logs")
}

// ---------------------------------------------------------------------
// File names
// ---------------------------------------------------------------------

/// A lowercase hexadecimal digit, for `d < 16`.
pub open spec fn hex_digit(d: nat) -> char {
    if d < 10 {
        ((48 + d) as u32) as char
    } else {
        ((87 + d) as u32) as char
    }
}

/// Four lowercase hexadecimal digits of `v` (`{:04x}` for `v < 0x10000`).
pub open spec fn hex4(v: nat) -> Seq<char> {
    seq![
        hex_digit((v / 4096) % 16),
        hex_digit((v / 256) % 16),
        hex_digit((v / 16) % 16),
        hex_digit(v % 16),
    ]
}

fn hex_char(d: u32) -> (c: char)
    requires
        d < 16,
    ensures
        c == hex_digit(d as nat),
{
    let b: u8 = if d < 10 {
        48u8 + (d as u8)
    } else {
        87u8 + (d as u8)
    };
    let c = b as char;
    proof {
        assert((c as u32) == b);
    }
    c
}

#[verifier::external_type_specification]
#[verifier::external_body]
pub struct ExSystemTime(SystemTime);

/// std `SystemTime::now`: the clock's current time; nothing is claimed of it.
#[verifier::external_body]
fn system_time_now() -> SystemTime {
    SystemTime::now()
}

/// std `SystemTime::duration_since(UNIX_EPOCH)`, `None` for a time before
/// the epoch; nothing is claimed of the duration.
#[verifier::external_body]
fn since_unix_epoch(t: &SystemTime) -> Option<Duration> {
    t.duration_since(std::time::UNIX_EPOCH).ok()
}

/// std `Duration::subsec_nanos`: the fractional part of a second, in
/// nanoseconds, which the documentation bounds below one billion.
#[verifier::external_body]
fn subsec_nanos(d: &Duration) -> (n: u32)
    ensures
        n < 1_000_000_000,
{
    d.subsec_nanos()
}

/// The four lowercase hexadecimal digits of the low 16 bits of `nanos`
/// (`format!("{:04x}", nanos & 0xFFFF)`).
pub open spec fn nanos_hex(nanos: u32) -> Seq<char> {
    hex4((nanos % 0x10000) as nat)
}

pub fn hex4_of_nanos(nanos: u32) -> (r: String)
    ensures
        r@ == nanos_hex(nanos),
{
    let v = nanos % 65536;
    let mut r = String::new();
    crate::text::push_char(&mut r, hex_char((v / 4096) % 16));
    crate::text::push_char(&mut r, hex_char((v / 256) % 16));
    crate::text::push_char(&mut r, hex_char((v / 16) % 16));
    crate::text::push_char(&mut r, hex_char(v % 16));
    proof {
        assert(r@ =~= hex4(v as nat));
    }
    r
}

/// Four hexadecimal digits from the clock's nanoseconds (0 before the
/// epoch), for unique file names. Which reading the clock gives is not
/// known; the digits are those of `hex4_of_nanos` on it.
pub fn rand_hex4() -> (r: String)
    ensures
        exists|n: u32| n < 1_000_000_000 && r@ == #[trigger] nanos_hex(n),
{
    let now = system_time_now();
    let nanos: u32 = match since_unix_epoch(&now) {
        Some(d) => subsec_nanos(&d),
        None => 0,
    };
    hex4_of_nanos(nanos)
}

/// `<today>-<slug>.md`.
pub open spec fn note_file_name(today: Seq<char>, slug: Seq<char>) -> Seq<char> {
    today + "-"@ + slug + ".md"@
}

/// `<today>-<slug>-<suffix>.md`.
pub open spec fn note_alt_name(today: Seq<char>, slug: Seq<char>, suffix: Seq<char>) -> Seq<char> {
    today + "-"@ + slug + "-"@ + suffix + ".md"@
}

/// The note's file in the logs directory: `<today>-<slug>.md`, or
/// `<today>-<slug>-<suffix>.md` when a suffix is given.
pub fn note_path(logs_dir: &str, today: &str, slug: &str, suffix: Option<&str>) -> (r: String)
    ensures
        r@ == path_join(
            logs_dir@,
            match suffix {
                None => note_file_name(today@, slug@),
                Some(x) => note_alt_name(today@, slug@, x@),
            },
        ),
{
    let mut name = string_of(today);
    push_str(&mut name, "-");
    push_str(&mut name, slug);
    match suffix {
        Some(x) => {
            push_str(&mut name, "-");
            push_str(&mut name, x);
            push_str(&mut name, ".md");
            proof {
                assert(name@ =~= note_alt_name(today@, slug@, x@));
            }
        },
        None => {
            push_str(&mut name, ".md");
            proof {
                assert(name@ =~= note_file_name(today@, slug@));
            }
        },
    }
    join_path(logs_dir, name.as_str())
}

/// The note's file: `<today>-<slug>.md` in the logs directory, or, when
/// that file exists already, the same name with four hexadecimal digits
/// from the clock appended.
pub fn pick_filename(logs_dir: &str, today: &str, slug: &str, taken: bool) -> (r: String)
    ensures
        !taken ==> r@ == path_join(logs_dir@, note_file_name(today@, slug@)),
        taken ==> exists|v: nat|
            v < 0x10000 && r@ == path_join(logs_dir@, note_alt_name(today@, slug@, hex4(v))),
{
    if taken {
        let suffix = rand_hex4();
        let r = note_path(logs_dir, today, slug, Some(suffix.as_str()));
        proof {
            let n = choose|n: u32| n < 1_000_000_000 && suffix@ == #[trigger] nanos_hex(n);
            assert(((n % 0x10000) as nat) < 0x10000);
        }
        r
    } else {
        note_path(logs_dir, today, slug, None)
    }
}


// ---------------------------------------------------------------------
// Writing a note, step by step
// ---------------------------------------------------------------------

/// Facts about the process environment that a note depends on.
#[derive(Debug, Clone, Default)]
pub struct NoteEnv {
    /// Name of the working directory.
    pub cwd_name: Option<String>,
    /// `$OBSIDIAN_VAULT_PATH`.
    pub env_vault: Option<String>,
    /// The home directory (`$HOME`, else `$USERPROFILE`).
    pub home: Option<String>,
}

/// What the driver has found out so far, one answer per question asked.
#[derive(Debug, Default)]
pub struct NoteProgress {
    /// The vault path's status.
    pub vault: Option<PathStatus>,
    /// Creating the logs directory: done, or the error.
    pub logs_dir: Option<Result<(), String>>,
    /// Details of the last commit.
    pub git: Option<GitInfo>,
    /// Today's date, `YYYY-MM-DD`.
    pub today: Option<String>,
    /// Whether `<today>-<slug>.md` exists already.
    pub target_taken: Option<bool>,
    /// The file written and how the write went.
    pub written: Option<(String, Result<(), String>)>,
}

/// The next thing the driver of a note export does.
#[derive(Debug)]
pub enum NoteStep {
    /// Report whether this path exists and is a directory.
    CheckVault(String),
    /// Create this directory and its parents.
    CreateDir(String),
    /// Collect the git details of the last commit and today's date.
    CollectGit,
    /// Report whether this file exists.
    CheckTarget(String),
    /// Write this content to this file, atomically.
    Write(String, String),
    /// The export is over.
    Done(NoteOutcome),
}

pub open spec fn note_project(c: ObsidianConfig, o: NoteOptions, e: NoteEnv) -> Seq<char> {
    project_choice(opt_view(o.project), opt_view(c.project_slug), opt_view(e.cwd_name))
}

pub open spec fn note_vault(c: ObsidianConfig, o: NoteOptions, e: NoteEnv) -> Seq<char> {
    vault_choice(opt_view(o.vault_path), opt_view(e.env_vault), opt_view(c.vault_path), opt_view(e.home))
}

pub open spec fn note_logs_dir(c: ObsidianConfig, o: NoteOptions, e: NoteEnv) -> Seq<char> {
    logs_dir_of(note_vault(c, o, e), note_project(c, o, e))
}

/// The slug of a commit subject, `"note"` when the subject has none.
pub open spec fn note_slug(subject: Seq<char>) -> Seq<char> {
    if slug_of(subject).len() == 0 {
        "note"@
    } else {
        slug_of(subject)
    }
}

pub open spec fn is_skipped(r: NoteStep, m: Seq<char>) -> bool {
    r matches NoteStep::Done(NoteOutcome::Skipped(s)) && s@ == m
}

/// The export decides, in this order: check the vault, create the logs
/// directory, collect git details, check the file name, write, report.
/// Every failure on the vault side ends in `Skipped`, never in an error.
pub open spec fn note_step_spec(
    c: ObsidianConfig,
    o: NoteOptions,
    e: NoteEnv,
    p: NoteProgress,
    r: NoteStep,
) -> bool {
    let vault = note_vault(c, o, e);
    let dir = note_logs_dir(c, o, e);
    match p.vault {
        None => r matches NoteStep::CheckVault(v) && v@ == vault,
        Some(st) => match vault_verdict(vault, st) {
            Err(m) => is_skipped(r, m),
            Ok(_) => match p.logs_dir {
                None => r matches NoteStep::CreateDir(d) && d@ == dir,
                Some(Err(err)) => is_skipped(r, "cannot create "@ + dir + ": "@ + err@),
                Some(Ok(())) => match (p.git, p.today) {
                    (Some(info), Some(today)) => {
                        let slug = note_slug(info.commit_subject@);
                        match p.target_taken {
                            None => r matches NoteStep::CheckTarget(t) && t@ == path_join(
                                dir,
                                note_file_name(today@, slug),
                            ),
                            Some(taken) => match p.written {
                                None => r matches NoteStep::Write(path, content) && content@
                                    == note_text(
                                    note_project(c, o, e),
                                    today@,
                                    opt_view(o.ticket),
                                    opt_view(o.message),
                                    info,
                                ) && (!taken ==> path@ == path_join(
                                    dir,
                                    note_file_name(today@, slug),
                                )) && (taken ==> exists|v: nat|
                                    v < 0x10000 && path@ == path_join(
                                        dir,
                                        note_alt_name(today@, slug, hex4(v)),
                                    )),
                                Some((path, Err(err))) => is_skipped(r, "write failed: "@ + err@),
                                Some((path, Ok(()))) => r matches NoteStep::Done(
                                    NoteOutcome::Written(w),
                                ) && w@ == path@,
                            },
                        }
                    },
                    _ => r is CollectGit,
                },
            },
        },
    }
}

fn opt_str(o: &Option<String>) -> (r: Option<&str>)
    ensures
        str_opt(r) == opt_view(*o),
{
    match o {
        Some(s) => Some(s.as_str()),
        None => None,
    }
}

/// Decides the next step of a note export from what is known so far.
pub fn run(config: &ObsidianConfig, opts: &NoteOptions, env: &NoteEnv, progress: &NoteProgress) -> (r:
    NoteStep)
    ensures
        note_step_spec(*config, *opts, *env, *progress, r),
{
    let vault = vault_candidate(
        config,
        opt_str(&opts.vault_path),
        opt_str(&env.env_vault),
        opt_str(&env.home),
    );
    let status = match progress.vault {
        None => return NoteStep::CheckVault(vault),
        Some(st) => st,
    };
    let vault = match resolve_vault(
        config,
        opt_str(&opts.vault_path),
        opt_str(&env.env_vault),
        opt_str(&env.home),
        status,
    ) {
        Ok(v) => v,
        Err(m) => return NoteStep::Done(NoteOutcome::Skipped(m)),
    };
    let project = resolve_project(config, opt_str(&opts.project), opt_str(&env.cwd_name));
    let dir = logs_dir(vault.as_str(), project.as_str());
    match &progress.logs_dir {
        None => return NoteStep::CreateDir(dir),
        Some(Err(err)) => {
            let mut m = string_of("cannot create ");
            push_str(&mut m, dir.as_str());
            push_str(&mut m, ": ");
            push_str(&mut m, err.as_str());
            return NoteStep::Done(NoteOutcome::Skipped(m));
        },
        Some(Ok(())) => {},
    }
    let (info, today) = match (&progress.git, &progress.today) {
        (Some(info), Some(today)) => (info, today),
        _ => return NoteStep::CollectGit,
    };
    let s = slugify(info.commit_subject.as_str());
    let slug = if s.as_str().is_empty() {
        string_of("note")
    } else {
        s
    };
    let taken = match progress.target_taken {
        None => {
            return NoteStep::CheckTarget(pick_filename(dir.as_str(), today.as_str(), slug.as_str(), false));
        },
        Some(t) => t,
    };
    match &progress.written {
        None => {
            let target = pick_filename(dir.as_str(), today.as_str(), slug.as_str(), taken);
            let content = build_content(
                project.as_str(),
                today.as_str(),
                opt_str(&opts.ticket),
                opt_str(&opts.message),
                info,
            );
            NoteStep::Write(target, content)
        },
        Some((_, Err(err))) => {
            let mut m = string_of("write failed: ");
            push_str(&mut m, err.as_str());
            NoteStep::Done(NoteOutcome::Skipped(m))
        },
        Some((path, Ok(()))) => NoteStep::Done(NoteOutcome::Written(path.clone())),
    }
}


/// Notes only land in the project's logs directory of the vault, as
/// Markdown files named after the date.
pub proof fn law_note_lands_in_logs(
    c: ObsidianConfig,
    o: NoteOptions,
    e: NoteEnv,
    p: NoteProgress,
    r: NoteStep,
)
    requires
        note_step_spec(c, o, e, p, r),
        r is Write,
    ensures
        exists|name: Seq<char>|
            r->Write_0@ == path_join(note_logs_dir(c, o, e), name) && has_prefix(
                name,
                p.today->0@ + "-"@,
            ) && has_suffix(name, ".md"@),
{
    reveal_strlit(".md");
    reveal_strlit("-");
    let today = p.today->0@;
    let slug = note_slug(p.git->0.commit_subject@);
    let taken = p.target_taken->0;
    if !taken {
        let name = note_file_name(today, slug);
        assert(name.subrange(0, (today + "-"@).len() as int) =~= today + "-"@);
        assert(name.subrange(name.len() - 3, name.len() as int) =~= ".md"@);
        assert(has_prefix(name, today + "-"@));
        assert(has_suffix(name, ".md"@));
        assert(r->Write_0@ == path_join(note_logs_dir(c, o, e), name));
    } else {
        let v = choose|v: nat|
            v < 0x10000 && r->Write_0@ == path_join(
                note_logs_dir(c, o, e),
                note_alt_name(today, slug, hex4(v)),
            );
        let name = note_alt_name(today, slug, hex4(v));
        assert(name.subrange(0, (today + "-"@).len() as int) =~= today + "-"@);
        assert(name.subrange(name.len() - 3, name.len() as int) =~= ".md"@);
        assert(has_prefix(name, today + "-"@));
        assert(has_suffix(name, ".md"@));
    }
}

} // verus!
