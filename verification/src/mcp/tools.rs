//! The parameters of the MCP tools, and the text each tool answers with.

use vstd::prelude::*;
use crate::canary::{latency_suffix, latency_text, CanaryStatus, HealthCheck};
use crate::config::{opt_view, CanaryConfig};
use crate::learn::display::{tags_suffix, tags_text};
use crate::learn::store::Learning;
use crate::note::NoteOutcome;
use crate::pipeline::{PipelineOptions, StepResult, StepStatus};
use crate::text::{copy_strings, join_strings, join_with, push_str, string_of, views};

verus! {

/// Parameters of `ship_check`.
#[derive(Debug, Clone)]
pub struct CheckParams {
    /// Skip test step
    pub skip_tests: Option<bool>,
    /// Skip docs-gate step
    pub skip_docs_gate: Option<bool>,
}

/// Parameters of `ship_canary`.
#[derive(Debug, Clone)]
pub struct CanaryParams {
    /// Health check URL
    pub url: Option<String>,
    /// Timeout in seconds
    pub timeout_secs: Option<u64>,
}

/// Parameters of `ship_learn_add`.
#[derive(Debug, Clone)]
pub struct LearnAddParams {
    /// Learning message
    pub message: String,
    /// Tags for categorization
    pub tags: Vec<String>,
}

/// Parameters of `ship_learn_search`.
#[derive(Debug, Clone)]
pub struct LearnSearchParams {
    /// Search query
    pub query: String,
}

/// Parameters of `ship_note_export`.
#[derive(Debug, Clone)]
pub struct NoteExportParams {
    /// Project slug (overrides config, else cwd dirname)
    pub project_slug: Option<String>,
    /// Ticket ID for the note frontmatter
    pub ticket_id: Option<String>,
    /// Free-form learnings line; omitted if absent
    pub message: Option<String>,
    /// Vault path (overrides env OBSIDIAN_VAULT_PATH and config)
    pub vault_path: Option<String>,
}

/// The options of a check run asked for over MCP: a dry run without a PR,
/// skipping only what the caller asked to skip.
pub fn check_options(p: &CheckParams) -> (o: PipelineOptions)
    ensures
        o.dry_run,
        o.no_pr,
        !o.verbose,
        o.bump is None,
        o.skip_tests == (p.skip_tests == Some(true)),
        o.skip_docs_gate == (p.skip_docs_gate == Some(true)),
{
    PipelineOptions {
        dry_run: true,
        skip_tests: match p.skip_tests {
            Some(b) => b,
            None => false,
        },
        skip_docs_gate: match p.skip_docs_gate {
            Some(b) => b,
            None => false,
        },
        bump: None,
        no_pr: true,
        verbose: false,
    }
}

/// A copy of `c`, with each override that is given in place of its setting.
pub fn with_overrides(
    c: &CanaryConfig,
    url: Option<String>,
    docker: Option<String>,
    ssh: Option<String>,
    timeout_secs: Option<u64>,
) -> (r: CanaryConfig)
    ensures
        opt_view(r.url) == (if url is Some { opt_view(url) } else { opt_view(c.url) }),
        opt_view(r.docker_container) == (if docker is Some {
            opt_view(docker)
        } else {
            opt_view(c.docker_container)
        }),
        opt_view(r.ssh) == (if ssh is Some { opt_view(ssh) } else { opt_view(c.ssh) }),
        r.timeout_secs == (match timeout_secs {
            Some(t) => t,
            None => c.timeout_secs,
        }),
        views(r.checks@) == views(c.checks@),
{
    CanaryConfig {
        url: match url {
            Some(u) => Some(u),
            None => c.url.clone(),
        },
        docker_container: match docker {
            Some(d) => Some(d),
            None => c.docker_container.clone(),
        },
        ssh: match ssh {
            Some(s) => Some(s),
            None => c.ssh.clone(),
        },
        timeout_secs: match timeout_secs {
            Some(t) => t,
            None => c.timeout_secs,
        },
        checks: copy_strings(c.checks.as_slice()),
    }
}

/// `[PASS] name: detail` and the like, for one step.
pub open spec fn step_report_line(s: StepResult) -> Seq<char> {
    match s.status {
        StepStatus::Pass => "[PASS] "@ + s.name@ + ": "@ + match s.output {
            Some(o) => o@,
            None => "ok"@,
        },
        StepStatus::Fail(m) => "[FAIL] "@ + s.name@ + ": "@ + m@,
        StepStatus::Warn(m) => "[WARN] "@ + s.name@ + ": "@ + m@,
        StepStatus::Skip(m) => "[SKIP] "@ + s.name@ + ": "@ + m@,
    }
}

fn step_line(s: &StepResult) -> (r: String)
    ensures
        r@ == step_report_line(*s),
{
    let (tag, detail): (&str, &str) = match &s.status {
        StepStatus::Pass => (
            "[PASS] ",
            match &s.output {
                Some(o) => o.as_str(),
                None => "ok",
            },
        ),
        StepStatus::Fail(m) => ("[FAIL] ", m.as_str()),
        StepStatus::Warn(m) => ("[WARN] ", m.as_str()),
        StepStatus::Skip(m) => ("[SKIP] ", m.as_str()),
    };
    let mut r = string_of(tag);
    push_str(&mut r, s.name.as_str());
    push_str(&mut r, ": ");
    push_str(&mut r, detail);
    r
}

/// The answer of `ship_check`: one line per step.
pub fn check_report(steps: &Vec<StepResult>) -> (r: String)
    ensures
        r@ == join_with(steps@.map_values(|s: StepResult| step_report_line(s)), "\n"@),
{
    let mut ls: Vec<String> = Vec::new();
    let mut i: usize = 0;
    while i < steps.len()
        invariant
            i <= steps.len(),
            views(ls@) == steps@.take(i as int).map_values(|s: StepResult| step_report_line(s)),
        decreases steps.len() - i,
    {
        let ghost before = ls@;
        ls.push(step_line(&steps[i]));
        proof {
            assert(views(ls@) =~= views(before).push(step_report_line(steps@[i as int])));
            assert(steps@.take(i + 1).map_values(|s: StepResult| step_report_line(s)) =~= steps@.take(
                i as int,
            ).map_values(|s: StepResult| step_report_line(s)).push(step_report_line(steps@[i as int])));
        }
        i = i + 1;
    }
    proof {
        assert(steps@.take(i as int) =~= steps@);
    }
    join_strings(&ls, "\n")
}

/// `[HEALTHY] name (12ms)` and the like, for one check.
pub open spec fn check_report_line(h: HealthCheck) -> Seq<char> {
    "["@ + match h.status {
        CanaryStatus::Healthy => "HEALTHY"@,
        CanaryStatus::Degraded(_) => "DEGRADED"@,
        CanaryStatus::Down(_) => "DOWN"@,
    } + "] "@ + h.name@ + latency_suffix(h.latency_ms)
}

fn health_line(h: &HealthCheck) -> (r: String)
    ensures
        r@ == check_report_line(*h),
{
    let label = match &h.status {
        CanaryStatus::Healthy => "HEALTHY",
        CanaryStatus::Degraded(_) => "DEGRADED",
        CanaryStatus::Down(_) => "DOWN",
    };
    let mut r = string_of("[");
    push_str(&mut r, label);
    push_str(&mut r, "] ");
    push_str(&mut r, h.name.as_str());
    let lat = latency_text(h.latency_ms);
    push_str(&mut r, lat.as_str());
    r
}

/// The answer of `ship_canary`: one line per check.
pub fn canary_report(checks: &Vec<HealthCheck>) -> (r: String)
    ensures
        r@ == join_with(checks@.map_values(|h: HealthCheck| check_report_line(h)), "\n"@),
{
    let mut ls: Vec<String> = Vec::new();
    let mut i: usize = 0;
    while i < checks.len()
        invariant
            i <= checks.len(),
            views(ls@) == checks@.take(i as int).map_values(|h: HealthCheck| check_report_line(h)),
        decreases checks.len() - i,
    {
        let ghost before = ls@;
        ls.push(health_line(&checks[i]));
        proof {
            assert(views(ls@) =~= views(before).push(check_report_line(checks@[i as int])));
            assert(checks@.take(i + 1).map_values(|h: HealthCheck| check_report_line(h)) =~= checks@.take(
                i as int,
            ).map_values(|h: HealthCheck| check_report_line(h)).push(check_report_line(checks@[i as int])));
        }
        i = i + 1;
    }
    proof {
        assert(checks@.take(i as int) =~= checks@);
    }
    join_strings(&ls, "\n")
}

/// `• message [tags] (project)`, for one learning found.
pub open spec fn learning_report_line(l: Learning) -> Seq<char> {
    "\u{2022} "@ + l.message@ + tags_suffix(views(l.tags@)) + " ("@ + l.project@ + ")"@
}

fn learning_line(l: &Learning) -> (r: String)
    ensures
        r@ == learning_report_line(*l),
{
    let mut r = string_of("\u{2022} ");
    push_str(&mut r, l.message.as_str());
    let t = tags_text(l);
    push_str(&mut r, t.as_str());
    push_str(&mut r, " (");
    push_str(&mut r, l.project.as_str());
    push_str(&mut r, ")");
    r
}

/// The answer of `ship_learn_search`: the learnings found, one per line, or
/// a note that there are none.
pub fn learn_search_report(query: &str, found: &Vec<Learning>) -> (r: String)
    ensures
        found@.len() == 0 ==> r@ == "No learnings found for \""@ + query@ + "\""@,
        found@.len() > 0 ==> r@ == join_with(
            found@.map_values(|l: Learning| learning_report_line(l)),
            "\n"@,
        ),
{
    if found.len() == 0 {
        let mut r = string_of("No learnings found for \"");
        push_str(&mut r, query);
        push_str(&mut r, "\"");
        return r;
    }
    let mut ls: Vec<String> = Vec::new();
    let mut i: usize = 0;
    while i < found.len()
        invariant
            i <= found.len(),
            views(ls@) == found@.take(i as int).map_values(|l: Learning| learning_report_line(l)),
        decreases found.len() - i,
    {
        let ghost before = ls@;
        ls.push(learning_line(&found[i]));
        proof {
            assert(views(ls@) =~= views(before).push(learning_report_line(found@[i as int])));
            assert(found@.take(i + 1).map_values(|l: Learning| learning_report_line(l)) =~= found@.take(
                i as int,
            ).map_values(|l: Learning| learning_report_line(l)).push(learning_report_line(found@[i as int])));
        }
        i = i + 1;
    }
    proof {
        assert(found@.take(i as int) =~= found@);
    }
    join_strings(&ls, "\n")
}

/// The answer of `ship_learn_add` once the learning was saved.
pub fn learn_saved_report(message: &str) -> (r: String)
    ensures
        r@ == "Saved: "@ + message@,
{
    let mut r = string_of("Saved: ");
    push_str(&mut r, message);
    r
}

/// The answer of a tool whose work failed.
pub fn error_report(message: &str) -> (r: String)
    ensures
        r@ == "Error: "@ + message@,
{
    let mut r = string_of("Error: ");
    push_str(&mut r, message);
    r
}

/// The answer of `ship_note_export`.
pub fn note_export_report(o: &NoteOutcome) -> (r: String)
    ensures
        o matches NoteOutcome::Written(p) ==> r@ == "Written: "@ + p@,
        o matches NoteOutcome::Skipped(m) ==> r@ == "Skipped: "@ + m@,
{
    match o {
        NoteOutcome::Written(p) => {
            let mut r = string_of("Written: ");
            push_str(&mut r, p.as_str());
            r
        },
        NoteOutcome::Skipped(m) => {
            let mut r = string_of("Skipped: ");
            push_str(&mut r, m.as_str());
            r
        },
    }
}

} // verus!
