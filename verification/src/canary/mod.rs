//! Post-deploy health checks: their results, how a run is summed up, and
//! which probe each configured check calls for.

pub mod command;
pub mod docker;
pub mod http;

use vstd::prelude::*;
use std::time::Duration;
use crate::config::CanaryConfig;
use crate::text::{decimal, lines, lines_of, push_decimal, push_str, string_of, views};

verus! {

/// The verdict of one health check.
#[derive(Debug, Clone)]
pub enum CanaryStatus {
    Healthy,
    Degraded(String),
    Down(String),
}

/// The result of one health check.
#[derive(Debug, Clone)]
pub struct HealthCheck {
    pub name: String,
    pub status: CanaryStatus,
    pub latency_ms: Option<u64>,
    pub details: Option<String>,
}

/// All checks of a canary run and how long it took.
pub struct CanaryResult {
    pub checks: Vec<HealthCheck>,
    pub duration: Duration,
}

impl CanaryStatus {
    pub fn is_healthy(&self) -> (b: bool)
        ensures
            b == (*self is Healthy),
    {
        match self {
            CanaryStatus::Healthy => true,
            _ => false,
        }
    }
}

pub open spec fn all_healthy_in(s: Seq<HealthCheck>) -> bool {
    forall|i: int| 0 <= i < s.len() ==> (#[trigger] s[i]).status is Healthy
}

pub open spec fn any_down_in(s: Seq<HealthCheck>) -> bool {
    exists|i: int| 0 <= i < s.len() && (#[trigger] s[i]).status is Down
}

/// Number of checks that are down.
pub open spec fn count_down(s: Seq<HealthCheck>) -> nat
    decreases s.len(),
{
    if s.len() == 0 {
        0
    } else {
        count_down(s.drop_last()) + if s.last().status is Down { 1nat } else { 0nat }
    }
}

impl CanaryResult {
    pub fn all_healthy(&self) -> (b: bool)
        ensures
            b == all_healthy_in(self.checks@),
    {
        let mut i: usize = 0;
        while i < self.checks.len()
            invariant
                i <= self.checks.len(),
                forall|k: int| 0 <= k < i ==> (#[trigger] self.checks@[k]).status is Healthy,
            decreases self.checks.len() - i,
        {
            if !self.checks[i].status.is_healthy() {
                return false;
            }
            i = i + 1;
        }
        true
    }

    pub fn any_down(&self) -> (b: bool)
        ensures
            b == any_down_in(self.checks@),
    {
        let mut i: usize = 0;
        while i < self.checks.len()
            invariant
                i <= self.checks.len(),
                forall|k: int| 0 <= k < i ==> !((#[trigger] self.checks@[k]).status is Down),
            decreases self.checks.len() - i,
        {
            if let CanaryStatus::Down(_) = self.checks[i].status {
                return true;
            }
            i = i + 1;
        }
        false
    }

    /// Number of checks that are down.
    pub fn down_count(&self) -> (n: usize)
        ensures
            n as nat == count_down(self.checks@),
    {
        let mut n: usize = 0;
        let mut i: usize = 0;
        while i < self.checks.len()
            invariant
                i <= self.checks.len(),
                n <= i,
                n as nat == count_down(self.checks@.take(i as int)),
            decreases self.checks.len() - i,
        {
            proof {
                assert(self.checks@.take(i + 1).drop_last() =~= self.checks@.take(i as int));
            }
            if let CanaryStatus::Down(_) = self.checks[i].status {
                n = n + 1;
            }
            i = i + 1;
        }
        proof {
            assert(self.checks@.take(i as int) =~= self.checks@);
        }
        n
    }
}

proof fn lemma_count_down(s: Seq<HealthCheck>)
    ensures
        count_down(s) > 0 <==> any_down_in(s),
        count_down(s) <= s.len(),
    decreases s.len(),
{
    if s.len() > 0 {
        let p = s.drop_last();
        lemma_count_down(p);
        if any_down_in(p) {
            let i = choose|i: int| 0 <= i < p.len() && (#[trigger] p[i]).status is Down;
            assert(s[i] == p[i]);
        }
        if any_down_in(s) && !(s.last().status is Down) {
            let i = choose|i: int| 0 <= i < s.len() && (#[trigger] s[i]).status is Down;
            assert(p[i] == s[i]);
        }
        if s.last().status is Down {
            assert(s[s.len() - 1].status is Down);
        }
    }
}

/// A run whose checks are all healthy has none down, and the down count is
/// positive exactly when some check is down.
pub proof fn law_healthy_means_none_down(r: CanaryResult)
    ensures
        all_healthy_in(r.checks@) ==> !any_down_in(r.checks@),
        count_down(r.checks@) > 0 <==> any_down_in(r.checks@),
        count_down(r.checks@) <= r.checks@.len(),
{
    lemma_count_down(r.checks@);
    if all_healthy_in(r.checks@) && any_down_in(r.checks@) {
        let i = choose|i: int| 0 <= i < r.checks@.len() && (#[trigger] r.checks@[i]).status is Down;
        assert(r.checks@[i].status is Healthy);
    }
}

/// `h` is a check that could not be run: down with `msg`, no latency, no details.
pub open spec fn is_down_check(h: HealthCheck, name: Seq<char>, msg: Seq<char>) -> bool {
    &&& h.name@ == name
    &&& h.status matches CanaryStatus::Down(m) && m@ == msg
    &&& h.latency_ms is None
    &&& h.details is None
}

fn down_check(name: String, msg: String) -> (h: HealthCheck)
    ensures
        is_down_check(h, name@, msg@),
{
    HealthCheck { name, status: CanaryStatus::Down(msg), latency_ms: None, details: None }
}

/// The probe a configured check calls for.
pub enum CheckPlan {
    /// Probe this URL over HTTP with this timeout (seconds).
    Http { url: String, timeout_secs: u64 },
    /// Ask the Docker daemon behind this SSH target about this container.
    Docker { container: String, ssh: String },
    /// Nothing to probe: this is the check's result.
    Done(HealthCheck),
}

/// What a check of type `check_type` calls for under `config`.
pub open spec fn check_plan_ok(p: CheckPlan, config: CanaryConfig, check_type: Seq<char>) -> bool {
    if check_type == "http"@ {
        match config.url {
            Some(u) => p matches CheckPlan::Http { url, timeout_secs } && url@ == u@
                && timeout_secs == config.timeout_secs,
            None => p matches CheckPlan::Done(h) && is_down_check(h, "HTTP"@, "no URL configured"@),
        }
    } else if check_type == "docker"@ {
        if config.docker_container is Some && config.ssh is Some {
            p matches CheckPlan::Docker { container, ssh } && container@
                == config.docker_container->0@ && ssh@ == config.ssh->0@
        } else {
            p matches CheckPlan::Done(h) && is_down_check(
                h,
                "Docker"@,
                "docker_container or ssh not configured"@,
            )
        }
    } else {
        p matches CheckPlan::Done(h) && is_down_check(
            h,
            check_type,
            "unknown check type: "@ + check_type,
        )
    }
}

/// Decides how to run one configured check.
pub fn plan_check(config: &CanaryConfig, check_type: &str) -> (p: CheckPlan)
    ensures
        check_plan_ok(p, *config, check_type@),
{
    let v = crate::text::chars_of(check_type);
    if crate::text::eq_text(&v, "http") {
        match &config.url {
            Some(u) => CheckPlan::Http { url: u.clone(), timeout_secs: config.timeout_secs },
            None => CheckPlan::Done(down_check(string_of("HTTP"), string_of("no URL configured"))),
        }
    } else if crate::text::eq_text(&v, "docker") {
        match (&config.docker_container, &config.ssh) {
            (Some(c), Some(s)) => CheckPlan::Docker { container: c.clone(), ssh: s.clone() },
            _ => CheckPlan::Done(
                down_check(string_of("Docker"), string_of("docker_container or ssh not configured")),
            ),
        }
    } else {
        let mut msg = string_of("unknown check type: ");
        push_str(&mut msg, check_type);
        CheckPlan::Done(down_check(string_of(check_type), msg))
    }
}

/// How a canary run is summed up.
pub enum CanarySummary {
    AllHealthy { total: usize },
    SomeDown { down: usize, total: usize },
    Degraded,
}

/// All healthy; else, when some check is down, how many of how many; else
/// degraded.
pub fn summarize(r: &CanaryResult) -> (s: CanarySummary)
    ensures
        all_healthy_in(r.checks@) ==> (s matches CanarySummary::AllHealthy { total } && total
            == r.checks@.len()),
        !all_healthy_in(r.checks@) && any_down_in(r.checks@) ==> (s matches CanarySummary::SomeDown {
            down,
            total,
        } && down as nat == count_down(r.checks@) && total == r.checks@.len()),
        !all_healthy_in(r.checks@) && !any_down_in(r.checks@) ==> s is Degraded,
{
    if r.all_healthy() {
        CanarySummary::AllHealthy { total: r.checks.len() }
    } else if r.any_down() {
        CanarySummary::SomeDown { down: r.down_count(), total: r.checks.len() }
    } else {
        CanarySummary::Degraded
    }
}

/// ` (<ms>ms)`, or nothing when the latency is unknown.
pub open spec fn latency_suffix(latency_ms: Option<u64>) -> Seq<char> {
    match latency_ms {
        Some(ms) => " ("@ + decimal(ms as nat) + "ms)"@,
        None => seq![],
    }
}

pub fn latency_text(latency_ms: Option<u64>) -> (r: String)
    ensures
        r@ == latency_suffix(latency_ms),
{
    match latency_ms {
        Some(ms) => {
            let mut r = string_of(" (");
            push_decimal(&mut r, ms);
            push_str(&mut r, "ms)");
            r
        },
        None => String::new(),
    }
}

/// The first line that reports a check.
pub open spec fn check_headline(h: HealthCheck) -> Seq<char> {
    match h.status {
        CanaryStatus::Healthy => "  \u{2705} "@ + h.name@ + latency_suffix(h.latency_ms),
        CanaryStatus::Degraded(m) => "  \u{26a0}\u{fe0f}  "@ + h.name@ + " \u{2014} "@ + m@
            + latency_suffix(h.latency_ms),
        CanaryStatus::Down(m) => "  \u{274c} "@ + h.name@ + " \u{2014} "@ + m@,
    }
}

/// The detail lines of a check, indented.
pub open spec fn detail_lines(details: Option<String>) -> Seq<Seq<char>> {
    match details {
        Some(d) => lines(d@).map_values(|l: Seq<char>| "     "@ + l),
        None => seq![],
    }
}

/// The lines that report a check: its verdict, then its details.
pub fn check_lines(h: &HealthCheck) -> (r: Vec<String>)
    ensures
        views(r@) == seq![check_headline(*h)] + detail_lines(h.details),
{
    let lat = latency_text(h.latency_ms);
    let head = match &h.status {
        CanaryStatus::Healthy => {
            let mut s = string_of("  \u{2705} ");
            push_str(&mut s, h.name.as_str());
            push_str(&mut s, lat.as_str());
            s
        },
        CanaryStatus::Degraded(m) => {
            let mut s = string_of("  \u{26a0}\u{fe0f}  ");
            push_str(&mut s, h.name.as_str());
            push_str(&mut s, " \u{2014} ");
            push_str(&mut s, m.as_str());
            push_str(&mut s, lat.as_str());
            s
        },
        CanaryStatus::Down(m) => {
            let mut s = string_of("  \u{274c} ");
            push_str(&mut s, h.name.as_str());
            push_str(&mut s, " \u{2014} ");
            push_str(&mut s, m.as_str());
            s
        },
    };
    let mut out: Vec<String> = Vec::new();
    out.push(head);
    proof {
        assert(views(out@) =~= seq![check_headline(*h)]);
    }
    if let Some(d) = &h.details {
        let ls = lines_of(d.as_str());
        let ghost dl = detail_lines(h.details);
        let mut i: usize = 0;
        while i < ls.len()
            invariant
                i <= ls.len(),
                views(ls@) == lines(d@),
                dl == detail_lines(h.details),
                dl == lines(d@).map_values(|l: Seq<char>| "     "@ + l),
                views(out@) == seq![check_headline(*h)] + dl.take(i as int),
            decreases ls.len() - i,
        {
            let mut line = string_of("     ");
            push_str(&mut line, ls[i].as_str());
            let ghost before = out@;
            out.push(line);
            proof {
                assert(views(ls@)[i as int] == ls@[i as int]@);
                assert(views(out@) =~= views(before).push(line@));
                assert(dl.take(i + 1) =~= dl.take(i as int).push(dl[i as int]));
            }
            i = i + 1;
        }
        proof {
            assert(dl.take(i as int) =~= dl);
        }
    } else {
        proof {
            assert(seq![check_headline(*h)] + detail_lines(h.details) =~= seq![check_headline(*h)]);
        }
    }
    out
}

} // verus!
