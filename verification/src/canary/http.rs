//! The HTTP check: how a response (or the lack of one) is judged, and when
//! a request is tried again.

use vstd::prelude::*;
use crate::canary::{CanaryStatus, HealthCheck};
use crate::config::opt_view;
use crate::text::{decimal, push_decimal, push_str, string_of};

verus! {

/// Attempts before the check gives up.
pub const MAX_RETRIES: u32 = 3;

/// Seconds to wait between attempts.
pub const RETRY_DELAY_SECS: u64 = 5;

/// What one request gave: a response, or the reason there was none.
#[derive(Debug, Clone)]
pub enum HttpOutcome {
    Response { status: u16, content_length: Option<u64> },
    Failed { timeout: bool, connect: bool, message: String },
}

/// The canonical reason phrase that http's `StatusCode::canonical_reason`
/// gives a status code, if it knows one.
pub uninterp spec fn canonical_reason(code: u16) -> Option<Seq<char>>;

/// http's `StatusCode::canonical_reason` (through reqwest's re-export) for a
/// valid status code. The table of phrases is not restated; the result is
/// named by `canonical_reason`.
#[verifier::external_body]
fn reason_phrase(code: u16) -> (r: Option<String>)
    requires
        100 <= code <= 999,
    ensures
        opt_view(r) == canonical_reason(code),
{
    match reqwest::StatusCode::from_u16(code) {
        Ok(s) => s.canonical_reason().map(|p| p.to_string()),
        Err(_) => None,
    }
}

/// How http displays a status code: the number, then its reason phrase.
pub open spec fn status_text(code: u16) -> Seq<char> {
    decimal(code as nat) + " "@ + match canonical_reason(code) {
        Some(r) => r,
        None => "<unknown status code>"@,
    }
}

pub fn status_display(code: u16) -> (r: String)
    requires
        100 <= code <= 999,
    ensures
        r@ == status_text(code),
{
    let mut r = String::new();
    push_decimal(&mut r, code as u64);
    push_str(&mut r, " ");
    match reason_phrase(code) {
        Some(p) => push_str(&mut r, p.as_str()),
        None => push_str(&mut r, "<unknown status code>"),
    }
    r
}

/// `status: <status>, size: <n> bytes` (or `size: unknown`).
pub open spec fn response_details(status: u16, content_length: Option<u64>) -> Seq<char> {
    "status: "@ + status_text(status) + ", size: "@ + match content_length {
        Some(l) => decimal(l as nat) + " bytes"@,
        None => "unknown"@,
    }
}

/// The verdict of one attempt on `url`.
pub open spec fn attempt_ok(
    h: HealthCheck,
    url: Seq<char>,
    outcome: HttpOutcome,
    latency_ms: u64,
    timeout_secs: u64,
) -> bool {
    &&& h.name@ == "HTTP "@ + url
    &&& h.latency_ms == Some(latency_ms)
    &&& match outcome {
        HttpOutcome::Response { status, content_length } => {
            &&& h.details matches Some(d) && d@ == response_details(status, content_length)
            &&& if 200 <= status < 300 {
                if latency_ms > 3000 {
                    h.status matches CanaryStatus::Degraded(m) && m@ == "slow response: "@ + decimal(
                        latency_ms as nat,
                    ) + "ms"@
                } else {
                    h.status is Healthy
                }
            } else if 500 <= status < 600 {
                h.status matches CanaryStatus::Down(m) && m@ == "server error: "@ + status_text(status)
            } else {
                h.status matches CanaryStatus::Degraded(m) && m@ == "unexpected status: "@
                    + status_text(status)
            }
        },
        HttpOutcome::Failed { timeout, connect, message } => {
            &&& h.details is None
            &&& h.status matches CanaryStatus::Down(m) && m@ == if timeout {
                "timeout after "@ + decimal(timeout_secs as nat) + "s"@
            } else if connect {
                "connection refused"@
            } else {
                message@
            }
        },
    }
}

/// Judges one attempt on `url` that took `latency_ms`.
pub fn attempt_result(url: &str, outcome: HttpOutcome, latency_ms: u64, timeout_secs: u64) -> (h:
    HealthCheck)
    requires
        outcome matches HttpOutcome::Response { status, .. } ==> 100 <= status <= 999,
    ensures
        attempt_ok(h, url@, outcome, latency_ms, timeout_secs),
{
    let mut name = string_of("HTTP ");
    push_str(&mut name, url);
    match outcome {
        HttpOutcome::Response { status, content_length } => {
            let shown = status_display(status);
            let mut details = string_of("status: ");
            push_str(&mut details, shown.as_str());
            push_str(&mut details, ", size: ");
            match content_length {
                Some(l) => {
                    push_decimal(&mut details, l);
                    push_str(&mut details, " bytes");
                },
                None => push_str(&mut details, "unknown"),
            }
            assert(details@ =~= response_details(status, content_length));
            let st = if 200 <= status && status < 300 {
                if latency_ms > 3000 {
                    let mut m = string_of("slow response: ");
                    push_decimal(&mut m, latency_ms);
                    push_str(&mut m, "ms");
                    CanaryStatus::Degraded(m)
                } else {
                    CanaryStatus::Healthy
                }
            } else if 500 <= status && status < 600 {
                let mut m = string_of("server error: ");
                push_str(&mut m, shown.as_str());
                CanaryStatus::Down(m)
            } else {
                let mut m = string_of("unexpected status: ");
                push_str(&mut m, shown.as_str());
                CanaryStatus::Degraded(m)
            };
            HealthCheck { name, status: st, latency_ms: Some(latency_ms), details: Some(details) }
        },
        HttpOutcome::Failed { timeout, connect, message } => {
            let msg = if timeout {
                let mut m = string_of("timeout after ");
                push_decimal(&mut m, timeout_secs);
                push_str(&mut m, "s");
                m
            } else if connect {
                string_of("connection refused")
            } else {
                message
            };
            HealthCheck {
                name,
                status: CanaryStatus::Down(msg),
                latency_ms: Some(latency_ms),
                details: None,
            }
        },
    }
}

/// The check's result when no HTTP client could be built.
pub fn client_error(url: &str, message: &str) -> (h: HealthCheck)
    ensures
        crate::canary::is_down_check(h, "HTTP "@ + url@, "client error: "@ + message@),
{
    let mut name = string_of("HTTP ");
    push_str(&mut name, url);
    let mut m = string_of("client error: ");
    push_str(&mut m, message);
    HealthCheck { name, status: CanaryStatus::Down(m), latency_ms: None, details: None }
}

/// What follows an attempt.
pub enum HttpNext {
    /// The check is over, with this result.
    Done(HealthCheck),
    /// Wait this many seconds, then try again.
    RetryAfter(u64),
}

/// After attempt number `attempt` (from 1): a healthy or degraded result
/// ends the check; a failed one is tried again after a pause, up to three
/// attempts, and the last failure is reported with the number of attempts.
pub open spec fn next_ok(n: HttpNext, attempt: u32, h: HealthCheck) -> bool {
    if !(h.status is Down) {
        n matches HttpNext::Done(r) && r == h
    } else if attempt < 3 {
        n matches HttpNext::RetryAfter(s) && s == 5
    } else {
        n matches HttpNext::Done(r) && r.name == h.name && r.latency_ms == h.latency_ms
            && r.details == h.details && (r.status matches CanaryStatus::Down(m)
            && m@ == (h.status->Down_0)@ + " (after 3 attempts)"@)
    }
}

/// Decides what follows attempt number `attempt`.
pub fn next_after(attempt: u32, h: HealthCheck) -> (n: HttpNext)
    requires
        1 <= attempt <= MAX_RETRIES,
    ensures
        next_ok(n, attempt, h),
{
    match h.status {
        CanaryStatus::Down(msg) => {
            if attempt < MAX_RETRIES {
                HttpNext::RetryAfter(RETRY_DELAY_SECS)
            } else {
                let mut m = msg;
                push_str(&mut m, " (after 3 attempts)");
                HttpNext::Done(
                    HealthCheck {
                        name: h.name,
                        status: CanaryStatus::Down(m),
                        latency_ms: h.latency_ms,
                        details: h.details,
                    },
                )
            }
        },
        _ => HttpNext::Done(h),
    }
}

/// A server error (any status from 500 to 599) means the site is down:
/// the attempt is judged Down with `server error: <status>`, and unless it
/// was the last attempt the check tries again after five seconds.
pub proof fn law_server_error_is_down(
    h: HealthCheck,
    url: Seq<char>,
    status: u16,
    content_length: Option<u64>,
    latency_ms: u64,
    timeout_secs: u64,
    attempt: u32,
    n: HttpNext,
)
    requires
        500 <= status < 600,
        attempt_ok(h, url, HttpOutcome::Response { status, content_length }, latency_ms, timeout_secs),
    ensures
        h.status matches CanaryStatus::Down(m) && m@ == "server error: "@ + status_text(status),
        attempt < 3 && next_ok(n, attempt, h) ==> (n matches HttpNext::RetryAfter(s) && s == 5),
{
}

/// A success status (200 to 299) is never judged Down, and ends the check.
pub proof fn law_success_is_up(
    h: HealthCheck,
    url: Seq<char>,
    status: u16,
    content_length: Option<u64>,
    latency_ms: u64,
    timeout_secs: u64,
    attempt: u32,
    n: HttpNext,
)
    requires
        200 <= status < 300,
        attempt_ok(h, url, HttpOutcome::Response { status, content_length }, latency_ms, timeout_secs),
    ensures
        !(h.status is Down),
        next_ok(n, attempt, h) ==> n == HttpNext::Done(h),
{
}

/// Any other answer (a status below 200 or from 300 to 499) means the site
/// responds but not as expected: Degraded with `unexpected status:
/// <status>`, and the check ends there.
pub proof fn law_other_status_is_degraded(
    h: HealthCheck,
    url: Seq<char>,
    status: u16,
    content_length: Option<u64>,
    latency_ms: u64,
    timeout_secs: u64,
    attempt: u32,
    n: HttpNext,
)
    requires
        status < 200 || (300 <= status < 500) || status >= 600,
        attempt_ok(h, url, HttpOutcome::Response { status, content_length }, latency_ms, timeout_secs),
    ensures
        h.status matches CanaryStatus::Degraded(m) && m@ == "unexpected status: "@ + status_text(status),
        next_ok(n, attempt, h) ==> n == HttpNext::Done(h),
{
}

} // verus!
