use ship::canary::command::{check, invocation, run_local, run_via_ssh, CommandOutput};
use ship::canary::docker::{self, parse_ssh};
use ship::canary::http::{attempt_result, client_error, next_after, status_display, HttpNext, HttpOutcome};
use ship::canary::{check_lines, plan_check, summarize, CanaryResult, CanaryStatus, CanarySummary, CheckPlan, HealthCheck};
use ship::config::{CanaryConfig, CustomCheckConfig};
use std::time::Duration;

fn output(success: bool, code: Option<i32>, stdout: &str, stderr: &str) -> CommandOutput {
    CommandOutput { success, code, stdout: stdout.into(), stderr: stderr.into() }
}

#[test]
fn test_run_local_success() {
    // `sh -c "echo hello"` exits 0 and prints "hello\n".
    let result = run_local(Ok(output(true, Some(0), "hello\n", "")));
    assert_eq!(result.unwrap(), "hello");
}

#[test]
fn test_run_local_failure() {
    // `sh -c false` exits 1 and prints nothing.
    let result = run_local(Ok(output(false, Some(1), "", "")));
    assert!(result.is_err());
    assert_eq!(result.unwrap_err(), "exit code 1");
}

#[test]
fn test_check_local_healthy() {
    let custom = CustomCheckConfig { name: "Test".into(), command: "echo ok".into() };
    let (program, args) = invocation(&custom, None);
    assert_eq!(program, "sh");
    assert_eq!(args, vec!["-c".to_string(), "echo ok".to_string()]);
    let result = check(&custom, None, Ok(output(true, Some(0), "ok\n", "")), 3);
    assert!(result.status.is_healthy());
    assert_eq!(result.name, "Test");
    assert_eq!(result.details.as_deref(), Some("ok"));
}

#[test]
fn test_check_local_down() {
    let custom = CustomCheckConfig { name: "Fail".into(), command: "false".into() };
    let result = check(&custom, None, Ok(output(false, Some(1), "", "")), 1);
    assert!(matches!(result.status, CanaryStatus::Down(_)));
}

#[test]
fn local_errors_name_their_cause() {
    assert_eq!(run_local(Err("No such file".into())).unwrap_err(), "failed to execute: No such file");
    assert_eq!(run_local(Ok(output(false, Some(2), "", " boom \n"))).unwrap_err(), "boom");
    assert_eq!(run_local(Ok(output(false, None, "", ""))).unwrap_err(), "exit code -1");
}

#[test]
fn ssh_errors_are_classified() {
    assert_eq!(
        run_via_ssh(Ok(output(false, Some(255), "", "Permission denied (publickey)"))).unwrap_err(),
        "SSH auth failed"
    );
    assert_eq!(
        run_via_ssh(Ok(output(false, Some(255), "", "connect: Connection refused"))).unwrap_err(),
        "SSH connection failed"
    );
    assert_eq!(run_via_ssh(Ok(output(false, Some(255), "", "Operation timed out"))).unwrap_err(), "SSH connection failed");
    assert_eq!(run_via_ssh(Err("nope".into())).unwrap_err(), "ssh failed: nope");
    assert_eq!(run_via_ssh(Ok(output(true, Some(0), " up \n", ""))).unwrap(), "up");
}

#[test]
fn custom_check_over_ssh_uses_port() {
    let custom = CustomCheckConfig { name: "Disk".into(), command: "df -h".into() };
    let (program, args) = invocation(&custom, Some("me@host:2222"));
    assert_eq!(program, "ssh");
    assert_eq!(
        args,
        vec!["-o", "StrictHostKeyChecking=no", "-o", "ConnectTimeout=10", "-o", "BatchMode=yes", "-p", "2222", "me@host", "df -h"]
    );
    let h = check(&custom, Some("me@host:2222"), Ok(output(false, Some(1), "", "Permission denied")), 9);
    assert!(matches!(&h.status, CanaryStatus::Down(m) if m == "SSH auth failed"));
    assert_eq!(h.latency_ms, Some(9));
}

#[test]
fn test_parse_ssh_with_port() {
    let (target, port) = parse_ssh("deploy@103.167.150.178:1994");
    assert_eq!(target, "deploy@103.167.150.178");
    assert_eq!(port, Some("1994".into()));
}

#[test]
fn test_parse_ssh_without_port() {
    let (target, port) = parse_ssh("deploy@myserver.com");
    assert_eq!(target, "deploy@myserver.com");
    assert_eq!(port, None);
}

#[test]
fn parse_ssh_port_must_be_u16() {
    assert_eq!(parse_ssh("h:70000"), ("h:70000".to_string(), None));
    assert_eq!(parse_ssh("h:+22"), ("h".to_string(), Some("+22".to_string())));
    assert_eq!(parse_ssh("a:b:22"), ("a:b".to_string(), Some("22".to_string())));
    assert_eq!(parse_ssh("h:"), ("h:".to_string(), None));
    let (t, p) = parse_ssh("user@host:65535");
    assert_eq!(format!("{}:{}", t, p.unwrap()), "user@host:65535");
}

#[test]
fn docker_check_states() {
    let h = docker::check("web", Ok(output(true, Some(0), "'running'\n", "")), 12);
    assert_eq!(h.name, "Docker web");
    assert!(h.status.is_healthy());
    assert_eq!(h.details.as_deref(), Some("status: running"));
    let h = docker::check("web", Ok(output(true, Some(0), "'Restarting'", "")), 12);
    assert!(matches!(&h.status, CanaryStatus::Degraded(m) if m == "container restarting"));
    let h = docker::check("web", Ok(output(true, Some(0), "exited", "")), 12);
    assert!(matches!(&h.status, CanaryStatus::Down(m) if m == "container status: exited"));
    let h = docker::check("web", Ok(output(false, Some(1), "", "Error: No such object: web")), 12);
    assert!(matches!(&h.status, CanaryStatus::Down(m) if m == "container 'web' not found"));
    assert_eq!(h.details.as_deref(), Some("Error: No such object: web"));
    let h = docker::check("web", Ok(output(false, Some(1), "", "weird")), 12);
    assert!(matches!(&h.status, CanaryStatus::Down(m) if m == "SSH error: weird"));
    let h = docker::check("web", Err("spawn".into()), 12);
    assert!(matches!(&h.status, CanaryStatus::Down(m) if m == "ssh command failed: spawn"));
    assert_eq!(h.latency_ms, None);
}

#[test]
fn docker_invocation_asks_for_state() {
    let args = docker::invocation("web", "ops@box:22");
    assert_eq!(args[args.len() - 1], "docker inspect --format='{{.State.Status}}' web");
    assert_eq!(args[args.len() - 2], "ops@box");
    assert!(args.contains(&"22".to_string()));
}

#[test]
fn http_status_display_names_the_reason() {
    assert_eq!(status_display(200), "200 OK");
    assert_eq!(status_display(503), "503 Service Unavailable");
    assert_eq!(status_display(599), "599 <unknown status code>");
}

#[test]
fn http_attempts_are_judged() {
    let h = attempt_result("http://x", HttpOutcome::Response { status: 200, content_length: Some(10) }, 50, 30);
    assert!(h.status.is_healthy());
    assert_eq!(h.name, "HTTP http://x");
    assert_eq!(h.details.as_deref(), Some("status: 200 OK, size: 10 bytes"));
    let h = attempt_result("http://x", HttpOutcome::Response { status: 200, content_length: None }, 3001, 30);
    assert!(matches!(&h.status, CanaryStatus::Degraded(m) if m == "slow response: 3001ms"));
    let h = attempt_result("http://x", HttpOutcome::Response { status: 500, content_length: None }, 5, 30);
    assert!(matches!(&h.status, CanaryStatus::Down(m) if m == "server error: 500 Internal Server Error"));
    let h = attempt_result("http://x", HttpOutcome::Response { status: 404, content_length: None }, 5, 30);
    assert!(matches!(&h.status, CanaryStatus::Degraded(m) if m == "unexpected status: 404 Not Found"));
    assert_eq!(h.details.as_deref(), Some("status: 404 Not Found, size: unknown"));
    let failed = HttpOutcome::Failed { timeout: true, connect: false, message: "t".into() };
    let h = attempt_result("http://x", failed, 2000, 2);
    assert!(matches!(&h.status, CanaryStatus::Down(m) if m == "timeout after 2s"));
    let failed = HttpOutcome::Failed { timeout: false, connect: true, message: "c".into() };
    let h = attempt_result("http://127.0.0.1:1", failed, 1, 2);
    assert!(matches!(&h.status, CanaryStatus::Down(m) if m == "connection refused"));
    let h = client_error("http://x", "bad tls");
    assert!(matches!(&h.status, CanaryStatus::Down(m) if m == "client error: bad tls"));
}

#[test]
fn refused_connection_gives_up_after_three_attempts() {
    // Three refused connections: the check ends down after three attempts.
    let mut attempt = 1;
    let result = loop {
        let failed = HttpOutcome::Failed { timeout: false, connect: true, message: "refused".into() };
        let h = attempt_result("http://127.0.0.1:1", failed, 1, 2);
        match next_after(attempt, h) {
            HttpNext::Done(r) => break r,
            HttpNext::RetryAfter(secs) => assert_eq!(secs, 5),
        }
        attempt += 1;
    };
    assert_eq!(attempt, 3);
    assert!(matches!(&result.status, CanaryStatus::Down(m) if m == "connection refused (after 3 attempts)"));
}

#[test]
fn healthy_attempt_ends_at_once() {
    let h = attempt_result("http://x", HttpOutcome::Response { status: 204, content_length: Some(0) }, 7, 30);
    assert!(matches!(next_after(1, h), HttpNext::Done(r) if r.status.is_healthy()));
}

fn hc(name: &str, status: CanaryStatus, latency: Option<u64>) -> HealthCheck {
    HealthCheck { name: name.into(), status, latency_ms: latency, details: None }
}

#[test]
fn canary_tallies() {
    let r = CanaryResult {
        checks: vec![hc("a", CanaryStatus::Healthy, None), hc("b", CanaryStatus::Down("x".into()), None)],
        duration: Duration::ZERO,
    };
    assert!(!r.all_healthy());
    assert!(r.any_down());
    assert_eq!(r.down_count(), 1);
    assert!(matches!(summarize(&r), CanarySummary::SomeDown { down: 1, total: 2 }));
    let r = CanaryResult { checks: vec![hc("a", CanaryStatus::Degraded("s".into()), None)], duration: Duration::ZERO };
    assert!(matches!(summarize(&r), CanarySummary::Degraded));
    let r = CanaryResult { checks: vec![], duration: Duration::ZERO };
    assert!(r.all_healthy() && !r.any_down());
    assert!(matches!(summarize(&r), CanarySummary::AllHealthy { total: 0 }));
}

#[test]
fn plan_checks_from_config() {
    let mut c = CanaryConfig::default();
    assert!(matches!(plan_check(&c, "http"), CheckPlan::Done(h) if h.name == "HTTP"));
    c.url = Some("https://app".into());
    assert!(matches!(plan_check(&c, "http"), CheckPlan::Http { url, timeout_secs: 30 } if url == "https://app"));
    assert!(matches!(plan_check(&c, "docker"), CheckPlan::Done(h)
        if matches!(&h.status, CanaryStatus::Down(m) if m == "docker_container or ssh not configured")));
    c.docker_container = Some("web".into());
    c.ssh = Some("ops@box".into());
    assert!(matches!(plan_check(&c, "docker"), CheckPlan::Docker { container, ssh } if container == "web" && ssh == "ops@box"));
    assert!(matches!(plan_check(&c, "ping"), CheckPlan::Done(h)
        if h.name == "ping" && matches!(&h.status, CanaryStatus::Down(m) if m == "unknown check type: ping")));
}

#[test]
fn check_report_lines() {
    let mut h = hc("HTTP x", CanaryStatus::Healthy, Some(12));
    h.details = Some("a\nb".into());
    let ls = check_lines(&h);
    assert_eq!(ls, vec!["  \u{2705} HTTP x (12ms)", "     a", "     b"]);
    let ls = check_lines(&hc("D", CanaryStatus::Down("gone".into()), Some(3)));
    assert_eq!(ls, vec!["  \u{274c} D \u{2014} gone"]);
    let ls = check_lines(&hc("W", CanaryStatus::Degraded("slow".into()), None));
    assert_eq!(ls, vec!["  \u{26a0}\u{fe0f}  W \u{2014} slow"]);
}
