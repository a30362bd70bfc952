//! The test step: which command runs the project's tests, and how its
//! outcome is reported.

use vstd::prelude::*;
use crate::canary::command::CommandOutput;
use crate::config::{opt_view, Config};
use crate::detect::{test_command_of, ProjectStack};
use crate::pipeline::{StepResult, StepStatus};
use crate::text::{join_strings, join_with, lines, lines_of, push_str, split_whitespace, string_of, views, words};

verus! {

/// The configured test command, else the default of the detected stack
/// (`None` when the stack could not be told).
pub open spec fn test_command_for(config: Config, stack: Option<ProjectStack>) -> Option<Seq<char>> {
    match config.test.command {
        Some(c) => Some(c@),
        None => match stack {
            Some(s) => test_command_of(s),
            None => None,
        },
    }
}

pub fn resolve_test_command(config: &Config, stack: Option<ProjectStack>) -> (r: Option<String>)
    ensures
        opt_view(r) == test_command_for(*config, stack),
{
    match &config.test.command {
        Some(c) => Some(c.clone()),
        None => match stack {
            Some(s) => match s.test_command() {
                Some(c) => Some(string_of(c)),
                None => None,
            },
            None => None,
        },
    }
}

/// The program and arguments of a command line: its whitespace-separated
/// words; `None` when it has none.
pub fn test_program(cmd: &str) -> (r: Option<(String, Vec<String>)>)
    ensures
        match r {
            Some((p, args)) => words(cmd@).len() > 0 && p@ == words(cmd@)[0] && views(args@)
                == words(cmd@).drop_first(),
            None => words(cmd@).len() == 0,
        },
{
    let ws = split_whitespace(cmd);
    if ws.len() == 0 {
        return None;
    }
    let mut args: Vec<String> = Vec::new();
    let mut i: usize = 1;
    while i < ws.len()
        invariant
            1 <= i <= ws.len(),
            views(ws@) == words(cmd@),
            views(args@) == views(ws@).subrange(1, i as int),
        decreases ws.len() - i,
    {
        let ghost before = args@;
        args.push(ws[i].clone());
        proof {
            assert(views(args@) =~= views(before).push(ws@[i as int]@));
            assert(views(ws@).subrange(1, i + 1) =~= views(ws@).subrange(1, i as int).push(
                views(ws@)[i as int],
            ));
        }
        i = i + 1;
    }
    proof {
        assert(views(ws@).subrange(1, i as int) =~= views(ws@).drop_first());
        assert(views(ws@)[0] == ws@[0]@);
    }
    Some((ws[0].clone(), args))
}

/// The last `n` lines, last first.
pub open spec fn tail_reversed(ls: Seq<Seq<char>>, n: nat) -> Seq<Seq<char>> {
    let k = if n < ls.len() { n } else { ls.len() };
    Seq::new(k, |i: int| ls[ls.len() - 1 - i])
}

fn last_lines_reversed(s: &str, n: usize) -> (r: Vec<String>)
    ensures
        views(r@) == tail_reversed(lines(s@), n as nat),
{
    let ls = lines_of(s);
    let k: usize = if n < ls.len() { n } else { ls.len() };
    let mut out: Vec<String> = Vec::new();
    let mut i: usize = 0;
    while i < k
        invariant
            i <= k,
            k == (if n < ls.len() { n } else { ls.len() }),
            views(ls@) == lines(s@),
            views(out@) == tail_reversed(lines(s@), n as nat).take(i as int),
        decreases k - i,
    {
        let ghost before = out@;
        out.push(ls[ls.len() - 1 - i].clone());
        proof {
            assert(views(ls@)[ls.len() - 1 - i] == ls@[ls.len() - 1 - i]@);
            assert(views(out@) =~= views(before).push(ls@[ls.len() - 1 - i]@));
            assert(views(out@) =~= tail_reversed(lines(s@), n as nat).take(i + 1));
        }
        i = i + 1;
    }
    proof {
        assert(tail_reversed(lines(s@), n as nat).take(i as int) =~= tail_reversed(lines(s@), n as nat));
    }
    out
}

/// What a failed run shows: the last five lines of stderr, last first, or
/// of stdout when stderr is empty.
pub open spec fn failure_detail(stdout: Seq<char>, stderr: Seq<char>) -> Seq<char> {
    if stderr.len() > 0 {
        join_with(tail_reversed(lines(stderr), 5), "\n"@)
    } else {
        join_with(tail_reversed(lines(stdout), 5), "\n"@)
    }
}

/// The test step when no test command is known.
pub fn no_test_command(duration: u64) -> (r: StepResult)
    ensures
        r.name@ == "Test"@,
        r.status matches StepStatus::Warn(m) && m@ == "No test command detected"@,
        r.output is None,
        r.duration == duration,
{
    StepResult {
        name: string_of("Test"),
        status: StepStatus::Warn(string_of("No test command detected")),
        duration,
        output: None,
    }
}

/// The test step once `cmd` ran.
pub fn run(cmd: &str, out: &CommandOutput, duration: u64) -> (r: StepResult)
    ensures
        r.name@ == "Test"@,
        r.duration == duration,
        out.success ==> r.status is Pass && (r.output matches Some(o) && o@ == "passed ("@ + cmd@
            + ")"@),
        !out.success ==> (r.status matches StepStatus::Fail(m) && m@ == "tests failed ("@ + cmd@
            + ")\n"@ + failure_detail(out.stdout@, out.stderr@)) && r.output is None,
{
    if out.success {
        let mut o = string_of("passed (");
        push_str(&mut o, cmd);
        push_str(&mut o, ")");
        return StepResult { name: string_of("Test"), status: StepStatus::Pass, duration, output: Some(o) };
    }
    let tail = if !out.stderr.as_str().is_empty() {
        last_lines_reversed(out.stderr.as_str(), 5)
    } else {
        last_lines_reversed(out.stdout.as_str(), 5)
    };
    let detail = join_strings(&tail, "\n");
    let mut m = string_of("tests failed (");
    push_str(&mut m, cmd);
    push_str(&mut m, ")\n");
    push_str(&mut m, detail.as_str());
    StepResult { name: string_of("Test"), status: StepStatus::Fail(m), duration, output: None }
}

/// The program and arguments that run `cmd`; a command line with no words
/// runs nothing and the step ends with the same warning as when no test
/// command is known.
pub fn prepare(cmd: &str, duration: u64) -> (r: Result<(String, Vec<String>), StepResult>)
    ensures
        words(cmd@).len() > 0 ==> (r matches Ok((p, args)) && p@ == words(cmd@)[0] && views(args@)
            == words(cmd@).drop_first()),
        words(cmd@).len() == 0 ==> (r matches Err(s) && s.name@ == "Test"@ && (s.status matches StepStatus::Warn(m)
            && m@ == "No test command detected"@) && s.output is None && s.duration == duration),
{
    match test_program(cmd) {
        Some(pa) => Ok(pa),
        None => Err(no_test_command(duration)),
    }
}

} // verus!
