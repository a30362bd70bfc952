//! The project's stack, told from the files at its root.

use vstd::prelude::*;
use crate::text::{contains_seq, contains_str, lowercase, push_str, string_of, to_lowercase};

verus! {

/// The kinds of project ship knows how to test.
#[derive(Debug, Clone, Copy, PartialEq, Eq, Structural)]
pub enum ProjectStack {
    Rust,
    NextJs,
    Flask,
    Python,
    Node,
    Unknown,
}

/// What is found at a project's root: which marker files exist, and the
/// content of `requirements.txt` when it could be read.
#[derive(Debug, Clone)]
pub struct StackMarkers {
    pub cargo_toml: bool,
    pub package_json: bool,
    /// `next.config.mjs`, `next.config.js` or `next.config.ts`.
    pub next_config: bool,
    pub requirements_txt: bool,
    pub requirements: Option<String>,
    pub pyproject_toml: bool,
}

/// The stack that the markers point to, checked in this order: Cargo,
/// then package.json (Next.js with a Next config), then requirements.txt
/// (Flask when it names flask in any case), then pyproject.toml.
pub open spec fn stack_of(m: StackMarkers) -> ProjectStack {
    if m.cargo_toml {
        ProjectStack::Rust
    } else if m.package_json {
        if m.next_config {
            ProjectStack::NextJs
        } else {
            ProjectStack::Node
        }
    } else if m.requirements_txt {
        if m.requirements is Some && contains_seq(lowercase(m.requirements->0@), "flask"@) {
            ProjectStack::Flask
        } else {
            ProjectStack::Python
        }
    } else if m.pyproject_toml {
        ProjectStack::Python
    } else {
        ProjectStack::Unknown
    }
}

pub open spec fn test_command_of(s: ProjectStack) -> Option<Seq<char>> {
    match s {
        ProjectStack::Rust => Some("cargo test"@),
        ProjectStack::NextJs => Some("pnpm test --run"@),
        ProjectStack::Flask => Some("python -m pytest tests/ -x"@),
        ProjectStack::Python => Some("python -m pytest"@),
        ProjectStack::Node => Some("npm test"@),
        ProjectStack::Unknown => None,
    }
}

pub open spec fn stack_name(s: ProjectStack) -> Seq<char> {
    match s {
        ProjectStack::Rust => "Rust"@,
        ProjectStack::NextJs => "Next.js"@,
        ProjectStack::Flask => "Flask"@,
        ProjectStack::Python => "Python"@,
        ProjectStack::Node => "Node.js"@,
        ProjectStack::Unknown => "Unknown"@,
    }
}

impl ProjectStack {
    /// The stack of a project, from what was found at its root.
    pub fn detect(markers: &StackMarkers) -> (r: Self)
        ensures
            r == stack_of(*markers),
    {
        if markers.cargo_toml {
            return ProjectStack::Rust;
        }
        if markers.package_json {
            if markers.next_config {
                return ProjectStack::NextJs;
            }
            return ProjectStack::Node;
        }
        if markers.requirements_txt {
            if let Some(content) = &markers.requirements {
                let lower = to_lowercase(content.as_str());
                if contains_str(lower.as_str(), "flask") {
                    return ProjectStack::Flask;
                }
            }
            return ProjectStack::Python;
        }
        if markers.pyproject_toml {
            return ProjectStack::Python;
        }
        ProjectStack::Unknown
    }

    /// The default test command of the stack.
    pub fn test_command(&self) -> (r: Option<&'static str>)
        ensures
            match r {
                Some(c) => test_command_of(*self) == Some(c@),
                None => test_command_of(*self) is None,
            },
    {
        match self {
            ProjectStack::Rust => Some("cargo test"),
            ProjectStack::NextJs => Some("pnpm test --run"),
            ProjectStack::Flask => Some("python -m pytest tests/ -x"),
            ProjectStack::Python => Some("python -m pytest"),
            ProjectStack::Node => Some("npm test"),
            ProjectStack::Unknown => None,
        }
    }

    /// The display name of the stack.
    pub fn name(&self) -> (r: &'static str)
        ensures
            r@ == stack_name(*self),
    {
        match self {
            ProjectStack::Rust => "Rust",
            ProjectStack::NextJs => "Next.js",
            ProjectStack::Flask => "Flask",
            ProjectStack::Python => "Python",
            ProjectStack::Node => "Node.js",
            ProjectStack::Unknown => "Unknown",
        }
    }
}

/// The requirements name flask, in any case.
pub open spec fn mentions_flask(m: StackMarkers) -> bool {
    m.requirements is Some && contains_seq(lowercase(m.requirements->0@), "flask"@)
}

/// A project is Flask exactly when it has neither Cargo.toml nor
/// package.json but a requirements.txt that names flask (in any case); a
/// requirements.txt that does not name flask makes it plain Python.
pub proof fn law_flask_only_with_flask(m: StackMarkers)
    ensures
        stack_of(m) == ProjectStack::Flask <==> (!m.cargo_toml && !m.package_json && m.requirements_txt
            && mentions_flask(m)),
        !m.cargo_toml && !m.package_json && m.requirements_txt && !mentions_flask(m) ==> stack_of(m)
            == ProjectStack::Python,
{
}

/// The markers are read in order of precedence: Cargo.toml makes a Rust
/// project whatever else is there; otherwise package.json makes Next.js
/// (with a Next config) or Node.js; a project with none of the marker files
/// is Unknown and has no default test command.
pub proof fn law_stack_precedence(m: StackMarkers)
    ensures
        m.cargo_toml ==> stack_of(m) == ProjectStack::Rust,
        !m.cargo_toml && m.package_json ==> stack_of(m) == (if m.next_config {
            ProjectStack::NextJs
        } else {
            ProjectStack::Node
        }),
        !m.cargo_toml && !m.package_json && !m.requirements_txt && m.pyproject_toml ==> stack_of(m)
            == ProjectStack::Python,
        !m.cargo_toml && !m.package_json && !m.requirements_txt && !m.pyproject_toml ==> stack_of(m)
            == ProjectStack::Unknown && test_command_of(stack_of(m)) is None,
{
}

/// The `.ship.toml` that `ship init` writes for a project.
pub open spec fn init_toml_text(project_name: Seq<char>, stack: ProjectStack) -> Seq<char> {
    let test_cmd = match test_command_of(stack) {
        Some(c) => c,
        None => "echo 'no tests'"@,
    };
    "name = \""@ + project_name + "\"\nstack = \""@ + lowercase(stack_name(stack))
        + "\"\nbase_branch = \"main\"\n\n[test]\ncommand = \""@ + test_cmd
        + "\"\ntimeout_secs = 300\n\n[docs_gate]\nenabled = true\nblocking = false\n\n[version]\n# file = \"VERSION\"\nstrategy = \"auto\"\n\n[changelog]\nfile = \"docs/CHANGELOG.md\"\nstyle = \"grouped\"\n\n[pr]\ntemplate = \"default\"\ndraft = false\n# labels = [\"ship\"]\n"@
}

/// The starting configuration for a project of the given stack.
pub fn init_toml(project_name: &str, stack: ProjectStack) -> (r: String)
    ensures
        r@ == init_toml_text(project_name@, stack),
{
    let test_cmd = match stack.test_command() {
        Some(c) => c,
        None => "echo 'no tests'",
    };
    let stack_lower = to_lowercase(stack.name());
    let mut r = string_of("name = \"");
    push_str(&mut r, project_name);
    push_str(&mut r, "\"\nstack = \"");
    push_str(&mut r, stack_lower.as_str());
    push_str(&mut r, "\"\nbase_branch = \"main\"\n\n[test]\ncommand = \"");
    push_str(&mut r, test_cmd);
    push_str(
        &mut r,
        "\"\ntimeout_secs = 300\n\n[docs_gate]\nenabled = true\nblocking = false\n\n[version]\n# file = \"VERSION\"\nstrategy = \"auto\"\n\n[changelog]\nfile = \"docs/CHANGELOG.md\"\nstyle = \"grouped\"\n\n[pr]\ntemplate = \"default\"\ndraft = false\n# labels = [\"ship\"]\n",
    );
    r
}

} // verus!
