//! Project configuration (`.ship.toml`) and its defaults.

use vstd::prelude::*;
use crate::text::string_of;

verus! {

/// The whole configuration of a project.
#[derive(Debug, Clone)]
pub struct Config {
    pub name: Option<String>,
    pub stack: Option<String>,
    pub base_branch: String,
    pub test: TestConfig,
    pub docs_gate: DocsGateConfig,
    pub version: VersionConfig,
    pub changelog: ChangelogConfig,
    pub pr: PrConfig,
    pub canary: CanaryConfig,
    pub deploy: DeployConfig,
    pub learn: LearnConfig,
    pub obsidian: ObsidianConfig,
}

#[derive(Debug, Clone)]
pub struct TestConfig {
    pub command: Option<String>,
    pub timeout_secs: u64,
}

#[derive(Debug, Clone)]
pub struct DocsGateConfig {
    pub enabled: bool,
    pub blocking: bool,
}

#[derive(Debug, Clone)]
pub struct VersionConfig {
    pub file: Option<String>,
    pub strategy: String,
    pub auto_thresholds: AutoThresholds,
}

/// Diff sizes (changed lines) below which a patch, then a minor bump is chosen.
#[derive(Debug, Clone)]
pub struct AutoThresholds {
    pub patch: u32,
    pub minor: u32,
}

#[derive(Debug, Clone)]
pub struct ChangelogConfig {
    pub file: String,
    pub style: String,
}

#[derive(Debug, Clone)]
pub struct PrConfig {
    pub template: String,
    pub draft: bool,
    pub labels: Vec<String>,
}

#[derive(Debug, Clone)]
pub struct CanaryConfig {
    pub url: Option<String>,
    pub docker_container: Option<String>,
    pub ssh: Option<String>,
    pub timeout_secs: u64,
    pub checks: Vec<String>,
}

/// How a release is deployed.
#[derive(Debug, Clone)]
pub struct DeployConfig {
    pub provider: String,
    pub ssh: Option<String>,
    pub command: Option<String>,
    pub maintenance_mode: bool,
}

#[derive(Debug, Clone)]
pub struct LearnConfig {
    pub dir: String,
    pub project_dir: String,
}

/// Where ship notes go in an Obsidian vault.
#[derive(Debug, Clone)]
pub struct ObsidianConfig {
    pub auto_log: bool,
    pub vault_path: Option<String>,
    pub project_slug: Option<String>,
}

/// A custom health check: a shell command that must succeed.
#[derive(Debug, Clone)]
pub struct CustomCheckConfig {
    pub name: String,
    pub command: String,
}

impl Default for TestConfig {
    fn default() -> (r: Self)
        ensures
            r.command is None,
            r.timeout_secs == 300,
    {
        TestConfig { command: None, timeout_secs: 300 }
    }
}

impl Default for DocsGateConfig {
    fn default() -> (r: Self)
        ensures
            r.enabled,
            !r.blocking,
    {
        DocsGateConfig { enabled: true, blocking: false }
    }
}

impl Default for AutoThresholds {
    fn default() -> (r: Self)
        ensures
            r.patch == 50,
            r.minor == 500,
    {
        AutoThresholds { patch: 50, minor: 500 }
    }
}

impl Default for VersionConfig {
    fn default() -> (r: Self)
        ensures
            r.file is None,
            r.strategy@ == "auto"@,
            r.auto_thresholds.patch == 50,
            r.auto_thresholds.minor == 500,
    {
        VersionConfig {
            file: None,
            strategy: string_of("auto"),
            auto_thresholds: AutoThresholds::default(),
        }
    }
}

impl Default for ChangelogConfig {
    fn default() -> (r: Self)
        ensures
            r.file@ == "docs/CHANGELOG.md"@,
            r.style@ == "grouped"@,
    {
        ChangelogConfig { file: string_of("docs/CHANGELOG.md"), style: string_of("grouped") }
    }
}

impl Default for PrConfig {
    fn default() -> (r: Self)
        ensures
            r.template@ == "default"@,
            !r.draft,
            r.labels@.len() == 0,
    {
        PrConfig { template: string_of("default"), draft: false, labels: Vec::new() }
    }
}

impl Default for CanaryConfig {
    fn default() -> (r: Self)
        ensures
            r.url is None,
            r.docker_container is None,
            r.ssh is None,
            r.timeout_secs == 30,
            r.checks@.len() == 1,
            r.checks@[0]@ == "http"@,
    {
        let mut checks: Vec<String> = Vec::new();
        checks.push(string_of("http"));
        CanaryConfig { url: None, docker_container: None, ssh: None, timeout_secs: 30, checks }
    }
}

impl Default for DeployConfig {
    fn default() -> (r: Self)
        ensures
            r.provider@ == "ssh"@,
            r.ssh is None,
            r.command is None,
            !r.maintenance_mode,
    {
        DeployConfig { provider: string_of("ssh"), ssh: None, command: None, maintenance_mode: false }
    }
}

impl Default for LearnConfig {
    fn default() -> (r: Self)
        ensures
            r.dir@ == "~/.ship/learnings"@,
            r.project_dir@ == ".ship/learnings"@,
    {
        LearnConfig {
            dir: string_of("~/.ship/learnings"),
            project_dir: string_of(".ship/learnings"),
        }
    }
}

impl Default for ObsidianConfig {
    fn default() -> (r: Self)
        ensures
            !r.auto_log,
            r.vault_path is None,
            r.project_slug is None,
    {
        ObsidianConfig { auto_log: false, vault_path: None, project_slug: None }
    }
}

/// The defaults that a project gets without a `.ship.toml`.
pub open spec fn is_default_config(c: Config) -> bool {
    &&& c.name is None
    &&& c.stack is None
    &&& c.base_branch@ == "main"@
    &&& c.test.command is None
    &&& c.test.timeout_secs == 300
    &&& c.docs_gate.enabled
    &&& !c.docs_gate.blocking
    &&& c.version.file is None
    &&& c.version.strategy@ == "auto"@
    &&& c.version.auto_thresholds.patch == 50
    &&& c.version.auto_thresholds.minor == 500
    &&& c.changelog.file@ == "docs/CHANGELOG.md"@
    &&& c.changelog.style@ == "grouped"@
    &&& c.pr.template@ == "default"@
    &&& !c.pr.draft
    &&& c.pr.labels@.len() == 0
    &&& c.canary.url is None
    &&& c.canary.docker_container is None
    &&& c.canary.ssh is None
    &&& c.canary.timeout_secs == 30
    &&& c.canary.checks@.len() == 1
    &&& c.canary.checks@[0]@ == "http"@
    &&& c.deploy.provider@ == "ssh"@
    &&& c.deploy.ssh is None
    &&& c.deploy.command is None
    &&& !c.deploy.maintenance_mode
    &&& c.learn.dir@ == "~/.ship/learnings"@
    &&& c.learn.project_dir@ == ".ship/learnings"@
    &&& !c.obsidian.auto_log
    &&& c.obsidian.vault_path is None
    &&& c.obsidian.project_slug is None
}

impl Default for Config {
    fn default() -> (r: Self)
        ensures
            is_default_config(r),
    {
        Config {
            name: None,
            stack: None,
            base_branch: string_of("main"),
            test: TestConfig::default(),
            docs_gate: DocsGateConfig::default(),
            version: VersionConfig::default(),
            changelog: ChangelogConfig::default(),
            pr: PrConfig::default(),
            canary: CanaryConfig::default(),
            deploy: DeployConfig::default(),
            learn: LearnConfig::default(),
            obsidian: ObsidianConfig::default(),
        }
    }
}

/// The project's name: the configured one, else the name of the working
/// directory, else `"unknown"`.
pub open spec fn project_name_of(name: Option<Seq<char>>, cwd_name: Option<Seq<char>>) -> Seq<char> {
    match name {
        Some(n) => n,
        None => match cwd_name {
            Some(d) => d,
            None => "unknown"@,
        },
    }
}

pub open spec fn opt_view(o: Option<String>) -> Option<Seq<char>> {
    match o {
        Some(s) => Some(s@),
        None => None,
    }
}

impl Config {
    /// The project's name; `cwd_name` is the last component of the working
    /// directory, when it has one.
    pub fn project_name(&self, cwd_name: Option<&str>) -> (r: String)
        ensures
            r@ == project_name_of(
                opt_view(self.name),
                match cwd_name {
                    Some(d) => Some(d@),
                    None => None,
                },
            ),
    {
        match &self.name {
            Some(n) => n.clone(),
            None => match cwd_name {
                Some(d) => string_of(d),
                None => string_of("unknown"),
            },
        }
    }
}

} // verus!
