use ship::config::Config;
use ship::detect::{init_toml, ProjectStack, StackMarkers};

#[test]
fn test_default_config() {
    let config = Config::default();
    assert_eq!(config.base_branch, "main");
    assert_eq!(config.test.timeout_secs, 300);
    assert!(config.docs_gate.enabled);
    assert!(!config.docs_gate.blocking);
    assert_eq!(config.version.auto_thresholds.patch, 50);
    assert_eq!(config.changelog.file, "docs/CHANGELOG.md");
}

#[test]
fn test_project_name_from_config() {
    let config = Config { name: Some("jarvis".into()), ..Config::default() };
    assert_eq!(config.project_name(Some("somedir")), "jarvis");
}

#[test]
fn project_name_falls_back_to_directory() {
    let config = Config::default();
    assert_eq!(config.project_name(Some("somedir")), "somedir");
    assert_eq!(config.project_name(None), "unknown");
}

fn markers() -> StackMarkers {
    StackMarkers {
        cargo_toml: false,
        package_json: false,
        next_config: false,
        requirements_txt: false,
        requirements: None,
        pyproject_toml: false,
    }
}

#[test]
fn test_detect_rust() {
    let m = StackMarkers { cargo_toml: true, ..markers() };
    assert_eq!(ProjectStack::detect(&m), ProjectStack::Rust);
}

#[test]
fn test_detect_nextjs() {
    let m = StackMarkers { package_json: true, next_config: true, ..markers() };
    assert_eq!(ProjectStack::detect(&m), ProjectStack::NextJs);
}

#[test]
fn test_detect_flask() {
    let m = StackMarkers {
        requirements_txt: true,
        requirements: Some("flask==3.0\nsqlalchemy".into()),
        ..markers()
    };
    assert_eq!(ProjectStack::detect(&m), ProjectStack::Flask);
}

#[test]
fn detect_flask_ignores_case_and_needs_content() {
    let m = StackMarkers { requirements_txt: true, requirements: Some("Flask-Login".into()), ..markers() };
    assert_eq!(ProjectStack::detect(&m), ProjectStack::Flask);
    let m = StackMarkers { requirements_txt: true, requirements: None, ..markers() };
    assert_eq!(ProjectStack::detect(&m), ProjectStack::Python);
}

#[test]
fn test_detect_python() {
    let m = StackMarkers { pyproject_toml: true, ..markers() };
    assert_eq!(ProjectStack::detect(&m), ProjectStack::Python);
}

#[test]
fn test_detect_node() {
    let m = StackMarkers { package_json: true, ..markers() };
    assert_eq!(ProjectStack::detect(&m), ProjectStack::Node);
}

#[test]
fn test_detect_unknown() {
    assert_eq!(ProjectStack::detect(&markers()), ProjectStack::Unknown);
}

#[test]
fn detect_cargo_wins_over_everything() {
    let m = StackMarkers { cargo_toml: true, package_json: true, pyproject_toml: true, ..markers() };
    assert_eq!(ProjectStack::detect(&m), ProjectStack::Rust);
}

#[test]
fn test_rust_test_command() {
    assert_eq!(ProjectStack::Rust.test_command(), Some("cargo test"));
}

#[test]
fn test_unknown_test_command() {
    assert_eq!(ProjectStack::Unknown.test_command(), None);
}

#[test]
fn stack_names() {
    assert_eq!(ProjectStack::NextJs.name(), "Next.js");
    assert_eq!(ProjectStack::Node.test_command(), Some("npm test"));
}

#[test]
fn init_toml_for_a_stack() {
    let t = init_toml("tarot", ProjectStack::NextJs);
    assert!(t.starts_with("name = \"tarot\"\nstack = \"next.js\"\nbase_branch = \"main\"\n"));
    assert!(t.contains("[test]\ncommand = \"pnpm test --run\"\ntimeout_secs = 300\n"));
    assert!(t.ends_with("# labels = [\"ship\"]\n"));
    let t = init_toml("x", ProjectStack::Unknown);
    assert!(t.contains("command = \"echo 'no tests'\""));
    assert!(t.contains("stack = \"unknown\""));
}
