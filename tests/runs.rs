use smoke_harness::catalog::{catalog, legacy_run_disables_daemon, plan, Scenario, Step};
use smoke_harness::fixtures::{
    bin_name_expectation, config_override_env, fixture_is_cached, issue_link,
    prepend_search_path, tools_goals,
};
use smoke_harness::platform::{Platform, Requirement};
use smoke_harness::request::{ExecutionError, ExecutionRequest, ExecutionResult};
use smoke_harness::runner::RunState;
use smoke_harness::assertion::{assert_empty, Stream};
use smoke_harness::text::decode_output;

#[test]
fn issue_links() {
    assert_eq!(issue_link(129), "https://github.com/pantsbuild/scie-pants/issues/129");
    assert_eq!(issue_link(0), "https://github.com/pantsbuild/scie-pants/issues/0");
    assert_eq!(issue_link(182), "https://github.com/pantsbuild/scie-pants/issues/182");
}

#[test]
fn platform_detection() {
    assert_eq!(Platform::from_os_arch("linux", "x86_64"), Some(Platform::LinuxX86_64));
    assert_eq!(Platform::from_os_arch("macos", "aarch64"), Some(Platform::MacOSAarch64));
    assert_eq!(Platform::from_os_arch("windows", "x86_64"), Some(Platform::WindowsX86_64));
    assert_eq!(Platform::from_os_arch("freebsd", "x86_64"), None);
}

#[test]
fn requirements_by_platform() {
    assert!(Requirement::ModernWheels.applies(Platform::MacOSAarch64));
    assert!(!Requirement::ModernWheels.applies(Platform::LinuxAarch64));
    assert!(!Requirement::LegacyWheels.applies(Platform::MacOSAarch64));
    assert!(Requirement::LegacyWheels.applies(Platform::MacOSX86_64));
    assert!(Requirement::Any.applies(Platform::WindowsX86_64));
}

#[test]
fn plan_keeps_exactly_applicable_steps() {
    for p in [
        Platform::LinuxAarch64,
        Platform::LinuxX86_64,
        Platform::MacOSAarch64,
        Platform::MacOSX86_64,
        Platform::WindowsX86_64,
    ] {
        let planned = plan(p);
        for s in catalog() {
            assert_eq!(planned.contains(&s), s.requirement().applies(p));
        }
    }
}

#[test]
fn plan_on_linux_aarch64_only_updates() {
    assert_eq!(
        plan(Platform::LinuxAarch64),
        vec![Step::Run(Scenario::SelfUpdate), Step::Run(Scenario::SelfDowngrade)]
    );
}

#[test]
fn plan_on_linux_x86_64_runs_everything() {
    let planned = plan(Platform::LinuxX86_64);
    assert_eq!(planned, catalog());
    assert_eq!(planned.len(), 22);
    assert_eq!(planned[5], Step::DisableDaemon);
}

#[test]
fn plan_on_macos_aarch64_skips_toggle_and_legacy() {
    let planned = plan(Platform::MacOSAarch64);
    assert!(!planned.contains(&Step::DisableDaemon));
    assert!(!planned.contains(&Step::Run(Scenario::Python38UsedForOldPants)));
    assert_eq!(planned.len(), 20);
    assert_eq!(planned[0], Step::Run(Scenario::Tools));
}

#[test]
fn legacy_daemon_flag() {
    assert!(legacy_run_disables_daemon(Platform::MacOSX86_64));
    assert!(!legacy_run_disables_daemon(Platform::LinuxX86_64));
}

#[test]
fn runner_passes_when_all_pass() {
    let mut s = RunState::start(3);
    assert_eq!(s.current(), Some(0));
    for _ in 0..3 {
        s = s.advance(3, true);
    }
    assert_eq!(s, RunState::Passed);
    assert_eq!(s.current(), None);
}

#[test]
fn runner_stops_at_first_failure() {
    let s = RunState::start(4).advance(4, true).advance(4, false);
    assert_eq!(s, RunState::Failed(1));
    assert_eq!(s.advance(4, true), RunState::Failed(1));
    assert_eq!(s.current(), None);
}

#[test]
fn runner_with_no_steps_passes() {
    assert_eq!(RunState::start(0), RunState::Passed);
    assert_eq!(RunState::NotStarted.advance(2, true), RunState::NotStarted);
}

#[test]
fn fixture_strings() {
    assert_eq!(
        bin_name_expectation("./bar"),
        "current value: ./bar (from env var PANTS_BIN_NAME)"
    );
    assert_eq!(prepend_search_path("/tmp/bin", Some("/usr/bin:/bin"), ":"), "/tmp/bin:/usr/bin:/bin");
    assert_eq!(prepend_search_path("/tmp/bin", None, ":"), "/tmp/bin");
    assert_eq!(
        config_override_env("/x/pants.toml"),
        "\nexport PANTS_TOML=/x/pants.toml\nexport PANTS_CONFIG_FILES=${PANTS_TOML}\n"
    );
}

#[test]
fn fixture_cache_and_goals() {
    assert!(fixture_is_cached(true, true));
    assert!(!fixture_is_cached(true, false));
    assert!(!fixture_is_cached(false, true));
    assert_eq!(tools_goals(true), vec!["lint", "check", "test", "package", "::"]);
    assert_eq!(tools_goals(false), vec!["fmt", "lint", "check", "test", "package", "::"]);
}

#[test]
fn request_builders() {
    let mut r = ExecutionRequest::new("scie-pants");
    r.env("PANTS_VERSION", "2.12.1");
    r.env("PANTS_VERSION", "2.13.0");
    r.arg("--no-verify-config");
    r.arg("-V");
    r.current_dir("/work");
    r.stdin(b"yes".to_vec());
    r.capture(false, true);
    assert_eq!(r.program, "scie-pants");
    assert_eq!(r.args, vec!["--no-verify-config".to_string(), "-V".to_string()]);
    assert_eq!(r.env.last().unwrap(), &("PANTS_VERSION".to_string(), "2.13.0".to_string()));
    assert_eq!(r.current_dir.as_deref(), Some("/work"));
    assert_eq!(r.stdin.as_deref(), Some(&b"yes"[..]));
    assert!(!r.capture_stdout && r.capture_stderr);
}

#[test]
fn old_version_scenario_needs_success_and_no_warnings() {
    // PANTS_VERSION=2.12.1 with `--no-verify-config -V`: exit zero, nothing on stderr.
    let mut r = ExecutionRequest::new("scie-pants");
    r.env("PANTS_VERSION", "2.12.1");
    r.arg("--no-verify-config");
    r.arg("-V");
    r.capture(false, true);
    let quiet = ExecutionResult { exit_code: Some(0), stdout: vec![], stderr: vec![] };
    assert!(quiet.require_success(&r.program).is_ok());
    assert!(assert_empty(Stream::Stderr, &decode_output(quiet.stderr.clone()).unwrap()).is_ok());
    let warned = ExecutionResult { exit_code: Some(0), stdout: vec![], stderr: b"WARN repos".to_vec() };
    assert!(assert_empty(Stream::Stderr, &decode_output(warned.stderr.clone()).unwrap()).is_err());
}

#[test]
fn nonzero_exit_is_failure() {
    let failed = ExecutionResult { exit_code: Some(2), stdout: vec![], stderr: vec![] };
    match failed.require_success("pants") {
        Err(ExecutionError::Failed { program, exit_code }) => {
            assert_eq!(program, "pants");
            assert_eq!(exit_code, Some(2));
        }
        other => panic!("unexpected result: {other:?}"),
    }
    let signalled = ExecutionResult { exit_code: None, stdout: vec![], stderr: vec![] };
    assert!(signalled.require_success("pants").is_err());
}
