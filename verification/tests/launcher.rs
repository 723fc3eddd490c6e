use launcher::decimal::decimal_string;
use launcher::launch::{
    dashboard_url, exit_code, from_path_error, from_start_error, launch_trace, LaunchError,
};
use launcher::paths::{node_binary_name, resolve_paths, Mode, PathError, Platform};
use launcher::prober::{wait_ready_trace, ProbeVerdict, Prober};
use launcher::supervisor::{plan_start, ServerProcess, StartError, StopAction};
use launcher::{MAX_ATTEMPTS, PORT, PROBE_INTERVAL_MS};

fn strings(parts: &[&str]) -> Vec<String> {
    parts.iter().map(|p| p.to_string()).collect()
}

#[test]
fn constants_match_the_deployment() {
    assert_eq!(PORT, 3000);
    assert_eq!(MAX_ATTEMPTS, 60);
    assert_eq!(PROBE_INTERVAL_MS, 500);
}

#[test]
fn ready_on_first_attempt() {
    assert!(wait_ready_trace(&vec![true], 60));
}

#[test]
fn ready_within_two_seconds_of_spawn() {
    // A stub listener that binds within 2 s answers by the fourth attempt
    // of the 500 ms schedule; the probe must report ready within the
    // 60-attempt budget.
    let trace = vec![false, false, false, true];
    assert!(wait_ready_trace(&trace, 60));
}

#[test]
fn never_listening_times_out_with_exit_code_one() {
    let trace = vec![false; 60];
    assert!(!wait_ready_trace(&trace, 60));
    assert_eq!(exit_code(&Err(LaunchError::ReadinessTimeout)), 1);
}

#[test]
fn success_on_the_last_budgeted_attempt_counts() {
    let mut trace = vec![false; 59];
    trace.push(true);
    assert!(wait_ready_trace(&trace, 60));
}

#[test]
fn success_after_the_budget_does_not_count() {
    let mut trace = vec![false; 60];
    trace.push(true);
    assert!(!wait_ready_trace(&trace, 60));
}

#[test]
fn zero_attempt_budget_never_reports_ready() {
    assert!(!wait_ready_trace(&vec![true], 0));
}

#[test]
fn prober_verdicts_follow_the_budget() {
    let mut p = Prober::new(2);
    assert_eq!(p.observe(false), ProbeVerdict::Retry);
    assert_eq!(p.observe(false), ProbeVerdict::TimedOut);
    let mut p = Prober::new(2);
    assert_eq!(p.observe(true), ProbeVerdict::Ready);
}

#[test]
fn dev_mode_resolves_under_the_working_directory() {
    let cwd = strings(&["home", "dev", "project"]);
    let paths = resolve_paths(&Mode::Development, &cwd, None, &Platform::Unix).unwrap();
    assert_eq!(
        paths.runtime_binary,
        strings(&["home", "dev", "project", "bundle", "runtime", "node"])
    );
    assert_eq!(
        paths.server_script,
        strings(&["home", "dev", "project", "bundle", "server", "server.js"])
    );
    assert_eq!(
        paths.server_dir,
        strings(&["home", "dev", "project", "bundle", "server"])
    );
}

#[test]
fn prod_mode_resolves_under_the_resource_directory() {
    let cwd = strings(&["home", "user"]);
    let resources = strings(&["opt", "app", "resources"]);
    let paths =
        resolve_paths(&Mode::Production, &cwd, Some(resources), &Platform::Unix).unwrap();
    assert_eq!(
        paths.runtime_binary,
        strings(&["opt", "app", "resources", "runtime", "node"])
    );
    assert_eq!(
        paths.server_script,
        strings(&["opt", "app", "resources", "server", "server.js"])
    );
    assert_eq!(paths.server_dir, strings(&["opt", "app", "resources", "server"]));
    // Nothing resolved under the working directory.
    assert_ne!(&paths.server_dir[..2], &strings(&["home", "user"])[..]);
}

#[test]
fn prod_mode_without_resource_dir_is_fatal() {
    let cwd = strings(&["home", "user"]);
    let r = resolve_paths(&Mode::Production, &cwd, None, &Platform::Unix);
    assert_eq!(r.unwrap_err(), PathError::ResourceDirUnavailable);
    assert_eq!(
        exit_code(&Err(from_path_error(&PathError::ResourceDirUnavailable))),
        1
    );
}

#[test]
fn node_binary_name_is_platform_specific() {
    assert_eq!(node_binary_name(&Platform::Windows), "node.exe");
    assert_eq!(node_binary_name(&Platform::Unix), "node");
}

#[test]
fn missing_runtime_refuses_to_spawn() {
    // Paths point at an empty directory: nothing is present, no command is
    // produced, and the failure names the runtime.
    let cwd = strings(&["tmp", "empty"]);
    let paths = resolve_paths(&Mode::Development, &cwd, None, &Platform::Unix).unwrap();
    let r = plan_start(paths, false, true, &Platform::Unix, PORT);
    assert_eq!(r.unwrap_err(), StartError::RuntimeMissing);
    assert_eq!(exit_code(&Err(from_start_error(&StartError::RuntimeMissing))), 1);
}

#[test]
fn missing_script_refuses_to_spawn() {
    let cwd = strings(&["tmp", "empty"]);
    let paths = resolve_paths(&Mode::Development, &cwd, None, &Platform::Unix).unwrap();
    let r = plan_start(paths, true, false, &Platform::Unix, PORT);
    assert_eq!(r.unwrap_err(), StartError::ServerMissing);
}

#[test]
fn both_missing_reports_the_runtime_first() {
    let cwd = strings(&["tmp", "empty"]);
    let paths = resolve_paths(&Mode::Development, &cwd, None, &Platform::Unix).unwrap();
    let r = plan_start(paths, false, false, &Platform::Unix, PORT);
    assert_eq!(r.unwrap_err(), StartError::RuntimeMissing);
}

#[test]
fn spawn_command_runs_the_runtime_on_the_script() {
    let root = strings(&["opt", "app", "resources"]);
    let paths =
        resolve_paths(&Mode::Production, &strings(&[]), Some(root), &Platform::Unix).unwrap();
    let cmd = plan_start(paths, true, true, &Platform::Unix, PORT).unwrap();
    assert_eq!(
        cmd.program,
        strings(&["opt", "app", "resources", "runtime", "node"])
    );
    assert_eq!(
        cmd.script_arg,
        strings(&["opt", "app", "resources", "server", "server.js"])
    );
    assert_eq!(cmd.working_dir, strings(&["opt", "app", "resources", "server"]));
    assert_eq!(cmd.node_env, "production");
    assert_eq!(cmd.port, 3000);
    assert!(cmd.pipe_stdio);
    assert!(!cmd.hide_console);
}

#[test]
fn console_window_is_suppressed_on_windows_only() {
    let mk = |platform: &Platform| {
        let root = strings(&["opt", "app", "resources"]);
        let paths =
            resolve_paths(&Mode::Production, &strings(&[]), Some(root), platform).unwrap();
        plan_start(paths, true, true, platform, PORT).unwrap()
    };
    assert!(mk(&Platform::Windows).hide_console);
    assert!(!mk(&Platform::Unix).hide_console);
    assert_eq!(
        mk(&Platform::Windows).program.last().unwrap(),
        "node.exe"
    );
}

#[test]
fn stop_twice_is_idempotent() {
    let mut sp = ServerProcess::new();
    sp.attach(4242);
    assert_eq!(sp.stop(), StopAction::KillChild(4242));
    assert_eq!(sp.stop(), StopAction::NoChild);
}

#[test]
fn stop_before_any_spawn_does_nothing() {
    // The shutdown hook may fire before the spawn bookkeeping finished: a
    // stop on a supervisor that holds no child requests nothing and does
    // not fail.
    let mut sp = ServerProcess::new();
    assert_eq!(sp.stop(), StopAction::NoChild);
    sp.attach(7);
    assert_eq!(sp.stop(), StopAction::KillChild(7));
}

#[test]
fn exit_codes_follow_the_outcome() {
    assert_eq!(exit_code(&Ok(())), 0);
    for e in [
        LaunchError::ResourceDirUnavailable,
        LaunchError::RuntimeMissing,
        LaunchError::ServerMissing,
        LaunchError::SpawnRefused,
        LaunchError::ReadinessTimeout,
    ] {
        assert_eq!(exit_code(&Err(e)), 1);
    }
}

#[test]
fn failure_messages_are_descriptive() {
    assert_eq!(
        LaunchError::RuntimeMissing.message(),
        "Node.js runtime not found"
    );
    assert_eq!(LaunchError::ServerMissing.message(), "Server not found");
    assert_eq!(
        LaunchError::ReadinessTimeout.message(),
        "Server timeout - check logs"
    );
    assert_eq!(LaunchError::SpawnRefused.message(), "Failed to start server");
    assert_eq!(
        LaunchError::ResourceDirUnavailable.message(),
        "resource directory unavailable"
    );
}

#[test]
fn full_launch_succeeds_when_server_binds_within_two_seconds() {
    // Runtime and script present, port free, and a stub listener bound
    // within 2 s of the spawn: ready by the fourth 500 ms attempt.
    let cwd = strings(&["home", "dev", "project"]);
    let trace = vec![false, false, false, true];
    let r = launch_trace(
        &Mode::Development,
        &cwd,
        None,
        &Platform::Unix,
        true,
        true,
        true,
        &trace,
        MAX_ATTEMPTS,
    );
    let cmd = r.unwrap();
    assert_eq!(
        cmd.program,
        strings(&["home", "dev", "project", "bundle", "runtime", "node"])
    );
    assert_eq!(cmd.port, PORT);
    assert_eq!(exit_code(&Ok(())), 0);
}

#[test]
fn full_launch_times_out_when_nothing_ever_listens() {
    let cwd = strings(&["home", "dev", "project"]);
    let trace = vec![false; 60];
    let r = launch_trace(
        &Mode::Development,
        &cwd,
        None,
        &Platform::Unix,
        true,
        true,
        true,
        &trace,
        MAX_ATTEMPTS,
    );
    let err = r.unwrap_err();
    assert_eq!(err, LaunchError::ReadinessTimeout);
    assert_eq!(exit_code(&Err(err)), 1);
}

#[test]
fn full_launch_aborts_before_spawning_when_runtime_is_missing() {
    let cwd = strings(&["home", "dev", "project"]);
    // The probe trace would report ready, but the launch must never get
    // that far: the missing runtime aborts it first.
    let trace = vec![true];
    let r = launch_trace(
        &Mode::Development,
        &cwd,
        None,
        &Platform::Unix,
        false,
        true,
        true,
        &trace,
        MAX_ATTEMPTS,
    );
    let err = r.unwrap_err();
    assert_eq!(err, LaunchError::RuntimeMissing);
    assert_eq!(exit_code(&Err(err)), 1);
}

#[test]
fn full_launch_reports_a_refused_spawn() {
    let cwd = strings(&["home", "dev", "project"]);
    let r = launch_trace(
        &Mode::Development,
        &cwd,
        None,
        &Platform::Unix,
        true,
        true,
        false,
        &vec![true],
        MAX_ATTEMPTS,
    );
    assert_eq!(r.unwrap_err(), LaunchError::SpawnRefused);
}

#[test]
fn full_launch_in_production_needs_the_resource_dir() {
    let cwd = strings(&["home", "user"]);
    let r = launch_trace(
        &Mode::Production,
        &cwd,
        None,
        &Platform::Unix,
        true,
        true,
        true,
        &vec![true],
        MAX_ATTEMPTS,
    );
    assert_eq!(r.unwrap_err(), LaunchError::ResourceDirUnavailable);
}

#[test]
fn port_renders_as_decimal_digits() {
    assert_eq!(decimal_string(PORT), "3000");
    assert_eq!(decimal_string(0), "0");
    assert_eq!(decimal_string(7), "7");
    assert_eq!(decimal_string(u16::MAX), "65535");
}

#[test]
fn dashboard_url_names_the_local_port() {
    assert_eq!(dashboard_url(PORT), "http://127.0.0.1:3000");
    assert_eq!(dashboard_url(80), "http://127.0.0.1:80");
}
