//! Launch outcome: the one error taxonomy the launcher reports, and the
//! process exit code owed for each outcome. Every failure is fatal and
//! never retried; a readiness timeout is an expected, reportable outcome,
//! not a crash.
use vstd::prelude::*;
use vstd::string::StringExecFns;

use crate::decimal::{append_decimal, dec_rep};
use crate::paths::{comps, development_root, resolve_paths, Mode, PathError, Platform};
use crate::prober::{ready_within, wait_ready_trace};
use crate::supervisor::{plan_start, SpawnCommand, StartError};
use crate::PORT;

verus! {

/// Everything that can abort a launch.
#[derive(PartialEq, Eq, Structural, Debug, Clone, Copy)]
pub enum LaunchError {
    /// The installed resource directory could not be determined.
    ResourceDirUnavailable,
    /// The runtime binary is absent from its resolved path.
    RuntimeMissing,
    /// The server script is absent from its resolved path.
    ServerMissing,
    /// The operating system refused to create the process.
    SpawnRefused,
    /// The server never accepted a connection within the probe budget.
    ReadinessTimeout,
}

/// The launch error a path-resolution failure aborts with.
pub fn from_path_error(e: &PathError) -> (r: LaunchError)
    ensures
        r == LaunchError::ResourceDirUnavailable,
{
    match e {
        PathError::ResourceDirUnavailable => LaunchError::ResourceDirUnavailable,
    }
}

/// The launch error a start refusal aborts with.
pub fn from_start_error(e: &StartError) -> (r: LaunchError)
    ensures
        *e is RuntimeMissing ==> r == LaunchError::RuntimeMissing,
        *e is ServerMissing ==> r == LaunchError::ServerMissing,
{
    match e {
        StartError::RuntimeMissing => LaunchError::RuntimeMissing,
        StartError::ServerMissing => LaunchError::ServerMissing,
    }
}

impl LaunchError {
    /// The diagnostic line reported on standard error for this failure.
    pub fn message(&self) -> (m: String)
        ensures
            *self is ResourceDirUnavailable ==> m@ == "resource directory unavailable"@,
            *self is RuntimeMissing ==> m@ == "Node.js runtime not found"@,
            *self is ServerMissing ==> m@ == "Server not found"@,
            *self is SpawnRefused ==> m@ == "Failed to start server"@,
            *self is ReadinessTimeout ==> m@ == "Server timeout - check logs"@,
    {
        match self {
            LaunchError::ResourceDirUnavailable => "resource directory unavailable".to_owned(),
            LaunchError::RuntimeMissing => "Node.js runtime not found".to_owned(),
            LaunchError::ServerMissing => "Server not found".to_owned(),
            LaunchError::SpawnRefused => "Failed to start server".to_owned(),
            LaunchError::ReadinessTimeout => "Server timeout - check logs".to_owned(),
        }
    }
}

/// The resource root a launch resolves against: the development root under
/// the working directory, or the installed resource directory.
pub open spec fn launch_root(
    mode: Mode,
    cwd: Seq<String>,
    resource_dir: Option<Vec<String>>,
) -> Seq<Seq<char>> {
    match mode {
        Mode::Development => development_root(comps(cwd)),
        Mode::Production => comps(resource_dir.unwrap()@),
    }
}

/// Replay one whole launch from the events the operating system would
/// deliver: whether the two bundled files are present, whether the spawn
/// call succeeded, and the outcome of each readiness-probe attempt. The
/// launch succeeds exactly when every stage does, and otherwise aborts with
/// the first stage's failure; on success the command it spawned is returned.
pub fn launch_trace(
    mode: &Mode,
    cwd: &Vec<String>,
    resource_dir: Option<Vec<String>>,
    platform: &Platform,
    runtime_present: bool,
    script_present: bool,
    spawn_succeeds: bool,
    probe_outcomes: &Vec<bool>,
    max_attempts: u32,
) -> (r: Result<SpawnCommand, LaunchError>)
    ensures
        r is Ok <==> ((mode is Production ==> resource_dir is Some) && runtime_present
            && script_present && spawn_succeeds && ready_within(
            probe_outcomes@,
            max_attempts as nat,
        )),
        r is Ok ==> r.unwrap().command_for(
            launch_root(*mode, cwd@, resource_dir),
            *platform,
            PORT,
        ),
        mode is Production && resource_dir is None ==> r == Err::<SpawnCommand, LaunchError>(
            LaunchError::ResourceDirUnavailable,
        ),
        (mode is Development || resource_dir is Some) ==> {
            &&& !runtime_present ==> r == Err::<SpawnCommand, LaunchError>(
                LaunchError::RuntimeMissing,
            )
            &&& runtime_present && !script_present ==> r == Err::<SpawnCommand, LaunchError>(
                LaunchError::ServerMissing,
            )
            &&& runtime_present && script_present && !spawn_succeeds ==> r == Err::<
                SpawnCommand,
                LaunchError,
            >(LaunchError::SpawnRefused)
            &&& runtime_present && script_present && spawn_succeeds && !ready_within(
                probe_outcomes@,
                max_attempts as nat,
            ) ==> r == Err::<SpawnCommand, LaunchError>(LaunchError::ReadinessTimeout)
        },
{
    let paths = match resolve_paths(mode, cwd, resource_dir, platform) {
        Ok(p) => p,
        Err(e) => {
            return Err(from_path_error(&e));
        },
    };
    let cmd = match plan_start(paths, runtime_present, script_present, platform, PORT) {
        Ok(c) => c,
        Err(e) => {
            return Err(from_start_error(&e));
        },
    };
    if !spawn_succeeds {
        return Err(LaunchError::SpawnRefused);
    }
    if wait_ready_trace(probe_outcomes, max_attempts) {
        Ok(cmd)
    } else {
        Err(LaunchError::ReadinessTimeout)
    }
}

/// The local address the ready dashboard is reachable at.
pub fn dashboard_url(port: u16) -> (s: String)
    ensures
        s@ == "http://127.0.0.1:"@ + dec_rep(port as nat),
{
    let mut s = String::from_str("http://127.0.0.1:");
    append_decimal(port, &mut s);
    s
}

/// The process exit code for a launch outcome: zero exactly on success, one
/// on every failure.
pub fn exit_code(outcome: &Result<(), LaunchError>) -> (c: i32)
    ensures
        c == 0 <==> outcome is Ok,
        outcome is Err ==> c == 1,
{
    match outcome {
        Ok(()) => 0,
        Err(_) => 1,
    }
}

} // verus!
