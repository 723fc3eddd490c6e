//! Process supervisor: plans how the server process is spawned and owns the
//! bookkeeping for terminating it.
//!
//! The application performs the actual filesystem checks, the spawn, and the
//! kill; this module decides whether a spawn may happen at all, what exact
//! command it uses, and whether a stop request has anything left to kill.
use vstd::prelude::*;

use crate::paths::{comps, node_binary_spec, Platform, ResourcePaths};

verus! {

/// Everything the application needs to spawn the server process: the
/// program, its single argument, its working directory, its environment,
/// and how its windows and streams are treated.
#[derive(Debug)]
pub struct SpawnCommand {
    /// Path of the runtime binary to execute, as components.
    pub program: Vec<String>,
    /// Path of the server script, handed to the runtime as its one argument.
    pub script_arg: Vec<String>,
    /// Working directory of the child, as components.
    pub working_dir: Vec<String>,
    /// Value of the `NODE_ENV` environment variable.
    pub node_env: String,
    /// TCP port the child must listen on, passed as the `PORT` variable.
    pub port: u16,
    /// Capture the child's standard output and error instead of inheriting.
    pub pipe_stdio: bool,
    /// Suppress a visible console window (Windows only).
    pub hide_console: bool,
}

impl SpawnCommand {
    /// The command spawns the server bundled under `root`: it runs the
    /// bundled runtime on the bundled script, inside the server directory,
    /// in a production environment on the given port, with captured output
    /// streams and the console window suppressed on Windows.
    pub open spec fn command_for(self, root: Seq<Seq<char>>, platform: Platform, port: u16) -> bool {
        &&& comps(self.program@) == root.push("runtime"@).push(node_binary_spec(platform))
        &&& comps(self.script_arg@) == root.push("server"@).push("server.js"@)
        &&& comps(self.working_dir@) == root.push("server"@)
        &&& self.node_env@ == "production"@
        &&& self.port == port
        &&& self.pipe_stdio
        &&& (self.hide_console <==> platform is Windows)
    }
}

/// Why `plan_start` refused to spawn.
#[derive(PartialEq, Eq, Structural, Debug, Clone, Copy)]
pub enum StartError {
    /// The runtime binary is absent from its resolved path.
    RuntimeMissing,
    /// The server script is absent from its resolved path.
    ServerMissing,
}

/// Decide whether the server may be spawned and, if so, with what command.
/// A command is produced exactly when both the runtime binary and the server
/// script are present at their resolved paths; otherwise the missing file is
/// reported and nothing is spawned. The command runs the runtime on the
/// script, inside the server directory, with a production environment and
/// the fixed port, with captured output streams, and with the console
/// window suppressed on Windows.
pub fn plan_start(paths: ResourcePaths, runtime_present: bool, script_present: bool, platform: &Platform, port: u16) -> (r:
    Result<SpawnCommand, StartError>)
    ensures
        r is Ok <==> runtime_present && script_present,
        !runtime_present ==> r == Err::<SpawnCommand, StartError>(StartError::RuntimeMissing),
        runtime_present && !script_present ==> r == Err::<SpawnCommand, StartError>(
            StartError::ServerMissing,
        ),
        r is Ok ==> {
            let cmd = r.unwrap();
            &&& comps(cmd.program@) == comps(paths.runtime_binary@)
            &&& comps(cmd.script_arg@) == comps(paths.server_script@)
            &&& comps(cmd.working_dir@) == comps(paths.server_dir@)
            &&& cmd.node_env@ == "production"@
            &&& cmd.port == port
            &&& cmd.pipe_stdio
            &&& (cmd.hide_console <==> *platform is Windows)
        },
{
    if !runtime_present {
        return Err(StartError::RuntimeMissing);
    }
    if !script_present {
        return Err(StartError::ServerMissing);
    }
    let hide_console = match platform {
        Platform::Windows => true,
        Platform::Unix => false,
    };
    Ok(
        SpawnCommand {
            program: paths.runtime_binary,
            script_arg: paths.server_script,
            working_dir: paths.server_dir,
            node_env: "production".to_owned(),
            port,
            pipe_stdio: true,
            hide_console,
        },
    )
}

/// What the application must do with the operating-system child after a
/// stop request: kill the named child, or nothing, because none is held.
#[derive(PartialEq, Eq, Structural, Debug, Clone, Copy)]
pub enum StopAction {
    /// Send the kill signal to the child with this identifier. A failure to
    /// kill (the process already exited) is swallowed, never surfaced.
    KillChild(u64),
    /// No child is held: either none was ever attached or it was already
    /// stopped. Nothing happens.
    NoChild,
}

/// Bookkeeping for the one supervised child process. Holds the identifier
/// of the running child, or nothing both before a child is attached and
/// after a stop; the application keeps the operating-system handle beside
/// it, under the same mutual-exclusion lock.
pub struct ServerProcess {
    pub child: Option<u64>,
}

/// The stop transition: it drops the held child, and requests a kill
/// exactly when a child was held.
pub open spec fn spec_stop(s: ServerProcess) -> (ServerProcess, StopAction) {
    match s.child {
        Some(id) => (ServerProcess { child: None }, StopAction::KillChild(id)),
        None => (ServerProcess { child: None }, StopAction::NoChild),
    }
}

impl ServerProcess {
    /// A supervisor that holds no child yet.
    pub fn new() -> (s: ServerProcess)
        ensures
            s.child is None,
    {
        ServerProcess { child: None }
    }

    /// Record the identifier of the freshly spawned child.
    pub fn attach(&mut self, child_id: u64)
        requires
            old(self).child is None,
        ensures
            final(self).child == Some(child_id),
    {
        self.child = Some(child_id);
    }

    /// Request termination of the supervised child. Never blocks on the
    /// child and never fails: when no child is held (never started, or
    /// already stopped) there is simply nothing to do.
    pub fn stop(&mut self) -> (a: StopAction)
        ensures
            (*final(self), a) == spec_stop(*old(self)),
            final(self).child is None,
            old(self).child is Some <==> a == StopAction::KillChild(old(self).child.unwrap()),
            old(self).child is None <==> a == StopAction::NoChild,
    {
        let a = match self.child {
            Some(id) => StopAction::KillChild(id),
            None => StopAction::NoChild,
        };
        self.child = None;
        a
    }
}

/// Stopping is idempotent: one stop leaves the supervisor holding no child,
/// so a second stop (or a stop after the child already exited and was
/// stopped once) requests nothing further and changes nothing.
pub proof fn lemma_stop_idempotent(s: ServerProcess)
    ensures
        spec_stop(spec_stop(s).0).1 == StopAction::NoChild,
        spec_stop(spec_stop(s).0).0 == spec_stop(s).0,
{
}

} // verus!
