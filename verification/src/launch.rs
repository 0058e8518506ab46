//! What a launch of the worker looks like, and how a start can fail.

use crate::paths::ResolvedPaths;
use vstd::prelude::*;
use vstd::string::*;

verus! {

/// What becomes of one of the worker's output streams.
#[derive(Clone, Copy, Debug, PartialEq, Eq, Structural)]
pub enum StreamPolicy {
    /// The stream is thrown away.
    Discard,
    /// The stream goes where the host's own stream goes.
    Inherit,
}

/// One variable of the worker's environment.
#[derive(Clone, Debug, PartialEq, Eq)]
pub struct EnvVar {
    pub name: String,
    pub value: String,
}

/// Everything the caller needs to spawn the worker.
#[derive(Clone, Debug, PartialEq, Eq)]
pub struct LaunchPlan {
    /// The runtime that executes the worker.
    pub program: String,
    /// The runtime's single argument: the worker's entrypoint.
    pub script: String,
    /// The variables added to the worker's environment, in order.
    pub env: Vec<EnvVar>,
    pub stdout: StreamPolicy,
    pub stderr: StreamPolicy,
}

/// Why a start did not leave a running worker behind.
#[derive(Clone, Debug, PartialEq, Eq)]
pub enum StartError {
    /// The supervisor's state could not be locked.
    LockUnavailable,
    /// Nothing exists at the entrypoint, whose path is carried.
    MissingEntrypoint(String),
    /// The operating system refused to create the process; its description is carried.
    SpawnFailed(String),
}

/// The runtime that executes the worker.
pub open spec fn worker_program() -> Seq<char> {
    "node"@
}

/// The variables a supervised worker is started with: the port it binds,
/// the directory it finds its files under, and the marker that tells it that
/// it runs supervised.
pub open spec fn worker_env(resource_root: Seq<char>) -> Seq<(Seq<char>, Seq<char>)> {
    seq![
        ("LOCAL_API_PORT"@, "46123"@),
        ("LOCAL_API_RESOURCE_DIR"@, resource_root),
        ("LOCAL_API_MODE"@, "tauri-sidecar"@),
    ]
}

impl LaunchPlan {
    /// The environment as pairs of name and value.
    pub open spec fn env_pairs(&self) -> Seq<(Seq<char>, Seq<char>)> {
        Seq::new(self.env@.len(), |i: int| (self.env@[i].name@, self.env@[i].value@))
    }

    /// Whether this is the launch of the worker at `entrypoint` with the given
    /// resource root: the fixed runtime, the entrypoint as its argument, the
    /// supervised environment, standard output discarded and standard error
    /// inherited.
    pub open spec fn launches(&self, entrypoint: Seq<char>, resource_root: Seq<char>) -> bool {
        &&& self.program@ == worker_program()
        &&& self.script@ == entrypoint
        &&& self.env_pairs() == worker_env(resource_root)
        &&& self.stdout == StreamPolicy::Discard
        &&& self.stderr == StreamPolicy::Inherit
    }
}

impl StartError {
    /// The text shown to the operator.
    pub open spec fn message_text(&self) -> Seq<char> {
        match self {
            StartError::LockUnavailable => "Failed to lock local API state"@,
            StartError::MissingEntrypoint(path) => "Local API sidecar script missing at "@ + path@,
            StartError::SpawnFailed(reason) => "Failed to launch local API: "@ + reason@,
        }
    }

    /// The text shown to the operator.
    pub fn message(&self) -> (text: String)
        ensures
            text@ == self.message_text(),
    {
        match self {
            StartError::LockUnavailable => String::from_str("Failed to lock local API state"),
            StartError::MissingEntrypoint(path) => String::from_str(
                "Local API sidecar script missing at ",
            ).concat(path.as_str()),
            StartError::SpawnFailed(reason) => String::from_str(
                "Failed to launch local API: ",
            ).concat(reason.as_str()),
        }
    }
}

/// Decides what follows the probe of the entrypoint.
///
/// With the entrypoint in place the worker's launch is handed out; without it
/// the start fails and names the path that was probed. Nothing is launched and
/// no state is touched here.
pub fn prepare_launch(paths: ResolvedPaths, entrypoint_exists: bool) -> (plan: Result<
    LaunchPlan,
    StartError,
>)
    ensures
        if entrypoint_exists {
            plan matches Ok(launch) && launch.launches(paths.entrypoint@, paths.resource_root@)
        } else {
            plan matches Err(StartError::MissingEntrypoint(path)) && path@ == paths.entrypoint@
        },
{
    if !entrypoint_exists {
        return Err(StartError::MissingEntrypoint(paths.entrypoint));
    }
    let mut env: Vec<EnvVar> = Vec::new();
    env.push(
        EnvVar { name: String::from_str("LOCAL_API_PORT"), value: String::from_str("46123") },
    );
    env.push(EnvVar { name: String::from_str("LOCAL_API_RESOURCE_DIR"), value: paths.resource_root });
    env.push(
        EnvVar { name: String::from_str("LOCAL_API_MODE"), value: String::from_str("tauri-sidecar") },
    );
    let launch = LaunchPlan {
        program: String::from_str("node"),
        script: paths.entrypoint,
        env,
        stdout: StreamPolicy::Discard,
        stderr: StreamPolicy::Inherit,
    };
    assert(launch.env_pairs() =~= worker_env(paths.resource_root@));
    Ok(launch)
}

} // verus!
