//! The supervisor's state and the decisions of its two operations.
//!
//! A start runs in three steps, between which the caller does the outside
//! work: `begin_start` decides whether anything has to be launched,
//! `prepare_launch` decides what follows the probe of the entrypoint, and
//! `finish_start` records what the spawn gave. A stop is one step: it empties
//! the slot and hands out the handle that has to be terminated. The caller
//! keeps the state exclusively borrowed for the length of an operation.

use crate::launch::StartError;
use crate::paths::{
    dir_or_fallback, local_api_paths, resolved_entrypoint, resolved_resource_root, BuildMode,
    ResolvedPaths,
};
use vstd::prelude::*;

verus! {

/// The single owner of the worker's handle. `H` is whatever the caller uses to
/// control a spawned process.
pub struct Supervisor<H> {
    child: Option<H>,
}

impl<H> View for Supervisor<H> {
    type V = Option<H>;

    /// The handle that is tracked, if any. There is never more than one.
    closed spec fn view(&self) -> Option<H> {
        self.child
    }
}

impl<H> Default for Supervisor<H> {
    /// A supervisor that tracks nothing.
    fn default() -> (fresh: Self)
        ensures
            fresh@ is None,
    {
        Supervisor { child: None }
    }
}

/// What a start has to do next.
#[derive(Clone, Debug, PartialEq, Eq)]
pub enum StartStep {
    /// A worker is tracked already: the start is done and has succeeded.
    AlreadyRunning,
    /// No worker is tracked: probe the entrypoint of these paths and go on
    /// with `prepare_launch`.
    CheckEntrypoint(ResolvedPaths),
}

/// Whether a start on a slot in this state has to launch a worker.
pub open spec fn spawn_needed<H>(slot: Option<H>) -> bool {
    slot is None
}

/// The slot after a spawn that was made for it has returned: a new handle is
/// tracked, and a failure leaves the slot as it was. It is meant for a slot
/// that needed the spawn.
pub open spec fn slot_after_spawn<H>(slot: Option<H>, outcome: Result<H, String>) -> Option<H> {
    match outcome {
        Ok(handle) => Some(handle),
        Err(_) => slot,
    }
}

/// The handle that a stop on a slot in this state has to terminate.
pub open spec fn handle_to_kill<H>(slot: Option<H>) -> Option<H> {
    slot
}

/// The slot after a stop.
pub open spec fn slot_after_stop<H>(slot: Option<H>) -> Option<H> {
    None
}

impl<H> Supervisor<H> {
    /// A supervisor that tracks nothing.
    pub fn new() -> (fresh: Self)
        ensures
            fresh@ is None,
    {
        Supervisor { child: None }
    }

    /// Whether a worker is tracked.
    pub fn is_running(&self) -> (running: bool)
        ensures
            running == self@ is Some,
    {
        self.child.is_some()
    }

    /// Records what the spawn gave.
    ///
    /// A handle is stored and the start has succeeded. A failure is reported
    /// with the operating system's description, and nothing is stored. A
    /// handle is only ever stored into an empty slot: a spawn is made only
    /// after `begin_start` found the slot empty, with the state still held.
    pub fn finish_start(&mut self, outcome: Result<H, String>) -> (done: Result<(), StartError>)
        requires
            outcome is Ok ==> old(self)@ is None,
        ensures
            final(self)@ == slot_after_spawn(old(self)@, outcome),
            match outcome {
                Ok(_) => done is Ok,
                Err(reason) => done matches Err(StartError::SpawnFailed(text)) && text@ == reason@,
            },
    {
        match outcome {
            Ok(handle) => {
                self.child = Some(handle);
                Ok(())
            },
            Err(reason) => Err(StartError::SpawnFailed(reason)),
        }
    }
}

/// The first step of a start.
///
/// `access` is the supervisor's state, or `None` where there is no state or
/// its lock could not be taken, which is an error. With a worker tracked there
/// is nothing to do. Otherwise the paths are resolved for the probe of the
/// entrypoint.
pub fn begin_start<H>(
    access: Option<&Supervisor<H>>,
    mode: BuildMode,
    source_root: &str,
    resource_dir: Option<&str>,
) -> (step: Result<StartStep, StartError>)
    ensures
        match access {
            None => step matches Err(StartError::LockUnavailable),
            Some(state) => if spawn_needed(state@) {
                step matches Ok(StartStep::CheckEntrypoint(paths)) && paths.entrypoint@
                    == resolved_entrypoint(mode, source_root@, dir_or_fallback(resource_dir))
                    && paths.resource_root@ == resolved_resource_root(
                    mode,
                    source_root@,
                    dir_or_fallback(resource_dir),
                )
            } else {
                step matches Ok(StartStep::AlreadyRunning)
            },
        },
{
    match access {
        None => Err(StartError::LockUnavailable),
        Some(state) => {
            if state.is_running() {
                Ok(StartStep::AlreadyRunning)
            } else {
                Ok(StartStep::CheckEntrypoint(local_api_paths(mode, source_root, resource_dir)))
            }
        },
    }
}

/// Empties the slot and hands out the handle that has to be terminated.
///
/// `access` is the supervisor's state, or `None` where there is no state or
/// its lock could not be taken: then nothing happens. A stop never fails.
pub fn stop_local_api<H>(access: Option<&mut Supervisor<H>>) -> (doomed: Option<H>)
    ensures
        match access {
            None => doomed is None,
            Some(state) => doomed == handle_to_kill(state@) && final(state)@ == slot_after_stop(
                state@,
            ),
        },
{
    match access {
        None => None,
        Some(state) => state.child.take(),
    }
}

/// A start that had to launch and whose spawn succeeded leaves exactly the
/// new handle tracked, and a start on that slot launches nothing: however
/// often a start is repeated, one worker runs.
pub proof fn lemma_start_is_idempotent<H>(slot: Option<H>, handle: H)
    requires
        spawn_needed(slot),
    ensures
        slot_after_spawn(slot, Ok(handle)) == Some(handle),
        !spawn_needed(slot_after_spawn(slot, Ok(handle))),
{
}

/// A second stop finds nothing to terminate and leaves the slot as the first
/// one left it: empty.
pub proof fn lemma_stop_is_idempotent<H>(slot: Option<H>)
    ensures
        slot_after_stop(slot) is None,
        handle_to_kill(slot_after_stop(slot)) is None,
        slot_after_stop(slot_after_stop(slot)) == slot_after_stop(slot),
{
}

/// After a successful start on an empty slot, a stop terminates the handle
/// that the start stored and empties the slot, and the next start launches a
/// worker again.
pub proof fn lemma_start_stop_cycle<H>(handle: H)
    ensures
        handle_to_kill(slot_after_spawn(None, Ok(handle))) == Some(handle),
        slot_after_stop(slot_after_spawn(None, Ok(handle))) is None,
        spawn_needed(slot_after_stop(slot_after_spawn(None, Ok(handle)))),
{
}

/// A spawn that failed leaves the slot as it was: nothing new is tracked.
pub proof fn lemma_failed_spawn_keeps_slot<H>(slot: Option<H>, reason: String)
    ensures
        slot_after_spawn(slot, Err(reason)) == slot,
{
}

} // verus!
