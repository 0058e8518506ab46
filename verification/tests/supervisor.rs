use local_api_supervisor::launch::{prepare_launch, StartError};
use local_api_supervisor::paths::BuildMode;
use local_api_supervisor::supervisor::{begin_start, stop_local_api, StartStep, Supervisor};

/// Runs a whole start against a pretended filesystem and a pretended spawn,
/// and counts the spawns in `spawned`.
fn run_start(
    state: &mut Supervisor<u32>,
    entrypoint_exists: bool,
    spawn: Result<u32, String>,
    spawned: &mut u32,
) -> Result<(), StartError> {
    let step = begin_start(
        Some(&*state),
        BuildMode::Packaged,
        "/src/app",
        Some("/opt/app/resources"),
    )?;
    match step {
        StartStep::AlreadyRunning => Ok(()),
        StartStep::CheckEntrypoint(paths) => {
            prepare_launch(paths, entrypoint_exists)?;
            *spawned += 1;
            state.finish_start(spawn)
        }
    }
}

#[test]
fn new_supervisor_tracks_nothing() {
    let state: Supervisor<u32> = Supervisor::new();
    assert!(!state.is_running());
    let by_default: Supervisor<u32> = Supervisor::default();
    assert!(!by_default.is_running());
}

#[test]
fn first_start_resolves_the_paths_to_probe() {
    let state: Supervisor<u32> = Supervisor::new();
    let step = begin_start(Some(&state), BuildMode::Development, "/src/app", None);
    match step {
        Ok(StartStep::CheckEntrypoint(paths)) => {
            assert_eq!(paths.entrypoint, "/src/app/sidecar/local-api-server.mjs");
            assert_eq!(paths.resource_root, "/src");
        }
        other => panic!("unexpected step: {:?}", other),
    }
}

#[test]
fn start_twice_spawns_once() {
    let mut state: Supervisor<u32> = Supervisor::new();
    let mut spawned = 0;
    assert_eq!(run_start(&mut state, true, Ok(41), &mut spawned), Ok(()));
    assert_eq!(run_start(&mut state, true, Ok(42), &mut spawned), Ok(()));
    assert_eq!(spawned, 1);
    assert!(state.is_running());
    assert_eq!(stop_local_api(Some(&mut state)), Some(41));
}

#[test]
fn start_on_a_running_worker_is_done_at_once() {
    let mut state: Supervisor<u32> = Supervisor::new();
    assert_eq!(state.finish_start(Ok(7)), Ok(()));
    let step = begin_start(Some(&state), BuildMode::Packaged, "/src/app", None);
    assert_eq!(step, Ok(StartStep::AlreadyRunning));
}

#[test]
fn stop_twice_leaves_nothing_tracked() {
    let mut state: Supervisor<u32> = Supervisor::new();
    assert_eq!(state.finish_start(Ok(7)), Ok(()));
    assert_eq!(stop_local_api(Some(&mut state)), Some(7));
    assert!(!state.is_running());
    assert_eq!(stop_local_api(Some(&mut state)), None);
    assert!(!state.is_running());
}

#[test]
fn missing_entrypoint_spawns_nothing_and_stores_nothing() {
    let mut state: Supervisor<u32> = Supervisor::new();
    let mut spawned = 0;
    let outcome = run_start(&mut state, false, Ok(41), &mut spawned);
    assert_eq!(
        outcome,
        Err(StartError::MissingEntrypoint(
            "/opt/app/resources/sidecar/local-api-server.mjs".to_string()
        ))
    );
    assert_eq!(spawned, 0);
    assert!(!state.is_running());
}

#[test]
fn start_stop_start_spawns_afresh() {
    let mut state: Supervisor<u32> = Supervisor::new();
    let mut spawned = 0;
    assert_eq!(run_start(&mut state, true, Ok(41), &mut spawned), Ok(()));
    assert_eq!(stop_local_api(Some(&mut state)), Some(41));
    assert!(!state.is_running());
    assert_eq!(run_start(&mut state, true, Ok(42), &mut spawned), Ok(()));
    assert_eq!(spawned, 2);
    assert_eq!(stop_local_api(Some(&mut state)), Some(42));
}

#[test]
fn stop_without_state_does_nothing() {
    assert_eq!(stop_local_api::<u32>(None), None);
}

#[test]
fn stop_on_an_empty_slot_does_nothing() {
    let mut state: Supervisor<u32> = Supervisor::new();
    assert_eq!(stop_local_api(Some(&mut state)), None);
    assert!(!state.is_running());
}

#[test]
fn start_without_the_lock_is_an_error() {
    let step = begin_start::<u32>(None, BuildMode::Packaged, "/src/app", None);
    assert_eq!(step, Err(StartError::LockUnavailable));
}

#[test]
fn failed_spawn_is_reported_and_stores_nothing() {
    let mut state: Supervisor<u32> = Supervisor::new();
    let mut spawned = 0;
    let outcome = run_start(&mut state, true, Err("permission denied".to_string()), &mut spawned);
    assert_eq!(outcome, Err(StartError::SpawnFailed("permission denied".to_string())));
    assert_eq!(outcome.unwrap_err().message(), "Failed to launch local API: permission denied");
    assert!(!state.is_running());
    assert_eq!(run_start(&mut state, true, Ok(9), &mut spawned), Ok(()));
    assert_eq!(spawned, 2);
}

#[test]
fn failed_spawn_keeps_a_tracked_handle() {
    let mut state: Supervisor<u32> = Supervisor::new();
    assert_eq!(state.finish_start(Ok(7)), Ok(()));
    assert_eq!(
        state.finish_start(Err("busy".to_string())),
        Err(StartError::SpawnFailed("busy".to_string()))
    );
    assert_eq!(stop_local_api(Some(&mut state)), Some(7));
}
