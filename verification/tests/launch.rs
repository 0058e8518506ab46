use local_api_supervisor::launch::{prepare_launch, EnvVar, LaunchPlan, StartError, StreamPolicy};
use local_api_supervisor::paths::{local_api_paths, BuildMode, ResolvedPaths};

fn sample_paths() -> ResolvedPaths {
    ResolvedPaths {
        entrypoint: "/opt/app/resources/sidecar/local-api-server.mjs".to_string(),
        resource_root: "/opt/app/resources".to_string(),
    }
}

fn var(name: &str, value: &str) -> EnvVar {
    EnvVar { name: name.to_string(), value: value.to_string() }
}

#[test]
fn launch_runs_the_entrypoint_under_the_runtime() {
    let launch = prepare_launch(sample_paths(), true).unwrap();
    assert_eq!(launch.program, "node");
    assert_eq!(launch.script, "/opt/app/resources/sidecar/local-api-server.mjs");
}

#[test]
fn launch_hands_over_port_root_and_mode() {
    let launch = prepare_launch(sample_paths(), true).unwrap();
    assert_eq!(
        launch.env,
        vec![
            var("LOCAL_API_PORT", "46123"),
            var("LOCAL_API_RESOURCE_DIR", "/opt/app/resources"),
            var("LOCAL_API_MODE", "tauri-sidecar"),
        ]
    );
}

#[test]
fn launch_discards_stdout_and_inherits_stderr() {
    let launch = prepare_launch(sample_paths(), true).unwrap();
    assert_eq!(launch.stdout, StreamPolicy::Discard);
    assert_eq!(launch.stderr, StreamPolicy::Inherit);
}

#[test]
fn launch_of_resolved_development_paths() {
    let paths = local_api_paths(BuildMode::Development, "/src/app", None);
    let launch = prepare_launch(paths, true);
    assert_eq!(
        launch,
        Ok(LaunchPlan {
            program: "node".to_string(),
            script: "/src/app/sidecar/local-api-server.mjs".to_string(),
            env: vec![
                var("LOCAL_API_PORT", "46123"),
                var("LOCAL_API_RESOURCE_DIR", "/src"),
                var("LOCAL_API_MODE", "tauri-sidecar"),
            ],
            stdout: StreamPolicy::Discard,
            stderr: StreamPolicy::Inherit,
        })
    );
}

#[test]
fn missing_entrypoint_fails_and_names_the_path() {
    let plan = prepare_launch(sample_paths(), false);
    assert_eq!(
        plan,
        Err(StartError::MissingEntrypoint(
            "/opt/app/resources/sidecar/local-api-server.mjs".to_string()
        ))
    );
}

#[test]
fn lock_error_message() {
    assert_eq!(StartError::LockUnavailable.message(), "Failed to lock local API state");
}

#[test]
fn missing_entrypoint_message() {
    let err = StartError::MissingEntrypoint("/src/app/sidecar/local-api-server.mjs".to_string());
    assert_eq!(
        err.message(),
        "Local API sidecar script missing at /src/app/sidecar/local-api-server.mjs"
    );
}

#[test]
fn spawn_failure_message_carries_the_description() {
    let err = StartError::SpawnFailed("No such file or directory (os error 2)".to_string());
    assert_eq!(
        err.message(),
        "Failed to launch local API: No such file or directory (os error 2)"
    );
}
