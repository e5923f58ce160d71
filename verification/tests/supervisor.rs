use entra_sidecar::json::JsonValue;
use entra_sidecar::key::{KeySource, SidecarEnv};
use entra_sidecar::locate::{Platform, PlatformProfile};
use entra_sidecar::rpc::ChannelError;
use entra_sidecar::supervisor::{
    build_environment, extend_search_path, list_texts, runtime_missing_reason,
    script_missing_reason, spawn_failed_reason, SidecarManager, SpawnPlan, StartAction,
    StartContext, StartEvent,
};

fn strings(items: &[&str]) -> Vec<String> {
    items.iter().map(|s| s.to_string()).collect()
}

fn context() -> StartContext {
    StartContext {
        env: SidecarEnv {
            data_dir: Some("/data".to_string()),
            cache_key_b64: Some("KEY".to_string()),
            cache_key_source: KeySource::File,
        },
        profile: PlatformProfile::for_platform(Platform::Linux, Some("/home/u"), true),
        inherited_path: Some("/usr/sbin".to_string()),
    }
}

fn pair(k: &str, v: &str) -> (String, String) {
    (k.to_string(), v.to_string())
}

/// Starts the worker with everything found and the spawn succeeding.
/// Returns the number of spawns that were asked for.
fn start_well(manager: &mut SidecarManager, ctx: &StartContext) -> usize {
    let mut spawns = 0;
    let mut action = manager.start(ctx, StartEvent::Requested);
    for _ in 0..10 {
        action = match action {
            StartAction::Done(result) => {
                assert_eq!(result, Ok(()));
                return spawns;
            }
            StartAction::FindRuntime => {
                manager.start(ctx, StartEvent::RuntimeFound("node".to_string()))
            }
            StartAction::FindScript => {
                manager.start(ctx, StartEvent::ScriptFound("/app/sidecar/dist/index.js".to_string()))
            }
            StartAction::Spawn(_) => {
                spawns += 1;
                manager.start(ctx, StartEvent::SpawnSucceeded)
            }
        };
    }
    panic!("the start did not end");
}

fn empty_params() -> JsonValue {
    JsonValue::Object(Vec::new())
}

#[test]
fn new_supervisor_is_not_started() {
    let manager = SidecarManager::new();
    assert!(!manager.is_running());
    assert_eq!(manager.last_error(), None);
    assert_eq!(manager.request_id(), 0);
}

#[test]
fn start_goes_through_runtime_script_and_spawn() {
    let ctx = context();
    let mut manager = SidecarManager::new();
    assert_eq!(manager.start(&ctx, StartEvent::Requested), StartAction::FindRuntime);
    assert!(!manager.is_running());
    assert_eq!(
        manager.start(&ctx, StartEvent::RuntimeFound("/usr/bin/node".to_string())),
        StartAction::FindScript
    );
    let action = manager.start(&ctx, StartEvent::ScriptFound("/app/index.js".to_string()));
    assert_eq!(
        action,
        StartAction::Spawn(SpawnPlan {
            program: "/usr/bin/node".to_string(),
            script: "/app/index.js".to_string(),
            env: vec![
                pair("ENTRA_TOKEN_STUDIO_DATA_DIR", "/data"),
                pair("ENTRA_TOKEN_STUDIO_CACHE_KEY", "KEY"),
                pair("ENTRA_TOKEN_STUDIO_CACHE_KEY_SOURCE", "file"),
                pair("PATH", "/usr/sbin:/usr/local/bin:/usr/bin:/bin"),
            ],
            hide_console_window: false,
        })
    );
    assert!(!manager.is_running());
    assert_eq!(manager.start(&ctx, StartEvent::SpawnSucceeded), StartAction::Done(Ok(())));
    assert!(manager.is_running());
    assert_eq!(manager.last_error(), None);
}

#[test]
fn second_start_does_not_spawn_again() {
    let ctx = context();
    let mut manager = SidecarManager::new();
    assert_eq!(start_well(&mut manager, &ctx), 1);
    assert!(manager.is_running());
    assert_eq!(manager.start(&ctx, StartEvent::Requested), StartAction::Done(Ok(())));
    assert_eq!(start_well(&mut manager, &ctx), 0);
    assert!(manager.is_running());
}

#[test]
fn missing_runtime_fails_the_start_with_a_tagged_reason() {
    let ctx = context();
    let mut manager = SidecarManager::new();
    manager.start(&ctx, StartEvent::Requested);
    let reason = runtime_missing_reason(Platform::Linux);
    assert!(reason.starts_with("[NODE_NOT_FOUND] "));
    assert_eq!(
        manager.start(&ctx, StartEvent::RuntimeNotFound),
        StartAction::Done(Err(reason.clone()))
    );
    assert!(!manager.is_running());
    assert_eq!(manager.last_error(), Some(reason));
}

#[test]
fn install_hints_differ_by_platform() {
    assert_eq!(
        runtime_missing_reason(Platform::MacOs),
        "[NODE_NOT_FOUND] Node.js runtime was not found. Install Node.js from https://nodejs.org or run `brew install node`, then restart the application."
    );
    assert!(runtime_missing_reason(Platform::Windows).contains("winget install OpenJS.NodeJS"));
    assert!(runtime_missing_reason(Platform::Linux).contains("package manager"));
}

#[test]
fn missing_script_fails_the_start_with_the_checked_paths() {
    let ctx = context();
    let mut manager = SidecarManager::new();
    manager.start(&ctx, StartEvent::Requested);
    manager.start(&ctx, StartEvent::RuntimeFound("node".to_string()));
    let action = manager.start(&ctx, StartEvent::ScriptNotFound(strings(&["/a/x.js", "/b/x.js"])));
    let reason = "Could not find sidecar script. Checked: /a/x.js, /b/x.js".to_string();
    assert_eq!(script_missing_reason(&strings(&["/a/x.js", "/b/x.js"])), reason);
    assert_eq!(action, StartAction::Done(Err(reason.clone())));
    assert_eq!(manager.last_error(), Some(reason));
}

#[test]
fn unknown_executable_fails_the_start() {
    let ctx = context();
    let mut manager = SidecarManager::new();
    manager.start(&ctx, StartEvent::Requested);
    manager.start(&ctx, StartEvent::RuntimeFound("node".to_string()));
    assert_eq!(
        manager.start(&ctx, StartEvent::ExecutablePathFailed("gone".to_string())),
        StartAction::Done(Err("Failed to get executable path: gone".to_string()))
    );
    manager.start(&ctx, StartEvent::Requested);
    manager.start(&ctx, StartEvent::RuntimeFound("node".to_string()));
    assert_eq!(
        manager.start(&ctx, StartEvent::NoParentDirectory),
        StartAction::Done(Err("Failed to get parent directory".to_string()))
    );
    assert_eq!(manager.last_error(), Some("Failed to get parent directory".to_string()));
}

#[test]
fn failed_spawn_fails_the_start() {
    let ctx = context();
    let mut manager = SidecarManager::new();
    manager.start(&ctx, StartEvent::Requested);
    manager.start(&ctx, StartEvent::RuntimeFound("node".to_string()));
    manager.start(&ctx, StartEvent::ScriptFound("/app/index.js".to_string()));
    let reason = "Failed to spawn sidecar from \"/app/index.js\": denied".to_string();
    assert_eq!(spawn_failed_reason("/app/index.js", "denied"), reason);
    assert_eq!(
        manager.start(&ctx, StartEvent::SpawnFailed("denied".to_string())),
        StartAction::Done(Err(reason.clone()))
    );
    assert!(!manager.is_running());
    assert_eq!(manager.last_error(), Some(reason));
}

#[test]
fn start_after_a_failure_begins_anew_and_clears_the_error() {
    let ctx = context();
    let mut manager = SidecarManager::new();
    manager.start(&ctx, StartEvent::Requested);
    manager.start(&ctx, StartEvent::RuntimeNotFound);
    assert!(manager.last_error().is_some());
    assert_eq!(manager.start(&ctx, StartEvent::Requested), StartAction::FindRuntime);
    assert!(manager.last_error().is_some());
    assert_eq!(start_well(&mut manager, &ctx), 1);
    assert!(manager.is_running());
    assert_eq!(manager.last_error(), None);
}

#[test]
fn events_out_of_order_end_the_start() {
    let ctx = context();
    let mut manager = SidecarManager::new();
    let out_of_order = StartAction::Done(Err("Start step out of order".to_string()));
    assert_eq!(manager.start(&ctx, StartEvent::SpawnSucceeded), out_of_order);
    assert!(!manager.is_running());
    assert_eq!(manager.last_error(), None);
    manager.start(&ctx, StartEvent::Requested);
    assert_eq!(manager.start(&ctx, StartEvent::ScriptFound("/x".to_string())), out_of_order);
    assert_eq!(manager.start(&ctx, StartEvent::RuntimeFound("node".to_string())), out_of_order);
}

#[test]
fn call_before_start_is_refused() {
    let mut manager = SidecarManager::new();
    let failure = manager.call("ping", &empty_params()).expect_err("not started");
    assert_eq!(failure, ChannelError::NotStarted(None));
    assert_eq!(failure.message(), "Sidecar not started");
    assert_eq!(manager.request_id(), 0);
}

#[test]
fn call_after_failed_start_names_the_reason() {
    let ctx = context();
    let mut manager = SidecarManager::new();
    manager.start(&ctx, StartEvent::Requested);
    manager.start(&ctx, StartEvent::RuntimeFound("node".to_string()));
    manager.start(&ctx, StartEvent::ScriptFound("/s".to_string()));
    manager.start(&ctx, StartEvent::SpawnFailed("X".to_string()));
    let failure = manager.call("ping", &empty_params()).expect_err("not started");
    let message = failure.message();
    assert!(message.contains("Sidecar not started"));
    assert!(message.contains("Failed to spawn sidecar from \"/s\": X"));
    assert_eq!(message, "Sidecar not started: Failed to spawn sidecar from \"/s\": X");
    assert_eq!(manager.request_id(), 0);
}

#[test]
fn calls_get_growing_identifiers() {
    let ctx = context();
    let mut manager = SidecarManager::new();
    start_well(&mut manager, &ctx);
    for id in 1..=5u64 {
        let line = manager.call("echo", &empty_params()).expect("running");
        assert_eq!(
            line,
            format!("{{\"jsonrpc\":\"2.0\",\"id\":{id},\"method\":\"echo\",\"params\":{{}}}}\n")
        );
        assert_eq!(manager.request_id(), id);
    }
}

#[test]
fn exited_worker_is_not_running() {
    let ctx = context();
    let mut manager = SidecarManager::new();
    start_well(&mut manager, &ctx);
    manager.call("ping", &empty_params()).expect("running");
    manager.worker_exited();
    assert!(!manager.is_running());
    assert_eq!(manager.last_error(), None);
    assert_eq!(manager.call("ping", &empty_params()), Err(ChannelError::NotStarted(None)));
    assert_eq!(start_well(&mut manager, &ctx), 1);
    let line = manager.call("ping", &empty_params()).expect("running");
    assert!(line.contains("\"id\":2,"));
    let mut failed = SidecarManager::new();
    failed.start(&ctx, StartEvent::Requested);
    failed.start(&ctx, StartEvent::RuntimeNotFound);
    failed.worker_exited();
    assert!(failed.last_error().is_some());
}

#[test]
fn environment_without_key_or_directory() {
    let ctx = StartContext {
        env: SidecarEnv { data_dir: None, cache_key_b64: None, cache_key_source: KeySource::NoKey },
        profile: PlatformProfile::for_platform(Platform::Windows, None, true),
        inherited_path: None,
    };
    assert_eq!(
        build_environment(&ctx),
        vec![
            pair("ENTRA_TOKEN_STUDIO_CACHE_KEY_SOURCE", "none"),
            pair(
                "PATH",
                "C:\\Program Files\\nodejs;C:\\Program Files\\Microsoft SDKs\\Azure\\CLI2\\wbin"
            ),
        ]
    );
}

#[test]
fn search_path_is_extended() {
    let dirs = strings(&["/a", "/b"]);
    assert_eq!(extend_search_path(Some("/x:/y"), &dirs, Platform::Linux), "/x:/y:/a:/b");
    assert_eq!(extend_search_path(Some(""), &dirs, Platform::Linux), "/a:/b");
    assert_eq!(extend_search_path(None, &dirs, Platform::MacOs), "/a:/b");
    assert_eq!(extend_search_path(Some("C:\\x"), &dirs, Platform::Windows), "C:\\x;/a;/b");
    assert_eq!(extend_search_path(Some("/x"), &Vec::new(), Platform::Linux), "/x");
    assert_eq!(extend_search_path(None, &Vec::new(), Platform::Linux), "");
}

#[test]
fn lists_texts() {
    assert_eq!(list_texts(&Vec::new(), ", "), "");
    assert_eq!(list_texts(&strings(&["a"]), ", "), "a");
    assert_eq!(list_texts(&strings(&["a", "", "c"]), ", "), "a, , c");
}
