use brebot_launcher::interpreter::{resolve_interpreter, InterpreterChoice};
use brebot_launcher::launch::{backend_spawn_error, services_spawn_error};
use brebot_launcher::paths::{project_root_candidate, resolve_root_outcome};
use brebot_launcher::process::{backend_launch_spec, plan_start_backend, services_launch_spec};

#[test]
fn backend_plan_uses_project_local_interpreter_when_present() {
    let spec = plan_start_backend("/repo", true);
    assert_eq!(spec.program, "/repo/venv/bin/python3");
    assert_eq!(spec.args, vec!["src/main.py".to_string(), "web".to_string()]);
    assert_eq!(spec.cwd, Some("/repo".to_string()));
}

#[test]
fn backend_plan_falls_back_to_system_interpreter() {
    let spec = plan_start_backend("/repo", false);
    assert_eq!(spec.program, "python3");
    assert_eq!(spec.args, vec!["src/main.py".to_string(), "web".to_string()]);
    assert_eq!(spec.cwd, Some("/repo".to_string()));
}

#[test]
fn interpreter_resolution_prefers_local_and_is_deterministic() {
    let local = resolve_interpreter("/some/root", true);
    assert_eq!(
        local,
        InterpreterChoice::ProjectLocal("/some/root/venv/bin/python3".to_string())
    );
    let system = resolve_interpreter("/some/root", false);
    assert_eq!(system, InterpreterChoice::System("python3".to_string()));
    // Same filesystem state, same choice, in any order.
    assert_eq!(resolve_interpreter("/some/root", true), local);
    assert_eq!(resolve_interpreter("/some/root", false), system);
}

#[test]
fn backend_spec_carries_the_chosen_interpreter_verbatim() {
    let spec = backend_launch_spec(
        InterpreterChoice::ProjectLocal("/r/venv/bin/python3".to_string()),
        "/r",
    );
    assert_eq!(spec.program, "/r/venv/bin/python3");
    let spec = backend_launch_spec(InterpreterChoice::System("python3".to_string()), "/r");
    assert_eq!(spec.program, "python3");
}

#[test]
fn services_plan_is_the_fixed_compose_invocation() {
    let spec = services_launch_spec("/repo");
    assert_eq!(spec.program, "docker");
    assert_eq!(
        spec.args,
        vec![
            "compose".to_string(),
            "-f".to_string(),
            "docker/docker-compose.yml".to_string(),
            "up".to_string(),
            "-d".to_string(),
            "chromadb".to_string(),
            "redis".to_string(),
        ]
    );
    assert_eq!(spec.cwd, Some("/repo".to_string()));
}

#[test]
fn project_root_candidate_appends_ancestor_suffix() {
    assert_eq!(project_root_candidate("/opt/app/src-tauri"), "/opt/app/src-tauri/../..");
}

#[test]
fn root_resolution_outcome_is_classified() {
    assert_eq!(
        resolve_root_outcome(Ok("/opt/app".to_string())),
        Ok("/opt/app".to_string())
    );
    let err = resolve_root_outcome(Err("No such file or directory".to_string())).unwrap_err();
    assert_eq!(err.message, "No such file or directory");
}

#[test]
fn spawn_errors_preserve_the_os_cause() {
    let e = backend_spawn_error("No such file or directory (os error 2)");
    assert_eq!(
        e.message,
        "Failed to launch backend: No such file or directory (os error 2)"
    );
    let e = services_spawn_error("Permission denied (os error 13)");
    assert_eq!(
        e.message,
        "Failed to start Docker services: Permission denied (os error 13)"
    );
}
