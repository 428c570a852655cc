use nemoclaw_engine::apply::{resolve_credential, ApplyAction, ApplyPhase, ApplyRun, ApplySetup};
use nemoclaw_engine::blueprint::{InferenceProfile, SandboxConfig};
use nemoclaw_engine::clock::Timestamp;
use nemoclaw_engine::error::EngineError;
use nemoclaw_engine::plan::resolve_endpoint;
use nemoclaw_engine::rollback::{RollbackAction, RollbackPhase, RollbackRun};
use nemoclaw_engine::shell::{check_openshell_output, ShellOutput};
use nemoclaw_engine::state::{InferenceState, RunState};

fn nvidia() -> InferenceProfile {
    InferenceProfile {
        provider_type: "nvidia".to_string(),
        provider_name: "nvidia-inference".to_string(),
        endpoint: "https://integrate.api.nvidia.com/v1".to_string(),
        model: "nvidia/nemotron-3-super-120b-a12b".to_string(),
        credential_env: Some("NVIDIA_API_KEY".to_string()),
        credential_default: Some("dummy".to_string()),
        dynamic_endpoint: None,
    }
}

fn sandbox() -> SandboxConfig {
    SandboxConfig {
        image: "img:latest".to_string(),
        name: "openclaw".to_string(),
        forward_ports: vec![18789, 8080],
    }
}

fn out(code: i32, stderr: &str) -> ShellOutput {
    ShellOutput { stdout: String::new(), stderr: stderr.to_string(), exit_code: code }
}

fn strings(v: &[&str]) -> Vec<String> {
    v.iter().map(|s| s.to_string()).collect()
}

#[test]
fn endpoint_override_wins() {
    let p = nvidia();
    assert_eq!(resolve_endpoint(&p, Some("http://x/v1")), "http://x/v1");
    assert_eq!(resolve_endpoint(&p, None), "https://integrate.api.nvidia.com/v1");
}

#[test]
fn credential_order() {
    let d = Some("dummy".to_string());
    assert_eq!(resolve_credential(Some("key"), &d), "key");
    assert_eq!(resolve_credential(Some(""), &d), "");
    assert_eq!(resolve_credential(None, &d), "dummy");
    assert_eq!(resolve_credential(None, &None), "");
}

#[test]
fn apply_command_lines() {
    let setup = ApplySetup::new("nc-1", "default", &sandbox(), &nvidia(), None, Some("secret"));
    assert_eq!(
        setup.create_args(),
        strings(&[
            "sandbox", "create", "--from", "img:latest", "--name", "openclaw",
            "--forward=18789", "--forward=8080",
        ])
    );
    assert_eq!(
        setup.provider_args(),
        strings(&[
            "provider", "create", "--name", "nvidia-inference", "--type", "nvidia",
            "--credential", "OPENAI_API_KEY=secret",
            "--config", "OPENAI_BASE_URL=https://integrate.api.nvidia.com/v1",
        ])
    );
    assert_eq!(
        setup.route_args(),
        strings(&[
            "inference", "set", "--provider", "nvidia-inference",
            "--model", "nvidia/nemotron-3-super-120b-a12b",
        ])
    );
}

#[test]
fn apply_provider_without_credential_or_endpoint() {
    let mut p = nvidia();
    p.credential_default = None;
    let setup = ApplySetup::new("nc-1", "default", &sandbox(), &p, Some(""), None);
    assert_eq!(
        setup.provider_args(),
        strings(&["provider", "create", "--name", "nvidia-inference", "--type", "nvidia"])
    );
}

#[test]
fn apply_success_path() {
    let setup = ApplySetup::new("nc-1", "default", &sandbox(), &nvidia(), Some("http://e/v1"), None);
    let mut run = ApplyRun::new(setup);
    match run.step(None) {
        ApplyAction::Run { notice, percent, label, args } => {
            assert!(notice.is_none());
            assert_eq!(percent, 20);
            assert_eq!(label, "Creating OpenClaw sandbox");
            assert_eq!(args[0], "sandbox");
        }
        _ => panic!("expected a command"),
    }
    match run.step(Some(out(0, ""))) {
        ApplyAction::Run { notice, percent, label, args } => {
            assert!(notice.is_none());
            assert_eq!(percent, 50);
            assert_eq!(label, "Configuring inference provider");
            assert_eq!(args[0], "provider");
        }
        _ => panic!("expected a command"),
    }
    match run.step(Some(out(0, ""))) {
        ApplyAction::Run { percent, label, args, .. } => {
            assert_eq!(percent, 70);
            assert_eq!(label, "Setting inference route");
            assert_eq!(args[0], "inference");
        }
        _ => panic!("expected a command"),
    }
    match run.step(Some(out(0, ""))) {
        ApplyAction::Save { percent, label, state } => {
            assert_eq!(percent, 85);
            assert_eq!(label, "Saving run state");
            assert_eq!(state.run_id, "nc-1");
            assert_eq!(state.profile, "default");
            assert_eq!(state.sandbox_name, "openclaw");
            assert_eq!(state.inference.endpoint, "http://e/v1");
            assert_eq!(state.inference.provider_name, "nvidia-inference");
            assert_eq!(state.inference.credential_env.as_deref(), Some("NVIDIA_API_KEY"));
        }
        _ => panic!("expected a save"),
    }
    assert_eq!(run.phase, ApplyPhase::Saving);
    match run.step(None) {
        ApplyAction::Finish { lines, percent, label } => {
            assert_eq!(percent, 100);
            assert_eq!(label, "Apply complete");
            assert_eq!(
                lines,
                strings(&[
                    "Sandbox 'openclaw' is ready.",
                    "Inference: nvidia-inference -> nvidia/nemotron-3-super-120b-a12b @ http://e/v1",
                ])
            );
        }
        _ => panic!("expected the end"),
    }
    assert_eq!(run.phase, ApplyPhase::Finished);
}

#[test]
fn apply_reuses_existing_sandbox() {
    let setup = ApplySetup::new("nc-1", "default", &sandbox(), &nvidia(), None, None);
    let mut run = ApplyRun::new(setup);
    run.step(None);
    match run.step(Some(out(1, "error: sandbox already exists"))) {
        ApplyAction::Run { notice, percent, .. } => {
            assert_eq!(notice.as_deref(), Some("Sandbox 'openclaw' already exists, reusing"));
            assert_eq!(percent, 50);
        }
        _ => panic!("expected a command"),
    }
    // An existing provider is tolerated too.
    match run.step(Some(out(2, "provider already exists"))) {
        ApplyAction::Run { percent, .. } => assert_eq!(percent, 70),
        _ => panic!("expected a command"),
    }
    // The route step tolerates nothing.
    match run.step(Some(out(1, "  route already exists \n"))) {
        ApplyAction::Fail(e) => {
            assert_eq!(e.message(), "Failed to set inference route: route already exists")
        }
        _ => panic!("expected a failure"),
    }
    assert_eq!(run.phase, ApplyPhase::Failed);
}

#[test]
fn apply_sandbox_failure_stops() {
    let setup = ApplySetup::new("nc-1", "default", &sandbox(), &nvidia(), None, None);
    let mut run = ApplyRun::new(setup);
    run.step(None);
    match run.step(Some(out(1, "\tno space left\n"))) {
        ApplyAction::Fail(e) => assert_eq!(e.message(), "Failed to create sandbox: no space left"),
        _ => panic!("expected a failure"),
    }
    assert_eq!(run.phase, ApplyPhase::Failed);
}

#[test]
fn apply_provider_failure_stops() {
    let setup = ApplySetup::new("nc-1", "default", &sandbox(), &nvidia(), None, None);
    let mut run = ApplyRun::new(setup);
    run.step(None);
    run.step(Some(out(0, "")));
    match run.step(Some(out(1, "denied"))) {
        ApplyAction::Fail(e) => assert_eq!(e.message(), "Failed to configure provider: denied"),
        _ => panic!("expected a failure"),
    }
}

fn saved(name: &str) -> RunState {
    RunState {
        run_id: "nc-test".to_string(),
        profile: "default".to_string(),
        sandbox_name: name.to_string(),
        inference: InferenceState {
            provider_type: "nvidia".to_string(),
            provider_name: "nvidia-inference".to_string(),
            endpoint: "https://api.nvidia.com/v1".to_string(),
            model: "nemotron-3-super".to_string(),
            credential_env: Some("NVIDIA_API_KEY".to_string()),
        },
        timestamp: Timestamp { secs: 0, nanos: 0 },
    }
}

#[test]
fn rollback_of_unknown_run_fails() {
    let mut run = RollbackRun::new("nc-missing", None);
    match run.step(None) {
        RollbackAction::Fail(e) => assert_eq!(e.message(), "run 'nc-missing' not found"),
        _ => panic!("expected a failure"),
    }
    assert_eq!(run.phase, RollbackPhase::Failed);
}

#[test]
fn rollback_warns_and_goes_on() {
    let mut run = RollbackRun::new("nc-test", Some(saved("openclaw")));
    match run.step(None) {
        RollbackAction::Run { notice, percent, label, args } => {
            assert!(notice.is_none());
            assert_eq!(percent, 30);
            assert_eq!(label, "Stopping sandbox openclaw");
            assert_eq!(args, strings(&["sandbox", "stop", "openclaw"]));
        }
        _ => panic!("expected a command"),
    }
    match run.step(Some(out(1, " not running \n"))) {
        RollbackAction::Run { notice, percent, label, args } => {
            assert_eq!(
                notice.as_deref(),
                Some("Warning: stop failed (may already be stopped): not running")
            );
            assert_eq!(percent, 60);
            assert_eq!(label, "Removing sandbox openclaw");
            assert_eq!(args, strings(&["sandbox", "remove", "openclaw"]));
        }
        _ => panic!("expected a command"),
    }
    match run.step(Some(out(3, "gone"))) {
        RollbackAction::MarkRolledBack { notice, percent, label } => {
            assert_eq!(notice.as_deref(), Some("Warning: remove failed: gone"));
            assert_eq!(percent, 90);
            assert_eq!(label, "Cleaning up run state");
        }
        _ => panic!("expected the marking"),
    }
    match run.step(None) {
        RollbackAction::Finish { percent, label } => {
            assert_eq!(percent, 100);
            assert_eq!(label, "Rollback complete");
        }
        _ => panic!("expected the end"),
    }
    assert_eq!(run.phase, RollbackPhase::Finished);
}

#[test]
fn rollback_quiet_when_commands_succeed() {
    let mut run = RollbackRun::new("nc-test", Some(saved("sb")));
    run.step(None);
    match run.step(Some(out(0, "ignored"))) {
        RollbackAction::Run { notice, .. } => assert!(notice.is_none()),
        _ => panic!("expected a command"),
    }
    match run.step(Some(out(0, ""))) {
        RollbackAction::MarkRolledBack { notice, .. } => assert!(notice.is_none()),
        _ => panic!("expected the marking"),
    }
}

#[test]
fn checked_output() {
    let args = strings(&["sandbox", "create"]);
    let ok = check_openshell_output(&args, out(0, "fine")).unwrap();
    assert_eq!(ok.stderr, "fine");
    let err = check_openshell_output(&args, out(3, " boom\n")).unwrap_err();
    assert_eq!(err.message(), "openshell sandbox failed (exit 3): boom");
    let err = check_openshell_output(&Vec::new(), out(-1, "")).unwrap_err();
    assert_eq!(err.message(), "openshell  failed (exit -1): ");
    match err {
        EngineError::OpenshellFailed { exit_code, .. } => assert_eq!(exit_code, -1),
        _ => panic!("wrong error"),
    }
}
