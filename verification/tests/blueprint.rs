use nemoclaw_engine::blueprint::{
    blueprint_file, blueprint_path_from, default_sandbox_name, Blueprint, Components,
    InferenceConfig, InferenceProfile, PolicyConfig, Requirements, SandboxConfig,
};
use nemoclaw_engine::error::EngineError;

fn profile(
    provider_type: &str,
    provider_name: &str,
    endpoint: &str,
    model: &str,
    credential_env: Option<&str>,
    credential_default: Option<&str>,
) -> InferenceProfile {
    InferenceProfile {
        provider_type: provider_type.to_string(),
        provider_name: provider_name.to_string(),
        endpoint: endpoint.to_string(),
        model: model.to_string(),
        credential_env: credential_env.map(|s| s.to_string()),
        credential_default: credential_default.map(|s| s.to_string()),
        dynamic_endpoint: None,
    }
}

/// A sample blueprint with two inference profiles.
fn sample_blueprint() -> Blueprint {
    Blueprint {
        version: "0.1.0".to_string(),
        requirements: Requirements {
            min_openshell_version: Some("0.1.0".to_string()),
            min_openclaw_version: None,
        },
        components: Components {
            sandbox: SandboxConfig {
                image: "ghcr.io/nvidia/openshell-community/sandboxes/openclaw:latest".to_string(),
                name: "openclaw".to_string(),
                forward_ports: vec![18789],
            },
            inference: InferenceConfig {
                profiles: vec![
                    (
                        "default".to_string(),
                        profile(
                            "nvidia",
                            "nvidia-inference",
                            "https://integrate.api.nvidia.com/v1",
                            "nvidia/nemotron-3-super-120b-a12b",
                            Some("NVIDIA_API_KEY"),
                            None,
                        ),
                    ),
                    (
                        "vllm".to_string(),
                        profile(
                            "openai",
                            "vllm-local",
                            "http://localhost:8000/v1",
                            "nvidia/nemotron-3-nano-30b-a3b",
                            Some("OPENAI_API_KEY"),
                            Some("dummy"),
                        ),
                    ),
                ],
            },
            policy: PolicyConfig {
                base: Some("sandboxes/openclaw/policy.yaml".to_string()),
                additions: Vec::new(),
            },
        },
    }
}

#[test]
fn resolve_profile_ok() {
    let bp = sample_blueprint();
    let profile = bp.resolve_profile("default").unwrap();
    assert_eq!(profile.provider_type, "nvidia");
    assert_eq!(profile.model, "nvidia/nemotron-3-super-120b-a12b");
}

#[test]
fn resolve_profile_missing() {
    let bp = sample_blueprint();
    let err = bp.resolve_profile("nonexistent").unwrap_err();
    assert!(err.message().contains("not found"));
    assert!(err.message().contains("default"));
}

#[test]
fn default_sandbox_name_is_openclaw() {
    assert_eq!(default_sandbox_name(), "openclaw");
}

#[test]
fn resolve_profile_picks_the_named_one() {
    let bp = sample_blueprint();
    let p = bp.resolve_profile("vllm").unwrap();
    assert_eq!(p.provider_name, "vllm-local");
    assert_eq!(p.credential_default.as_deref(), Some("dummy"));
}

#[test]
fn resolve_profile_missing_lists_every_profile() {
    let bp = sample_blueprint();
    let err = bp.resolve_profile("nim-local").unwrap_err();
    match &err {
        EngineError::ProfileNotFound { name, available } => {
            assert_eq!(name, "nim-local");
            assert_eq!(available, &vec!["default".to_string(), "vllm".to_string()]);
        }
        _ => panic!("wrong error"),
    }
    assert_eq!(
        err.message(),
        "profile 'nim-local' not found. Available: default, vllm"
    );
}

#[test]
fn resolve_profile_in_empty_blueprint() {
    let mut bp = sample_blueprint();
    bp.components.inference.profiles.clear();
    let err = bp.resolve_profile("default").unwrap_err();
    assert_eq!(err.message(), "profile 'default' not found. Available: ");
}

#[test]
fn blueprint_path_prefers_the_environment() {
    assert_eq!(blueprint_path_from(Some("/opt/bp")), "/opt/bp");
    assert_eq!(blueprint_path_from(None), ".");
    assert_eq!(blueprint_file("/opt/bp"), "/opt/bp/blueprint.yaml");
    assert_eq!(blueprint_file("."), "./blueprint.yaml");
    assert_eq!(blueprint_file("/opt/bp/"), "/opt/bp/blueprint.yaml");
}
