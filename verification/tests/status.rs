use nemoclaw_engine::clock::Timestamp;
use nemoclaw_engine::state::{InferenceState, RunState};
use nemoclaw_engine::status::{
    endpoint_of, live_inference, model_of, parse_docker_status, provider_of, sandbox_container,
    split, status_report, JsonValue, StatusReport,
};

fn text(s: &str) -> JsonValue {
    JsonValue::Text(s.to_string())
}

fn obj(entries: Vec<(&str, JsonValue)>) -> JsonValue {
    JsonValue::Object(entries.into_iter().map(|(k, v)| (k.to_string(), v)).collect())
}

fn sample_config() -> JsonValue {
    obj(vec![
        (
            "agents",
            obj(vec![("defaults", obj(vec![("model", obj(vec![("primary", text("nemotron"))]))]))]),
        ),
        (
            "models",
            obj(vec![(
                "providers",
                obj(vec![
                    ("nvidia", obj(vec![("baseUrl", text("https://api/v1"))])),
                    ("other", obj(vec![("baseUrl", text("http://other"))])),
                ]),
            )]),
        ),
    ])
}

#[test]
fn config_fields() {
    let c = sample_config();
    assert_eq!(model_of(Some(&c)), "nemotron");
    assert_eq!(provider_of(Some(&c)), "nvidia");
    assert_eq!(endpoint_of(Some(&c)), "https://api/v1");
}

#[test]
fn config_fields_unknown() {
    assert_eq!(model_of(None), "unknown");
    assert_eq!(provider_of(None), "unknown");
    assert_eq!(endpoint_of(None), "unknown");
    let c = obj(vec![
        ("agents", obj(vec![("defaults", obj(vec![("model", obj(vec![("primary", JsonValue::Number("3".to_string()))]))]))])),
        ("models", obj(vec![("providers", obj(vec![("p", obj(vec![]))]))])),
    ]);
    assert_eq!(model_of(Some(&c)), "unknown");
    assert_eq!(provider_of(Some(&c)), "p");
    assert_eq!(endpoint_of(Some(&c)), "unknown");
    let empty = obj(vec![("models", obj(vec![("providers", obj(vec![]))]))]);
    assert_eq!(provider_of(Some(&empty)), "unknown");
    let arr = JsonValue::Array(vec![JsonValue::Null, JsonValue::Bool(true)]);
    assert_eq!(model_of(Some(&arr)), "unknown");
}

#[test]
fn json_get_takes_the_first_member() {
    let c = obj(vec![("k", text("first")), ("k", text("second"))]);
    match c.get("k") {
        Some(JsonValue::Text(s)) => assert_eq!(s, "first"),
        _ => panic!("missing member"),
    }
    assert!(c.get("absent").is_none());
    assert!(text("x").get("k").is_none());
}

#[test]
fn docker_status_fields() {
    let d = parse_docker_status("nemoclaw-sandbox", "running|2026-03-01T00:00:00Z|img:latest|4242\n").unwrap();
    assert_eq!(d.container, "nemoclaw-sandbox");
    assert_eq!(d.status, "running");
    assert_eq!(d.started_at, "2026-03-01T00:00:00Z");
    assert_eq!(d.image, "img:latest");
    assert_eq!(d.pid, "4242");
}

#[test]
fn docker_status_needs_four_fields() {
    assert!(parse_docker_status("c", "running|x|img").is_none());
    assert!(parse_docker_status("c", "").is_none());
    let d = parse_docker_status("c", "  a|b|c|d|e  ").unwrap();
    assert_eq!(d.status, "a");
    assert_eq!(d.pid, "d");
    let e = parse_docker_status("c", "|||").unwrap();
    assert_eq!(e.status, "");
    assert_eq!(e.pid, "");
}

#[test]
fn split_like_str_split() {
    for s in ["", "a", "a|b", "|", "a||b|", "é|ü"] {
        let expected: Vec<String> = s.split('|').map(|p| p.to_string()).collect();
        assert_eq!(split(s, '|'), expected);
    }
}

fn saved() -> RunState {
    RunState {
        run_id: "nc-1".to_string(),
        profile: "default".to_string(),
        sandbox_name: "openclaw".to_string(),
        inference: InferenceState {
            provider_type: "nvidia".to_string(),
            provider_name: "nvidia-inference".to_string(),
            endpoint: "https://api/v1".to_string(),
            model: "m".to_string(),
            credential_env: None,
        },
        timestamp: Timestamp { secs: 1, nanos: 2 },
    }
}

fn docker() -> nemoclaw_engine::status::DockerStatus {
    parse_docker_status("nemoclaw-sandbox", "running|t|i|1").unwrap()
}

#[test]
fn status_merged() {
    let c = sample_config();
    let r = status_report(Some("nc-1"), Some(saved()), Some(docker()), Some(&c));
    assert_eq!(r.status(), "running");
    assert!(r.note().is_none());
    match r {
        StatusReport::Merged { state, docker, live } => {
            assert_eq!(state.run_id, "nc-1");
            assert_eq!(docker.pid, "1");
            assert_eq!(live.model, "nemotron");
        }
        _ => panic!("expected a merged report"),
    }
}

#[test]
fn status_live_only() {
    let r = status_report(None, None, Some(docker()), None);
    assert_eq!(r.status(), "running");
    match r {
        StatusReport::Live { run_id, live, .. } => {
            assert_eq!(run_id, "live");
            assert_eq!(live.provider, "unknown");
        }
        _ => panic!("expected a live report"),
    }
    match status_report(Some("nc-9"), None, Some(docker()), None) {
        StatusReport::Live { run_id, .. } => assert_eq!(run_id, "nc-9"),
        _ => panic!("expected a live report"),
    }
}

#[test]
fn status_stale_and_none() {
    let r = status_report(None, Some(saved()), None, None);
    assert_eq!(r.status(), "stopped");
    assert!(r.note().unwrap().starts_with("Container not running."));
    let r = status_report(None, None, None, None);
    assert_eq!(r.status(), "no_sandbox");
    assert!(r.note().unwrap().starts_with("No sandbox running and no saved state."));
    match r {
        StatusReport::NoSandbox { run_id } => assert_eq!(run_id, "unknown"),
        _ => panic!("expected no sandbox"),
    }
    assert_eq!(sandbox_container(), "nemoclaw-sandbox");
    let l = live_inference(None);
    assert_eq!(l.endpoint, "unknown");
}
