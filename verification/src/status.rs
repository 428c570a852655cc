//! The `status` action: what `docker inspect` and the sandbox's OpenClaw
//! configuration say, merged with the saved run state into one report.
use vstd::prelude::*;
use crate::state::RunState;
use crate::text::{chars_of, push_char, str_to_string, string_eq_str, trim, trimmed};

verus! {

/// A JSON value, with the members of an object in the order the parser gave them.
#[derive(Debug)]
pub enum JsonValue {
    Null,
    Bool(bool),
    Number(String),
    Text(String),
    Array(Vec<JsonValue>),
    Object(Vec<(String, JsonValue)>),
}

/// The value of the first member named `key` among `entries`.
pub open spec fn first_value(entries: Seq<(String, JsonValue)>, key: Seq<char>) -> Option<JsonValue>
    decreases entries.len(),
{
    if entries.len() == 0 {
        None
    } else if entries[0].0@ == key {
        Some(entries[0].1)
    } else {
        first_value(entries.drop_first(), key)
    }
}

/// The member `key` of `v`, when `v` is an object that has one.
pub open spec fn member(v: JsonValue, key: Seq<char>) -> Option<JsonValue> {
    match v {
        JsonValue::Object(entries) => first_value(entries@, key),
        _ => None,
    }
}

/// `member` through an optional value.
pub open spec fn opt_member(v: Option<JsonValue>, key: Seq<char>) -> Option<JsonValue> {
    match v {
        Some(x) => member(x, key),
        None => None,
    }
}

/// The text of a string value, or `unknown`.
pub open spec fn text_or_unknown(v: Option<JsonValue>) -> Seq<char> {
    match v {
        Some(JsonValue::Text(s)) => s@,
        _ => "unknown"@,
    }
}

/// `models.providers` of the configuration.
pub open spec fn providers_of(config: Option<JsonValue>) -> Option<JsonValue> {
    opt_member(opt_member(config, "models"@), "providers"@)
}

/// The model in use: `agents.defaults.model.primary`, or `unknown`.
pub open spec fn config_model(config: Option<JsonValue>) -> Seq<char> {
    text_or_unknown(
        opt_member(
            opt_member(opt_member(opt_member(config, "agents"@), "defaults"@), "model"@),
            "primary"@,
        ),
    )
}

/// The provider in use: the name of the first member of `models.providers`, or `unknown`.
pub open spec fn config_provider(config: Option<JsonValue>) -> Seq<char> {
    match providers_of(config) {
        Some(JsonValue::Object(entries)) => if entries@.len() > 0 {
            entries@[0].0@
        } else {
            "unknown"@
        },
        _ => "unknown"@,
    }
}

/// The endpoint in use: `baseUrl` of the first member of `models.providers`, or `unknown`.
pub open spec fn config_endpoint(config: Option<JsonValue>) -> Seq<char> {
    match providers_of(config) {
        Some(JsonValue::Object(entries)) => if entries@.len() > 0 {
            text_or_unknown(member(entries@[0].1, "baseUrl"@))
        } else {
            "unknown"@
        },
        _ => "unknown"@,
    }
}

impl JsonValue {
    /// The member `key`, when this is an object that has one.
    pub fn get(&self, key: &str) -> (r: Option<&JsonValue>)
        ensures
            match r {
                Some(x) => member(*self, key@) == Some(*x),
                None => member(*self, key@) is None,
            },
    {
        match self {
            JsonValue::Object(entries) => {
                let mut i: usize = 0;
                assert(entries@.skip(0) =~= entries@);
                while i < entries.len()
                    invariant
                        member(*self, key@) == first_value(entries@, key@),
                        i <= entries@.len(),
                        first_value(entries@, key@) == first_value(entries@.skip(i as int), key@),
                    decreases entries@.len() - i,
                {
                    assert(entries@.skip(i as int).drop_first() =~= entries@.skip(i + 1));
                    if string_eq_str(&entries[i].0, key) {
                        let ghost rest = entries@.skip(i as int);
                        assert(rest[0] == entries@[i as int]);
                        assert(rest.len() > 0 && rest[0].0@ == key@);
                        assert(first_value(rest, key@) == Some(rest[0].1));
                        return Some(&entries[i].1);
                    }
                    i = i + 1;
                }
                None
            },
            _ => None,
        }
    }
}

/// `get` through an optional value.
fn lookup<'a>(v: Option<&'a JsonValue>, key: &str) -> (r: Option<&'a JsonValue>)
    ensures
        match r {
            Some(x) => opt_member(
                match v {
                    Some(y) => Some(*y),
                    None => None,
                },
                key@,
            ) == Some(*x),
            None => opt_member(
                match v {
                    Some(y) => Some(*y),
                    None => None,
                },
                key@,
            ) is None,
        },
{
    match v {
        Some(x) => x.get(key),
        None => None,
    }
}

/// The view of an optional reference.
pub open spec fn deref_opt(v: Option<&JsonValue>) -> Option<JsonValue> {
    match v {
        Some(y) => Some(*y),
        None => None,
    }
}

/// The text of a string value, or `unknown`.
fn text_or_unknown_of(v: Option<&JsonValue>) -> (s: String)
    ensures
        s@ == text_or_unknown(deref_opt(v)),
{
    match v {
        Some(JsonValue::Text(t)) => t.clone(),
        _ => str_to_string("unknown"),
    }
}

/// The model named in the sandbox's OpenClaw configuration.
pub fn model_of(config: Option<&JsonValue>) -> (s: String)
    ensures
        s@ == config_model(deref_opt(config)),
{
    let a = lookup(config, "agents");
    let d = lookup(a, "defaults");
    let m = lookup(d, "model");
    let p = lookup(m, "primary");
    text_or_unknown_of(p)
}

/// The provider named in the sandbox's OpenClaw configuration.
pub fn provider_of(config: Option<&JsonValue>) -> (s: String)
    ensures
        s@ == config_provider(deref_opt(config)),
{
    let m = lookup(config, "models");
    let p = lookup(m, "providers");
    match p {
        Some(JsonValue::Object(entries)) => if entries.len() > 0 {
            entries[0].0.clone()
        } else {
            str_to_string("unknown")
        },
        _ => str_to_string("unknown"),
    }
}

/// The endpoint named in the sandbox's OpenClaw configuration.
pub fn endpoint_of(config: Option<&JsonValue>) -> (s: String)
    ensures
        s@ == config_endpoint(deref_opt(config)),
{
    let m = lookup(config, "models");
    let p = lookup(m, "providers");
    match p {
        Some(JsonValue::Object(entries)) => if entries.len() > 0 {
            let u = entries[0].1.get("baseUrl");
            text_or_unknown_of(u)
        } else {
            str_to_string("unknown")
        },
        _ => str_to_string("unknown"),
    }
}

/// The parts of `s` between the separators `sep`, as `str::split` gives them.
pub open spec fn split_on(s: Seq<char>, sep: char) -> Seq<Seq<char>>
    decreases s.len(),
{
    if s.len() == 0 {
        seq![Seq::empty()]
    } else {
        let prev = split_on(s.drop_last(), sep);
        if s.last() == sep {
            prev.push(Seq::empty())
        } else {
            prev.update(prev.len() - 1, prev.last().push(s.last()))
        }
    }
}

/// Splits `s` at each `sep`.
pub fn split(s: &str, sep: char) -> (parts: Vec<String>)
    ensures
        parts.deep_view() == split_on(s@, sep),
{
    let v = chars_of(s);
    let mut parts: Vec<String> = Vec::new();
    let mut cur = String::new();
    let mut i: usize = 0;
    assert(s@.take(0) =~= Seq::<char>::empty());
    while i < v.len()
        invariant
            v@ == s@,
            i <= v@.len(),
            parts.deep_view().push(cur@) == split_on(s@.take(i as int), sep),
        decreases v@.len() - i,
    {
        let c = v[i];
        let ghost prev = split_on(s@.take(i as int), sep);
        assert(s@.take(i + 1).drop_last() =~= s@.take(i as int));
        if c == sep {
            let done = cur;
            parts.push(done);
            cur = String::new();
            assert(parts.deep_view().push(cur@) =~= prev.push(Seq::empty()));
        } else {
            push_char(&mut cur, c);
            assert(parts.deep_view().push(cur@) =~= prev.update(
                prev.len() - 1,
                prev.last().push(c),
            ));
        }
        i = i + 1;
    }
    parts.push(cur);
    assert(s@.take(v@.len() as int) =~= s@);
    parts
}

/// What `docker inspect` reports of the sandbox container.
#[derive(Debug)]
pub struct DockerStatus {
    pub container: String,
    pub status: String,
    pub started_at: String,
    pub image: String,
    pub pid: String,
}

/// The container status read from `docker inspect` output formatted as
/// `status|started_at|image|pid`: none unless the trimmed output has four
/// `|`-separated fields at least.
pub fn parse_docker_status(container: &str, raw: &str) -> (d: Option<DockerStatus>)
    ensures
        ({
            let parts = split_on(trimmed(raw@), '|');
            &&& d is Some <==> parts.len() >= 4
            &&& d matches Some(st) ==> st.container@ == container@ && st.status@ == parts[0]
                && st.started_at@ == parts[1] && st.image@ == parts[2] && st.pid@ == parts[3]
        }),
{
    let t = trim(raw);
    let parts = split(t.as_str(), '|');
    if parts.len() < 4 {
        return None;
    }
    Some(
        DockerStatus {
            container: str_to_string(container),
            status: parts[0].clone(),
            started_at: parts[1].clone(),
            image: parts[2].clone(),
            pid: parts[3].clone(),
        },
    )
}

/// The inference route that the running sandbox reports.
#[derive(Debug)]
pub struct LiveInference {
    pub provider: String,
    pub model: String,
    pub endpoint: String,
}

/// The route named in the sandbox configuration (each part `unknown` when absent).
pub fn live_inference(config: Option<&JsonValue>) -> (l: LiveInference)
    ensures
        l.provider@ == config_provider(deref_opt(config)),
        l.model@ == config_model(deref_opt(config)),
        l.endpoint@ == config_endpoint(deref_opt(config)),
{
    LiveInference {
        provider: provider_of(config),
        model: model_of(config),
        endpoint: endpoint_of(config),
    }
}

/// The status report.
pub enum StatusReport {
    /// Saved state and a container: both merged.
    Merged { state: RunState, docker: DockerStatus, live: LiveInference },
    /// A container but no saved state.
    Live { run_id: String, docker: DockerStatus, live: LiveInference },
    /// Saved state, but no container running.
    Stale { state: RunState },
    /// Neither.
    NoSandbox { run_id: String },
}

/// The name of the container that `status` inspects.
pub fn sandbox_container() -> (s: String)
    ensures
        s@ == "nemoclaw-sandbox"@,
{
    str_to_string("nemoclaw-sandbox")
}

/// The run id shown for a report without saved state: the one asked for, else `fallback`.
pub open spec fn shown_run_id(run_id: Option<Seq<char>>, fallback: Seq<char>) -> Seq<char> {
    match run_id {
        Some(r) => r,
        None => fallback,
    }
}

/// The report for `run_id` (none: the latest run), given the saved `state`, the
/// container's `docker` status and its OpenClaw `config`.
pub fn status_report(
    run_id: Option<&str>,
    state: Option<RunState>,
    docker: Option<DockerStatus>,
    config: Option<&JsonValue>,
) -> (r: StatusReport)
    ensures
        ({
            let rid = match run_id {
                Some(x) => Some(x@),
                None => None,
            };
            match (state, docker) {
                (Some(s), Some(d)) => r matches StatusReport::Merged { state: s2, docker: d2, live }
                    && s2 == s && d2 == d && live.provider@ == config_provider(deref_opt(config))
                    && live.model@ == config_model(deref_opt(config)) && live.endpoint@
                    == config_endpoint(deref_opt(config)),
                (None, Some(d)) => r matches StatusReport::Live { run_id: shown, docker: d2, live }
                    && shown@ == shown_run_id(rid, "live"@) && d2 == d && live.provider@
                    == config_provider(deref_opt(config)) && live.model@ == config_model(
                    deref_opt(config),
                ) && live.endpoint@ == config_endpoint(deref_opt(config)),
                (Some(s), None) => r matches StatusReport::Stale { state: s2 } && s2 == s,
                (None, None) => r matches StatusReport::NoSandbox { run_id: shown } && shown@
                    == shown_run_id(rid, "unknown"@),
            }
        }),
{
    let live = live_inference(config);
    match (state, docker) {
        (Some(s), Some(d)) => StatusReport::Merged { state: s, docker: d, live },
        (None, Some(d)) => {
            let shown = match run_id {
                Some(x) => str_to_string(x),
                None => str_to_string("live"),
            };
            StatusReport::Live { run_id: shown, docker: d, live }
        },
        (Some(s), None) => StatusReport::Stale { state: s },
        (None, None) => {
            let shown = match run_id {
                Some(x) => str_to_string(x),
                None => str_to_string("unknown"),
            };
            StatusReport::NoSandbox { run_id: shown }
        },
    }
}

/// The status shown for a report.
pub open spec fn status_word(r: StatusReport) -> Seq<char> {
    match r {
        StatusReport::Merged { docker, .. } => docker.status@,
        StatusReport::Live { docker, .. } => docker.status@,
        StatusReport::Stale { .. } => "stopped"@,
        StatusReport::NoSandbox { .. } => "no_sandbox"@,
    }
}

/// Law: a report with a container shows the status that `docker inspect`
/// reported for it; one without shows `stopped` when a run was saved and
/// `no_sandbox` otherwise.
pub proof fn lemma_status_shows_inspected_status(r: StatusReport)
    ensures
        r matches StatusReport::Merged { docker, .. } ==> status_word(r) == docker.status@,
        r matches StatusReport::Live { docker, .. } ==> status_word(r) == docker.status@,
        r is Stale ==> status_word(r) == "stopped"@,
        r is NoSandbox ==> status_word(r) == "no_sandbox"@,
{
}

/// The note shown for a report without a running container.
pub open spec fn status_note(r: StatusReport) -> Option<Seq<char>> {
    match r {
        StatusReport::Stale { .. } => Some(
            "Container not running. Start with: docker run -d --name nemoclaw-sandbox -p 18789:18789 nemoclaw:latest"@,
        ),
        StatusReport::NoSandbox { .. } => Some(
            "No sandbox running and no saved state. Start with: docker run -d --name nemoclaw-sandbox -p 18789:18789 nemoclaw:latest"@,
        ),
        _ => None,
    }
}

impl StatusReport {
    /// The status shown: the container's, `stopped`, or `no_sandbox`.
    pub fn status(&self) -> (s: String)
        ensures
            s@ == status_word(*self),
            self matches StatusReport::Merged { docker, .. } ==> s@ == docker.status@,
            self matches StatusReport::Live { docker, .. } ==> s@ == docker.status@,
            self is Stale ==> s@ == "stopped"@,
            self is NoSandbox ==> s@ == "no_sandbox"@,
    {
        match self {
            StatusReport::Merged { docker, .. } => docker.status.clone(),
            StatusReport::Live { docker, .. } => docker.status.clone(),
            StatusReport::Stale { .. } => str_to_string("stopped"),
            StatusReport::NoSandbox { .. } => str_to_string("no_sandbox"),
        }
    }

    /// The note shown when no container runs.
    pub fn note(&self) -> (n: Option<String>)
        ensures
            match n {
                Some(t) => status_note(*self) == Some(t@),
                None => status_note(*self) is None,
            },
    {
        match self {
            StatusReport::Stale { .. } => Some(
                str_to_string(
                    "Container not running. Start with: docker run -d --name nemoclaw-sandbox -p 18789:18789 nemoclaw:latest",
                ),
            ),
            StatusReport::NoSandbox { .. } => Some(
                str_to_string(
                    "No sandbox running and no saved state. Start with: docker run -d --name nemoclaw-sandbox -p 18789:18789 nemoclaw:latest",
                ),
            ),
            _ => None,
        }
    }
}

} // verus!
