//! The deployment plan: what `plan` reports for a blueprint and a profile.
use vstd::prelude::*;
use crate::blueprint::{Blueprint, Components, InferenceProfile, SandboxConfig};
use crate::state::InferenceState;
use crate::text::{copy_opt, str_to_string};

verus! {

/// The view of an optional text.
pub open spec fn opt_text(o: Option<&str>) -> Option<Seq<char>> {
    match o {
        Some(s) => Some(s@),
        None => None,
    }
}

/// The endpoint of a run: the override when one is given, else the profile's.
pub open spec fn resolved_endpoint(profile_endpoint: Seq<char>, override_url: Option<Seq<char>>) -> Seq<char> {
    match override_url {
        Some(u) => u,
        None => profile_endpoint,
    }
}

/// The endpoint to use for `profile`, unless `override_url` replaces it.
pub fn resolve_endpoint(profile: &InferenceProfile, override_url: Option<&str>) -> (e: String)
    ensures
        e@ == resolved_endpoint(profile.endpoint@, opt_text(override_url)),
{
    if let Some(url) = override_url {
        return str_to_string(url);
    }
    profile.endpoint.clone()
}

/// The inference part of a plan or a run: the profile's provider and model, the
/// endpoint in use and the environment variable of the credential.
pub open spec fn inference_of(profile: InferenceProfile, endpoint: Seq<char>, st: InferenceState) -> bool {
    &&& st.provider_type == profile.provider_type
    &&& st.provider_name == profile.provider_name
    &&& st.endpoint@ == endpoint
    &&& st.model == profile.model
    &&& st.credential_env == profile.credential_env
}

/// Law: the inference part of a plan or a run carries the resolved profile's
/// provider type, provider name, model and credential variable unchanged, and
/// the endpoint in use; no field takes another field's value.
pub proof fn lemma_inference_keeps_profile_fields(
    profile: InferenceProfile,
    endpoint: Seq<char>,
    st: InferenceState,
)
    requires
        inference_of(profile, endpoint, st),
    ensures
        st.provider_type@ == profile.provider_type@,
        st.provider_name@ == profile.provider_name@,
        st.endpoint@ == endpoint,
        st.model@ == profile.model@,
        st.credential_env == profile.credential_env,
{
}

/// The inference route of `profile` with `endpoint`.
pub fn inference_state(profile: &InferenceProfile, endpoint: String) -> (st: InferenceState)
    ensures
        inference_of(*profile, endpoint@, st),
        st.provider_type == profile.provider_type,
        st.provider_name == profile.provider_name,
        st.endpoint == endpoint,
        st.model == profile.model,
        st.credential_env == profile.credential_env,
{
    InferenceState {
        provider_type: profile.provider_type.clone(),
        provider_name: profile.provider_name.clone(),
        endpoint,
        model: profile.model.clone(),
        credential_env: copy_opt(&profile.credential_env),
    }
}

/// The deployment plan that `plan` prints.
pub struct PlanDocument {
    pub run_id: String,
    pub profile: String,
    pub sandbox: SandboxConfig,
    pub inference: InferenceState,
    pub policy_additions: Vec<(String, serde_yaml::Value)>,
    pub dry_run: bool,
}

/// The plan for deploying `bp` with `profile` (resolved under `profile_name`).
pub fn plan_document(
    run_id: &str,
    profile_name: &str,
    bp: Blueprint,
    profile: &InferenceProfile,
    dry_run: bool,
    endpoint_url: Option<&str>,
) -> (doc: PlanDocument)
    ensures
        doc.run_id@ == run_id@,
        doc.profile@ == profile_name@,
        doc.sandbox == bp.components.sandbox,
        inference_of(
            *profile,
            resolved_endpoint(profile.endpoint@, opt_text(endpoint_url)),
            doc.inference,
        ),
        doc.inference.provider_type == profile.provider_type,
        doc.inference.provider_name == profile.provider_name,
        doc.inference.endpoint@ == resolved_endpoint(profile.endpoint@, opt_text(endpoint_url)),
        doc.inference.model == profile.model,
        doc.inference.credential_env == profile.credential_env,
        doc.policy_additions == bp.components.policy.additions,
        doc.dry_run == dry_run,
{
    let endpoint = resolve_endpoint(profile, endpoint_url);
    let Blueprint { components, .. } = bp;
    let Components { sandbox, policy, .. } = components;
    PlanDocument {
        run_id: str_to_string(run_id),
        profile: str_to_string(profile_name),
        sandbox,
        inference: inference_state(profile, endpoint),
        policy_additions: policy.additions,
        dry_run,
    }
}

} // verus!
