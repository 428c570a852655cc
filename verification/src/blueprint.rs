//! The blueprint: the declarative description of the sandbox, its inference
//! profiles and its policy, and the lookup of a profile by name.
use vstd::prelude::*;
use crate::error::EngineError;
use crate::text::{path_join, path_joined, str_to_string, string_eq_str};

verus! {

/// A YAML value of the blueprint's policy additions, carried through unread.
#[verifier::external_type_specification]
#[verifier::external_body]
pub struct ExYamlValue(serde_yaml::Value);

/// Top-level blueprint structure.
pub struct Blueprint {
    pub version: String,
    pub requirements: Requirements,
    pub components: Components,
}

/// Minimum tool versions the blueprint asks for.
#[derive(Debug, Clone)]
pub struct Requirements {
    pub min_openshell_version: Option<String>,
    pub min_openclaw_version: Option<String>,
}

/// The parts of a deployment.
pub struct Components {
    pub sandbox: SandboxConfig,
    pub inference: InferenceConfig,
    pub policy: PolicyConfig,
}

/// The sandbox to create.
#[derive(Debug, Clone)]
pub struct SandboxConfig {
    pub image: String,
    pub name: String,
    pub forward_ports: Vec<u16>,
}

/// The inference profiles, each under its name. A blueprint names each profile once.
#[derive(Debug, Clone)]
pub struct InferenceConfig {
    pub profiles: Vec<(String, InferenceProfile)>,
}

/// How inference is routed for one profile.
#[derive(Debug, Clone)]
pub struct InferenceProfile {
    pub provider_type: String,
    pub provider_name: String,
    pub endpoint: String,
    pub model: String,
    pub credential_env: Option<String>,
    pub credential_default: Option<String>,
    pub dynamic_endpoint: Option<bool>,
}

/// The sandbox policy: a base policy file and named additions.
pub struct PolicyConfig {
    pub base: Option<String>,
    pub additions: Vec<(String, serde_yaml::Value)>,
}

/// The names of the profiles, in order.
pub open spec fn profile_names(profiles: Seq<(String, InferenceProfile)>) -> Seq<Seq<char>> {
    profiles.map_values(|e: (String, InferenceProfile)| e.0@)
}

/// The names of the profiles are pairwise distinct.
pub open spec fn names_distinct(profiles: Seq<(String, InferenceProfile)>) -> bool {
    forall|i: int, j: int|
        0 <= i < profiles.len() && 0 <= j < profiles.len() && i != j ==> #[trigger] profiles[i].0@
            != #[trigger] profiles[j].0@
}

/// Position `i` holds the profile named `name`, and no earlier position does.
pub open spec fn first_named(profiles: Seq<(String, InferenceProfile)>, name: Seq<char>, i: int) -> bool {
    &&& 0 <= i < profiles.len()
    &&& profiles[i].0@ == name
    &&& forall|j: int| 0 <= j < i ==> (#[trigger] profiles[j]).0@ != name
}

/// Some profile has this name.
pub open spec fn has_profile(profiles: Seq<(String, InferenceProfile)>, name: Seq<char>) -> bool {
    exists|i: int| 0 <= i < profiles.len() && (#[trigger] profiles[i]).0@ == name
}

impl InferenceConfig {
    /// Whether the profile names are distinct, as the keys of a map are.
    pub open spec fn well_formed(&self) -> bool {
        names_distinct(self@)
    }
}

impl View for InferenceConfig {
    type V = Seq<(String, InferenceProfile)>;

    open spec fn view(&self) -> Seq<(String, InferenceProfile)> {
        self.profiles@
    }
}

impl Blueprint {
    /// Resolve the profile, returning an error if not found.
    ///
    /// The error names the profile asked for and lists every profile of the
    /// blueprint.
    pub fn resolve_profile(&self, name: &str) -> (r: Result<&InferenceProfile, EngineError>)
        ensures
            r is Ok <==> has_profile(self.components.inference@, name@),
            r matches Ok(p) ==> exists|i: int|
                first_named(self.components.inference@, name@, i) && *p
                    == self.components.inference@[i].1,
            r matches Ok(p) ==> (self.components.inference.well_formed() ==> forall|j: int|
                0 <= j < self.components.inference@.len() && (#[trigger] self.components.inference@[j]).0@
                    == name@ ==> *p == self.components.inference@[j].1),
            r matches Err(e) ==> e matches EngineError::ProfileNotFound { name: n, available }
                && n@ == name@ && available.deep_view() == profile_names(
                self.components.inference@,
            ),
    {
        let profiles = &self.components.inference.profiles;
        let mut i: usize = 0;
        while i < profiles.len()
            invariant
                profiles@ == self.components.inference@,
                i <= profiles@.len(),
                forall|j: int| 0 <= j < i ==> (#[trigger] profiles@[j]).0@ != name@,
            decreases profiles@.len() - i,
        {
            if string_eq_str(&profiles[i].0, name) {
                assert(first_named(profiles@, name@, i as int));
                return Ok(&profiles[i].1);
            }
            i = i + 1;
        }
        let mut available: Vec<String> = Vec::new();
        let mut k: usize = 0;
        while k < profiles.len()
            invariant
                profiles@ == self.components.inference@,
                k <= profiles@.len(),
                available.deep_view() == profile_names(profiles@).take(k as int),
            decreases profiles@.len() - k,
        {
            let entry_name = profiles[k].0.clone();
            let ghost before = available.deep_view();
            available.push(entry_name);
            assert(available.deep_view() =~= before.push(profiles@[k as int].0@));
            assert(available.deep_view() =~= profile_names(profiles@).take(k + 1));
            k = k + 1;
        }
        assert(profile_names(profiles@).take(k as int) =~= profile_names(profiles@));
        Err(EngineError::ProfileNotFound { name: str_to_string(name), available })
    }
}

/// The sandbox name used when the blueprint gives none.
pub fn default_sandbox_name() -> (s: String)
    ensures
        s@ == "openclaw"@,
{
    str_to_string("openclaw")
}

/// The directory that holds `blueprint.yaml`: the value of
/// `NEMOCLAW_BLUEPRINT_PATH` when it is set, else the current directory.
pub fn blueprint_path_from(env_value: Option<&str>) -> (p: String)
    ensures
        p@ == match env_value {
            Some(v) => v@,
            None => "."@,
        },
{
    match env_value {
        Some(v) => str_to_string(v),
        None => str_to_string("."),
    }
}

/// The path of the blueprint file in `dir`.
pub fn blueprint_file(dir: &str) -> (p: String)
    ensures
        p@ == path_joined(dir@, "blueprint.yaml"@),
{
    path_join(dir, "blueprint.yaml")
}

} // verus!
