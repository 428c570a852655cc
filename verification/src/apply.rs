//! The `apply` action as a state machine: create the sandbox, configure the
//! inference provider, set the inference route, save the run state.
//!
//! The caller runs each `openshell` command that an action asks for and hands
//! its output to the next step.
use vstd::prelude::*;
use crate::blueprint::{InferenceProfile, SandboxConfig};
use crate::clock::{fields_at, utc_now, DateTimeFields, Now, Timestamp};
use crate::error::EngineError;
use crate::plan::{inference_of, inference_state, opt_text, resolve_endpoint, resolved_endpoint};
use crate::shell::ShellOutput;
use crate::state::RunState;
use crate::text::{append_decimal, contains, contains_text, copy_opt, decimal, str_to_string, trim,
    trimmed};

verus! {

/// The credential of a run: the value of the profile's credential variable when
/// it is set, else the profile's default credential, else nothing.
pub open spec fn resolved_credential(env_value: Option<Seq<char>>, default: Option<String>) -> Seq<char> {
    match env_value {
        Some(v) => v,
        None => match default {
            Some(d) => d@,
            None => Seq::empty(),
        },
    }
}

/// Everything `apply` needs to know, fixed when it starts.
pub struct ApplySetup {
    pub run_id: String,
    pub profile_name: String,
    pub sandbox_name: String,
    pub sandbox_image: String,
    pub forward_ports: Vec<u16>,
    pub profile: InferenceProfile,
    pub endpoint: String,
    pub credential: String,
}

/// Where an `apply` run stands.
#[derive(Debug, Clone, Copy, PartialEq, Eq, Structural)]
pub enum ApplyPhase {
    Start,
    CreatingSandbox,
    ConfiguringProvider,
    SettingRoute,
    Saving,
    Finished,
    Failed,
}

/// What the caller does next.
pub enum ApplyAction {
    /// Print `notice` to standard error if there is one, report progress, then
    /// run `openshell` with `args` and hand back its output.
    Run { notice: Option<String>, percent: u8, label: String, args: Vec<String> },
    /// Report progress, then save `state`.
    Save { percent: u8, label: String, state: RunState },
    /// Print `lines`, report progress; the run is done.
    Finish { lines: Vec<String>, percent: u8, label: String },
    /// The run stops with this error.
    Fail(EngineError),
}

/// An `apply` run in progress.
pub struct ApplyRun {
    pub setup: ApplySetup,
    pub phase: ApplyPhase,
}

/// The flag that forwards one port.
pub open spec fn forward_flag(port: u16) -> Seq<char> {
    "--forward="@ + decimal(port as nat)
}

/// `openshell sandbox create` for the blueprint's sandbox.
pub open spec fn create_args(s: ApplySetup) -> Seq<Seq<char>> {
    seq!["sandbox"@, "create"@, "--from"@, s.sandbox_image@, "--name"@, s.sandbox_name@]
        + s.forward_ports@.map_values(|p: u16| forward_flag(p))
}

/// `openshell provider create` for the profile: the credential and the endpoint
/// are passed only when they are not empty.
pub open spec fn provider_args(s: ApplySetup) -> Seq<Seq<char>> {
    seq![
        "provider"@,
        "create"@,
        "--name"@,
        s.profile.provider_name@,
        "--type"@,
        s.profile.provider_type@,
    ] + (if s.credential@.len() > 0 {
        seq!["--credential"@, "OPENAI_API_KEY="@ + s.credential@]
    } else {
        Seq::empty()
    }) + (if s.endpoint@.len() > 0 {
        seq!["--config"@, "OPENAI_BASE_URL="@ + s.endpoint@]
    } else {
        Seq::empty()
    })
}

/// `openshell inference set` for the profile's provider and model.
pub open spec fn route_args(s: ApplySetup) -> Seq<Seq<char>> {
    seq!["inference"@, "set"@, "--provider"@, s.profile.provider_name@, "--model"@, s.profile.model@]
}

/// The notice printed when the sandbox exists already.
pub open spec fn reuse_notice(name: Seq<char>) -> Seq<char> {
    "Sandbox '"@ + name + "' already exists, reusing"@
}

/// The lines printed at the end of a successful run.
pub open spec fn ready_lines(s: ApplySetup) -> Seq<Seq<char>> {
    seq![
        "Sandbox '"@ + s.sandbox_name@ + "' is ready."@,
        "Inference: "@ + s.profile.provider_name@ + " -> "@ + s.profile.model@ + " @ "@ + s.endpoint@,
    ]
}

/// A command's outcome lets the run go on: it exited with 0, or it failed
/// because the thing exists already and such a failure is tolerated.
pub open spec fn accepted(o: ShellOutput, tolerate_existing: bool) -> bool {
    o.exit_code == 0 || (tolerate_existing && contains_text(o.stderr@, "already exists"@))
}

/// The phases that wait for the output of a command.
pub open spec fn awaits_output(phase: ApplyPhase) -> bool {
    phase == ApplyPhase::CreatingSandbox || phase == ApplyPhase::ConfiguringProvider || phase
        == ApplyPhase::SettingRoute
}

/// The phases after which nothing happens.
pub open spec fn is_over(phase: ApplyPhase) -> bool {
    phase == ApplyPhase::Finished || phase == ApplyPhase::Failed
}

/// The phase after a step.
pub open spec fn next_phase(phase: ApplyPhase, output: Option<ShellOutput>) -> ApplyPhase {
    match phase {
        ApplyPhase::Start => ApplyPhase::CreatingSandbox,
        ApplyPhase::CreatingSandbox => if accepted(output->0, true) {
            ApplyPhase::ConfiguringProvider
        } else {
            ApplyPhase::Failed
        },
        ApplyPhase::ConfiguringProvider => if accepted(output->0, true) {
            ApplyPhase::SettingRoute
        } else {
            ApplyPhase::Failed
        },
        ApplyPhase::SettingRoute => if accepted(output->0, false) {
            ApplyPhase::Saving
        } else {
            ApplyPhase::Failed
        },
        ApplyPhase::Saving => ApplyPhase::Finished,
        ApplyPhase::Finished => ApplyPhase::Finished,
        ApplyPhase::Failed => ApplyPhase::Failed,
    }
}

/// The state saved by a successful run.
pub open spec fn saved_state_of(s: ApplySetup, st: RunState) -> bool {
    &&& st.run_id == s.run_id
    &&& st.profile == s.profile_name
    &&& st.sandbox_name == s.sandbox_name
    &&& inference_of(s.profile, s.endpoint@, st.inference)
}

/// A timestamp read from the clock: at or after the Unix epoch, with the
/// nanoseconds of a whole second, and a moment that has UTC calendar fields.
pub open spec fn clock_reading(t: Timestamp) -> bool {
    &&& 0 <= t.secs
    &&& t.nanos < 1_000_000_000
    &&& exists|f: DateTimeFields| f.in_range() && fields_at(t.secs as int, f)
}

/// The saved state carries the profile's inference fields unchanged.
pub open spec fn saved_inference_fields(s: ApplySetup, st: RunState) -> bool {
    &&& st.inference.provider_type == s.profile.provider_type
    &&& st.inference.provider_name == s.profile.provider_name
    &&& st.inference.endpoint == s.endpoint
    &&& st.inference.model == s.profile.model
    &&& st.inference.credential_env == s.profile.credential_env
}

/// The action of a step from `phase`.
pub open spec fn apply_action(
    s: ApplySetup,
    phase: ApplyPhase,
    output: Option<ShellOutput>,
    action: ApplyAction,
) -> bool {
    match phase {
        ApplyPhase::Start => action matches ApplyAction::Run { notice, percent, label, args }
            && notice is None && percent == 20 && label@ == "Creating OpenClaw sandbox"@
            && args.deep_view() == create_args(s),
        ApplyPhase::CreatingSandbox => {
            let o = output->0;
            if accepted(o, true) {
                action matches ApplyAction::Run { notice, percent, label, args } && percent == 50
                    && label@ == "Configuring inference provider"@ && args.deep_view()
                    == provider_args(s) && (o.exit_code == 0 ==> notice is None) && (o.exit_code
                    != 0 ==> (notice is Some && notice->0@ == reuse_notice(s.sandbox_name@)))
            } else {
                action matches ApplyAction::Fail(EngineError::SandboxCreate { detail }) && detail@
                    == trimmed(o.stderr@)
            }
        },
        ApplyPhase::ConfiguringProvider => {
            let o = output->0;
            if accepted(o, true) {
                action matches ApplyAction::Run { notice, percent, label, args } && notice is None
                    && percent == 70 && label@ == "Setting inference route"@ && args.deep_view()
                    == route_args(s)
            } else {
                action matches ApplyAction::Fail(EngineError::ProviderConfig { detail }) && detail@
                    == trimmed(o.stderr@)
            }
        },
        ApplyPhase::SettingRoute => {
            let o = output->0;
            if accepted(o, false) {
                (action matches ApplyAction::Save { percent, label, state } && percent == 85
                    && label@ == "Saving run state"@ && saved_state_of(s, state)
                    && saved_inference_fields(s, state) && clock_reading(state.timestamp))
                    || action matches ApplyAction::Fail(EngineError::ClockUnavailable)
            } else {
                action matches ApplyAction::Fail(EngineError::InferenceRoute { detail }) && detail@
                    == trimmed(o.stderr@)
            }
        },
        ApplyPhase::Saving => action matches ApplyAction::Finish { lines, percent, label }
            && percent == 100 && label@ == "Apply complete"@ && lines.deep_view() == ready_lines(
            s,
        ),
        _ => false,
    }
}

/// A copy of a profile.
pub fn copy_profile(p: &InferenceProfile) -> (q: InferenceProfile)
    ensures
        q == *p,
{
    InferenceProfile {
        provider_type: p.provider_type.clone(),
        provider_name: p.provider_name.clone(),
        endpoint: p.endpoint.clone(),
        model: p.model.clone(),
        credential_env: copy_opt(&p.credential_env),
        credential_default: copy_opt(&p.credential_default),
        dynamic_endpoint: p.dynamic_endpoint,
    }
}

/// The credential of a run (see `resolved_credential`).
pub fn resolve_credential(env_value: Option<&str>, default: &Option<String>) -> (c: String)
    ensures
        c@ == resolved_credential(opt_text(env_value), *default),
{
    match env_value {
        Some(v) => str_to_string(v),
        None => match default {
            Some(d) => d.clone(),
            None => String::new(),
        },
    }
}

impl ApplySetup {
    /// The setup of a run of `profile` (named `profile_name`) on `sandbox`.
    /// `credential_env_value` is the value of the profile's credential variable,
    /// if it has one and it is set.
    pub fn new(
        run_id: &str,
        profile_name: &str,
        sandbox: &SandboxConfig,
        profile: &InferenceProfile,
        endpoint_url: Option<&str>,
        credential_env_value: Option<&str>,
    ) -> (s: ApplySetup)
        ensures
            s.run_id@ == run_id@,
            s.profile_name@ == profile_name@,
            s.sandbox_name == sandbox.name,
            s.sandbox_image == sandbox.image,
            s.forward_ports@ == sandbox.forward_ports@,
            s.profile == *profile,
            s.endpoint@ == resolved_endpoint(profile.endpoint@, opt_text(endpoint_url)),
            s.credential@ == resolved_credential(
                opt_text(credential_env_value),
                profile.credential_default,
            ),
    {
        let mut ports: Vec<u16> = Vec::new();
        let mut i: usize = 0;
        while i < sandbox.forward_ports.len()
            invariant
                i <= sandbox.forward_ports@.len(),
                ports@ == sandbox.forward_ports@.take(i as int),
            decreases sandbox.forward_ports@.len() - i,
        {
            ports.push(sandbox.forward_ports[i]);
            assert(ports@ =~= sandbox.forward_ports@.take(i + 1));
            i = i + 1;
        }
        assert(sandbox.forward_ports@.take(i as int) =~= sandbox.forward_ports@);
        ApplySetup {
            run_id: str_to_string(run_id),
            profile_name: str_to_string(profile_name),
            sandbox_name: sandbox.name.clone(),
            sandbox_image: sandbox.image.clone(),
            forward_ports: ports,
            profile: copy_profile(profile),
            endpoint: resolve_endpoint(profile, endpoint_url),
            credential: resolve_credential(credential_env_value, &profile.credential_default),
        }
    }

    /// The arguments of `openshell sandbox create`.
    pub fn create_args(&self) -> (args: Vec<String>)
        ensures
            args.deep_view() == create_args(*self),
    {
        let mut args: Vec<String> = Vec::new();
        args.push(str_to_string("sandbox"));
        args.push(str_to_string("create"));
        args.push(str_to_string("--from"));
        args.push(self.sandbox_image.clone());
        args.push(str_to_string("--name"));
        args.push(self.sandbox_name.clone());
        let ghost head = args.deep_view();
        assert(head =~= seq![
            "sandbox"@,
            "create"@,
            "--from"@,
            self.sandbox_image@,
            "--name"@,
            self.sandbox_name@,
        ]);
        let mut i: usize = 0;
        while i < self.forward_ports.len()
            invariant
                i <= self.forward_ports@.len(),
                args.deep_view() == head + self.forward_ports@.take(i as int).map_values(
                    |p: u16| forward_flag(p),
                ),
            decreases self.forward_ports@.len() - i,
        {
            let mut flag = str_to_string("--forward=");
            append_decimal(&mut flag, self.forward_ports[i] as u64);
            let ghost fv = flag@;
            assert(fv == forward_flag(self.forward_ports@[i as int]));
            let ghost before = args.deep_view();
            args.push(flag);
            assert(args.deep_view() =~= before.push(fv));
            assert(self.forward_ports@.take(i + 1).map_values(|p: u16| forward_flag(p))
                =~= self.forward_ports@.take(i as int).map_values(|p: u16| forward_flag(p)).push(
                forward_flag(self.forward_ports@[i as int]),
            ));
            assert(args.deep_view() =~= head + self.forward_ports@.take(i + 1).map_values(
                |p: u16| forward_flag(p),
            ));
            i = i + 1;
        }
        assert(self.forward_ports@.take(i as int) =~= self.forward_ports@);
        args
    }

    /// The arguments of `openshell provider create`.
    pub fn provider_args(&self) -> (args: Vec<String>)
        ensures
            args.deep_view() == provider_args(*self),
    {
        let mut args: Vec<String> = Vec::new();
        args.push(str_to_string("provider"));
        args.push(str_to_string("create"));
        args.push(str_to_string("--name"));
        args.push(self.profile.provider_name.clone());
        args.push(str_to_string("--type"));
        args.push(self.profile.provider_type.clone());
        let ghost head = args.deep_view();
        let ghost cred_part: Seq<Seq<char>> = if self.credential@.len() > 0 {
            seq!["--credential"@, "OPENAI_API_KEY="@ + self.credential@]
        } else {
            Seq::empty()
        };
        let ghost end_part: Seq<Seq<char>> = if self.endpoint@.len() > 0 {
            seq!["--config"@, "OPENAI_BASE_URL="@ + self.endpoint@]
        } else {
            Seq::empty()
        };
        if self.credential.as_str().unicode_len() > 0 {
            args.push(str_to_string("--credential"));
            let mut kv = str_to_string("OPENAI_API_KEY=");
            kv.append(self.credential.as_str());
            args.push(kv);
        }
        assert(args.deep_view() =~= head + cred_part);
        if self.endpoint.as_str().unicode_len() > 0 {
            args.push(str_to_string("--config"));
            let mut kv = str_to_string("OPENAI_BASE_URL=");
            kv.append(self.endpoint.as_str());
            args.push(kv);
        }
        assert(args.deep_view() =~= head + cred_part + end_part);
        args
    }

    /// The arguments of `openshell inference set`.
    pub fn route_args(&self) -> (args: Vec<String>)
        ensures
            args.deep_view() == route_args(*self),
    {
        let mut args: Vec<String> = Vec::new();
        args.push(str_to_string("inference"));
        args.push(str_to_string("set"));
        args.push(str_to_string("--provider"));
        args.push(self.profile.provider_name.clone());
        args.push(str_to_string("--model"));
        args.push(self.profile.model.clone());
        assert(args.deep_view() =~= route_args(*self));
        args
    }

    /// The lines printed when the run is done.
    pub fn ready_lines(&self) -> (lines: Vec<String>)
        ensures
            lines.deep_view() == ready_lines(*self),
    {
        let mut first = str_to_string("Sandbox '");
        first.append(self.sandbox_name.as_str());
        first.append("' is ready.");
        let mut second = str_to_string("Inference: ");
        second.append(self.profile.provider_name.as_str());
        second.append(" -> ");
        second.append(self.profile.model.as_str());
        second.append(" @ ");
        second.append(self.endpoint.as_str());
        let mut lines: Vec<String> = Vec::new();
        lines.push(first);
        lines.push(second);
        assert(lines.deep_view() =~= ready_lines(*self));
        lines
    }

    /// The state saved at the end of the run, stamped with the time `now`.
    pub fn run_state_at(&self, now: &Now) -> (st: RunState)
        ensures
            saved_state_of(*self, st),
            saved_inference_fields(*self, st),
            st.timestamp == now.timestamp,
    {
        RunState {
            run_id: self.run_id.clone(),
            profile: self.profile_name.clone(),
            sandbox_name: self.sandbox_name.clone(),
            inference: inference_state(&self.profile, self.endpoint.clone()),
            timestamp: now.timestamp,
        }
    }

    /// The state saved at the end of the run, stamped with the current time; it
    /// fails when the clock cannot be read as a UTC time.
    pub fn run_state(&self) -> (r: Result<RunState, EngineError>)
        ensures
            r matches Ok(st) ==> saved_state_of(*self, st) && clock_reading(st.timestamp),
            r matches Ok(st) ==> saved_inference_fields(*self, st),
            r matches Err(e) ==> e is ClockUnavailable,
    {
        let now = match utc_now() {
            Some(n) => n,
            None => return Err(EngineError::ClockUnavailable),
        };
        let st = self.run_state_at(&now);
        assert(now.fields.in_range() && fields_at(now.timestamp.secs as int, now.fields));
        Ok(st)
    }
}

impl ApplyRun {
    /// A run that has not started yet.
    pub fn new(setup: ApplySetup) -> (r: ApplyRun)
        ensures
            r.setup == setup,
            r.phase == ApplyPhase::Start,
    {
        ApplyRun { setup, phase: ApplyPhase::Start }
    }

    /// One step: what to do next, given the output of the command that the
    /// previous step asked for.
    pub fn step(&mut self, output: Option<ShellOutput>) -> (action: ApplyAction)
        requires
            !is_over(old(self).phase),
            awaits_output(old(self).phase) ==> output is Some,
        ensures
            final(self).setup == old(self).setup,
            final(self).phase == if action matches ApplyAction::Fail(EngineError::ClockUnavailable) {
                ApplyPhase::Failed
            } else {
                next_phase(old(self).phase, output)
            },
            apply_action(old(self).setup, old(self).phase, output, action),
    {
        match self.phase {
            ApplyPhase::Start => {
                self.phase = ApplyPhase::CreatingSandbox;
                ApplyAction::Run {
                    notice: None,
                    percent: 20,
                    label: str_to_string("Creating OpenClaw sandbox"),
                    args: self.setup.create_args(),
                }
            },
            ApplyPhase::CreatingSandbox => {
                let o = output.unwrap();
                let exists = contains(o.stderr.as_str(), "already exists");
                if o.exit_code != 0 && !exists {
                    self.phase = ApplyPhase::Failed;
                    return ApplyAction::Fail(
                        EngineError::SandboxCreate { detail: trim(o.stderr.as_str()) },
                    );
                }
                let notice = if o.exit_code != 0 {
                    let mut n = str_to_string("Sandbox '");
                    n.append(self.setup.sandbox_name.as_str());
                    n.append("' already exists, reusing");
                    Some(n)
                } else {
                    None
                };
                self.phase = ApplyPhase::ConfiguringProvider;
                ApplyAction::Run {
                    notice,
                    percent: 50,
                    label: str_to_string("Configuring inference provider"),
                    args: self.setup.provider_args(),
                }
            },
            ApplyPhase::ConfiguringProvider => {
                let o = output.unwrap();
                let exists = contains(o.stderr.as_str(), "already exists");
                if o.exit_code != 0 && !exists {
                    self.phase = ApplyPhase::Failed;
                    return ApplyAction::Fail(
                        EngineError::ProviderConfig { detail: trim(o.stderr.as_str()) },
                    );
                }
                self.phase = ApplyPhase::SettingRoute;
                ApplyAction::Run {
                    notice: None,
                    percent: 70,
                    label: str_to_string("Setting inference route"),
                    args: self.setup.route_args(),
                }
            },
            ApplyPhase::SettingRoute => {
                let o = output.unwrap();
                if o.exit_code != 0 {
                    self.phase = ApplyPhase::Failed;
                    return ApplyAction::Fail(
                        EngineError::InferenceRoute { detail: trim(o.stderr.as_str()) },
                    );
                }
                match self.setup.run_state() {
                    Ok(state) => {
                        self.phase = ApplyPhase::Saving;
                        ApplyAction::Save {
                            percent: 85,
                            label: str_to_string("Saving run state"),
                            state,
                        }
                    },
                    Err(e) => {
                        self.phase = ApplyPhase::Failed;
                        ApplyAction::Fail(e)
                    },
                }
            },
            _ => {
                self.phase = ApplyPhase::Finished;
                ApplyAction::Finish {
                    lines: self.setup.ready_lines(),
                    percent: 100,
                    label: str_to_string("Apply complete"),
                }
            },
        }
    }
}

/// The phase after the start and three command outputs.
pub open spec fn phase_after(o1: ShellOutput, o2: ShellOutput, o3: ShellOutput) -> ApplyPhase {
    next_phase(
        next_phase(
            next_phase(next_phase(ApplyPhase::Start, None), Some(o1)),
            Some(o2),
        ),
        Some(o3),
    )
}

/// Law: the commands' outputs lead to saving exactly when the sandbox was
/// created or exists already, the provider was configured or exists already,
/// and the inference route was set; any other outcome fails the run. The route
/// step tolerates no failure, not even one that reports an existing route.
/// (`ApplyRun::step` may still fail at that last step when the clock cannot be
/// read for the saved state; it never saves otherwise.)
pub proof fn lemma_apply_saves_only_after_all_steps(o1: ShellOutput, o2: ShellOutput, o3: ShellOutput)
    ensures
        next_phase(ApplyPhase::Start, None) == ApplyPhase::CreatingSandbox,
        phase_after(o1, o2, o3) == ApplyPhase::Saving <==> accepted(o1, true) && accepted(o2, true)
            && o3.exit_code == 0,
        phase_after(o1, o2, o3) != ApplyPhase::Saving ==> phase_after(o1, o2, o3)
            == ApplyPhase::Failed,
        next_phase(ApplyPhase::Saving, None) == ApplyPhase::Finished,
{
}

/// Law: a rollback of the state that `apply` saved stops and removes the very
/// sandbox that `apply` created: the name after `--name` in the create command.
pub proof fn lemma_rollback_targets_created_sandbox(s: ApplySetup, st: RunState)
    requires
        saved_state_of(s, st),
    ensures
        create_args(s)[5] == st.sandbox_name@,
        crate::rollback::sandbox_command("stop"@, st.sandbox_name@)[2] == create_args(s)[5],
        crate::rollback::sandbox_command("remove"@, st.sandbox_name@)[2] == create_args(s)[5],
{
}

/// Law: `plan` and `apply` agree on a run's inference route: for the same
/// profile and endpoint override, the plan shows what `apply` configures and
/// saves.
pub proof fn lemma_plan_matches_apply(
    s: ApplySetup,
    profile: InferenceProfile,
    endpoint_url: Option<Seq<char>>,
    planned: crate::state::InferenceState,
    st: RunState,
)
    requires
        s.profile == profile,
        s.endpoint@ == resolved_endpoint(profile.endpoint@, endpoint_url),
        inference_of(profile, resolved_endpoint(profile.endpoint@, endpoint_url), planned),
        saved_state_of(s, st),
    ensures
        st.inference.provider_type == planned.provider_type,
        st.inference.provider_name == planned.provider_name,
        st.inference.endpoint@ == planned.endpoint@,
        st.inference.model == planned.model,
        st.inference.credential_env == planned.credential_env,
        route_args(s)[3] == planned.provider_name@,
        route_args(s)[5] == planned.model@,
{
}

/// Law: once a run is over, it stays over.
pub proof fn lemma_apply_over_is_final(phase: ApplyPhase, output: Option<ShellOutput>)
    requires
        is_over(phase),
    ensures
        next_phase(phase, output) == phase,
{
}

} // verus!
