//! Errors that end an engine action, each with the message the engine reports.
use vstd::prelude::*;
use crate::text::{joined, join, signed_decimal, signed_text};

verus! {

/// Why an engine action stopped.
#[derive(Debug)]
pub enum EngineError {
    /// The blueprint has no inference profile of this name.
    ProfileNotFound { name: String, available: Vec<String> },
    /// No saved state exists for this run.
    RunNotFound { run_id: String },
    /// `openshell sandbox create` failed for another reason than an existing sandbox.
    SandboxCreate { detail: String },
    /// `openshell provider create` failed for another reason than an existing provider.
    ProviderConfig { detail: String },
    /// `openshell inference set` failed.
    InferenceRoute { detail: String },
    /// An `openshell` command exited with a non-zero code.
    OpenshellFailed { command: String, exit_code: i32, detail: String },
    /// The system clock is set before 1970, or beyond what can be represented.
    ClockUnavailable,
    /// The operating system gave no random bytes.
    RandomUnavailable,
}

/// The message reported for an error.
pub open spec fn error_message(e: EngineError) -> Seq<char> {
    match e {
        EngineError::ProfileNotFound { name, available } => "profile '"@ + name@
            + "' not found. Available: "@ + joined(available.deep_view(), ", "@),
        EngineError::RunNotFound { run_id } => "run '"@ + run_id@ + "' not found"@,
        EngineError::SandboxCreate { detail } => "Failed to create sandbox: "@ + detail@,
        EngineError::ProviderConfig { detail } => "Failed to configure provider: "@ + detail@,
        EngineError::InferenceRoute { detail } => "Failed to set inference route: "@ + detail@,
        EngineError::OpenshellFailed { command, exit_code, detail } => "openshell "@ + command@
            + " failed (exit "@ + signed_decimal(exit_code as int) + "): "@ + detail@,
        EngineError::ClockUnavailable => "system time before Unix epoch or out of range"@,
        EngineError::RandomUnavailable => "could not retrieve random bytes for uuid"@,
    }
}

impl EngineError {
    /// The message reported for this error.
    pub fn message(&self) -> (m: String)
        ensures
            m@ == error_message(*self),
    {
        let mut m = String::new();
        match self {
            EngineError::ProfileNotFound { name, available } => {
                m.append("profile '");
                m.append(name.as_str());
                m.append("' not found. Available: ");
                let list = join(available, ", ");
                m.append(list.as_str());
            },
            EngineError::RunNotFound { run_id } => {
                m.append("run '");
                m.append(run_id.as_str());
                m.append("' not found");
            },
            EngineError::SandboxCreate { detail } => {
                m.append("Failed to create sandbox: ");
                m.append(detail.as_str());
            },
            EngineError::ProviderConfig { detail } => {
                m.append("Failed to configure provider: ");
                m.append(detail.as_str());
            },
            EngineError::InferenceRoute { detail } => {
                m.append("Failed to set inference route: ");
                m.append(detail.as_str());
            },
            EngineError::OpenshellFailed { command, exit_code, detail } => {
                m.append("openshell ");
                m.append(command.as_str());
                m.append(" failed (exit ");
                let code = signed_text(*exit_code as i64);
                m.append(code.as_str());
                m.append("): ");
                m.append(detail.as_str());
            },
            EngineError::ClockUnavailable => {
                m.append("system time before Unix epoch or out of range");
            },
            EngineError::RandomUnavailable => {
                m.append("could not retrieve random bytes for uuid");
            },
        }
        assert(m@ =~= error_message(*self));
        m
    }
}

} // verus!
