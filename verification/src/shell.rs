//! The outcome of an `openshell` command, and what the engine makes of it.
use vstd::prelude::*;
use crate::error::EngineError;
use crate::text::{str_to_string, trim, trimmed};

verus! {

/// Output from a shell command.
#[derive(Debug)]
pub struct ShellOutput {
    pub stdout: String,
    pub stderr: String,
    pub exit_code: i32,
}

/// The first argument of a command line, or nothing.
pub open spec fn first_arg(args: Seq<Seq<char>>) -> Seq<char> {
    if args.len() > 0 {
        args[0]
    } else {
        Seq::empty()
    }
}

/// Fail on a non-zero exit of `openshell <args>`: the error names the first
/// argument, the exit code and the trimmed standard error.
pub fn check_openshell_output(args: &Vec<String>, output: ShellOutput) -> (r: Result<
    ShellOutput,
    EngineError,
>)
    ensures
        output.exit_code == 0 ==> r == Ok::<ShellOutput, EngineError>(output),
        output.exit_code != 0 ==> (r matches Err(
            EngineError::OpenshellFailed { command, exit_code, detail },
        ) && command@ == first_arg(args.deep_view()) && exit_code == output.exit_code && detail@
            == trimmed(output.stderr@)),
{
    if output.exit_code != 0 {
        let command = if args.len() > 0 {
            args[0].clone()
        } else {
            str_to_string("")
        };
        proof {
            reveal_strlit("");
        }
        let detail = trim(output.stderr.as_str());
        return Err(EngineError::OpenshellFailed { command, exit_code: output.exit_code, detail });
    }
    Ok(output)
}

} // verus!
