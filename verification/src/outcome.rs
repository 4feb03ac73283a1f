//! Outcomes of a plugin invocation: script errors, grouped by the stage
//! they came from, and the final success-or-failure result.

use vstd::prelude::*;

verus! {

/// The stage of an invocation that an error came from: parsing the plugin
/// source, running script code, looking up the entry point, or converting
/// a value across the script boundary.
#[derive(Debug, Clone, PartialEq, Eq)]
pub enum Phase {
    Parse,
    Runtime,
    Lookup,
    Convert,
}

/// An error raised while evaluating or invoking a plugin script, with the
/// stage it came from and a human-readable message.
#[derive(Debug, Clone, PartialEq, Eq)]
pub struct ScriptError {
    pub phase: Phase,
    pub message: String,
}

/// The outcome of running one plugin against the buffer: either the new
/// buffer text, or a diagnostic describing why the run failed.
#[derive(Debug, Clone, PartialEq, Eq)]
pub enum InvocationResult {
    Success(String),
    Failure(String),
}

/// Whether a diagnostic begins with the given fixed prefix.
pub open spec fn has_prefix(text: Seq<char>, prefix: Seq<char>) -> bool {
    exists|rest: Seq<char>| text == prefix + rest
}

/// The diagnostic text shown for a script error.  Parse and runtime errors
/// carry a stage label in front of the engine's own message; lookup and
/// conversion errors are reported with their message alone, which the
/// adapter states in full.
pub open spec fn diagnostic_of(phase: Phase, message: Seq<char>) -> Seq<char> {
    match phase {
        Phase::Parse => "parse error: "@ + message,
        Phase::Runtime => "runtime error: "@ + message,
        Phase::Lookup => message,
        Phase::Convert => message,
    }
}

/// Renders a script error as a failed invocation carrying its diagnostic.
pub fn failure_of(e: ScriptError) -> (r: InvocationResult)
    ensures
        r matches InvocationResult::Failure(d) && d@ == diagnostic_of(e.phase, e.message@),
{
    match e.phase {
        Phase::Parse => {
            let mut d = "parse error: ".to_owned();
            d.push_str(e.message.as_str());
            InvocationResult::Failure(d)
        },
        Phase::Runtime => {
            let mut d = "runtime error: ".to_owned();
            d.push_str(e.message.as_str());
            InvocationResult::Failure(d)
        },
        Phase::Lookup => InvocationResult::Failure(e.message),
        Phase::Convert => InvocationResult::Failure(e.message),
    }
}

/// Turns the converted return value of a plugin run into the final
/// invocation result: the text on success, the error's diagnostic
/// otherwise.
pub fn outcome_of(converted: Result<String, ScriptError>) -> (r: InvocationResult)
    ensures
        converted matches Ok(s) ==> r == InvocationResult::Success(s),
        converted matches Err(e) ==> (r matches InvocationResult::Failure(d)
            && d@ == diagnostic_of(e.phase, e.message@)),
{
    match converted {
        Ok(s) => InvocationResult::Success(s),
        Err(e) => failure_of(e),
    }
}

} // verus!
