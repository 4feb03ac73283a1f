//! The invocation controller: resolves a plugin by name, runs it in a
//! fresh execution context against the current buffer text, and
//! normalizes every outcome into an [`InvocationResult`].

use vstd::prelude::*;
use crate::adapter;
use crate::engine;
use crate::outcome::{diagnostic_of, has_prefix, outcome_of, InvocationResult, Phase, ScriptError};
use crate::registry::PluginRegistry;
use crate::text::lower_of;

verus! {

/// The diagnostic reported when no plugin carries the requested name.
pub open spec fn missing_plugin_message(name: Seq<char>) -> Seq<char> {
    "no plugin named "@ + name + " found"@
}

/// The diagnostics one plugin run can produce once its name resolved: a
/// labelled parse or runtime error, a rejected host binding, or one of
/// the two fixed entry-point diagnostics.
pub open spec fn plugin_failure_shape(d: Seq<char>) -> bool {
    ||| has_prefix(d, "parse error: "@)
    ||| has_prefix(d, "runtime error: "@)
    ||| has_prefix(d, "host binding rejected: "@)
    ||| d == adapter::no_entry_message()
    ||| d == adapter::not_text_message()
}

/// No diagnostic a resolved plugin run can produce is the unknown-name
/// diagnostic, whatever the name: the shapes differ in their first
/// character.
proof fn lemma_plugin_failure_is_not_missing(d: Seq<char>, name: Seq<char>)
    requires
        plugin_failure_shape(d),
    ensures
        d != missing_plugin_message(name),
{
    reveal_strlit("no plugin named ");
    reveal_strlit(" found");
    reveal_strlit("parse error: ");
    reveal_strlit("runtime error: ");
    reveal_strlit("host binding rejected: ");
    reveal_strlit("plugin does not define a callable main");
    reveal_strlit("plugin did not return text");
    if d == missing_plugin_message(name) {
        assert(missing_plugin_message(name)[0] == 'n');
        if has_prefix(d, "parse error: "@) {
            let rest = choose|rest: Seq<char>| d == "parse error: "@ + rest;
            assert(d == "parse error: "@ + rest);
            assert(d[0] == 'p');
        } else if has_prefix(d, "runtime error: "@) {
            let rest = choose|rest: Seq<char>| d == "runtime error: "@ + rest;
            assert(d == "runtime error: "@ + rest);
            assert(d[0] == 'r');
        } else if has_prefix(d, "host binding rejected: "@) {
            let rest = choose|rest: Seq<char>| d == "host binding rejected: "@ + rest;
            assert(d == "host binding rejected: "@ + rest);
            assert(d[0] == 'h');
        } else if d == adapter::no_entry_message() {
            assert(d[0] == 'p');
        } else {
            assert(d[0] == 'p');
        }
        assert(false);
    }
}

/// A failed invocation carrying the diagnostic of the given script
/// error; the diagnostic is never empty.
fn settle_failure(error: ScriptError) -> (r: InvocationResult)
    requires
        error.phase == Phase::Lookup || error.phase == Phase::Convert
            ==> error.message@.len() > 0,
    ensures
        r matches InvocationResult::Failure(d)
            && d@ == diagnostic_of(error.phase, error.message@),
        r matches InvocationResult::Failure(d) && d@.len() > 0,
{
    proof {
        reveal_strlit("parse error: ");
        reveal_strlit("runtime error: ");
    }
    let ghost phase = error.phase;
    let ghost message = error.message@;
    let settled = outcome_of(Err(error));
    proof {
        assert(diagnostic_of(phase, message).len() > 0);
    }
    settled
}

/// Runs one plugin source against the buffer text, in a fresh,
/// single-use execution context: the buffer is bound read-only under
/// `text_input`, the host surface (`MY_PROJECT_VERSION`, `say_hello`) is
/// installed, the source is evaluated, its `main` entry point is invoked
/// with the buffer text, and the returned value is converted back to
/// text.  The context is discarded when the run completes, so nothing a
/// plugin does can reach a later invocation.
///
/// A source the engine's parser rejects never succeeds: it fails with a
/// parse diagnostic (or, before the source is ever seen, with a rejected
/// host binding).  Every failure diagnostic is non-empty and takes one
/// of the shapes of `plugin_failure_shape`.
pub fn run_source(source: &str, buffer: &str) -> (r: InvocationResult)
    ensures
        r matches InvocationResult::Failure(d) ==> d@.len() > 0,
        r matches InvocationResult::Failure(d) ==> plugin_failure_shape(d@),
        r is Success ==> engine::js_parse_ok(source@),
        !engine::js_parse_ok(source@) ==> (r matches InvocationResult::Failure(d)
            && (has_prefix(d@, "parse error: "@) || has_prefix(d@, "host binding rejected: "@))),
{
    let mut ctx = engine::new_context();
    if let Err(error) = adapter::bind_value(&mut ctx, "text_input", buffer, false) {
        return settle_failure(error);
    }
    if let Err(error) = adapter::bind_value(&mut ctx, "MY_PROJECT_VERSION", "1.0.0", true) {
        return settle_failure(error);
    }
    if let Err(error) = adapter::install_greeter(&mut ctx) {
        return settle_failure(error);
    }
    if let Err(error) = adapter::evaluate(&mut ctx, source) {
        return settle_failure(error);
    }
    let value = match adapter::invoke(&mut ctx, buffer) {
        Err(error) => {
            proof {
                reveal_strlit("plugin does not define a callable main");
            }
            return settle_failure(error);
        },
        Ok(value) => value,
    };
    match adapter::convert(&value) {
        Err(error) => {
            proof {
                reveal_strlit("plugin did not return text");
            }
            settle_failure(error)
        },
        Ok(text) => outcome_of(Ok(text)),
    }
}

/// Runs the plugin registered under `name` (matched case-insensitively)
/// against the current buffer text.  An unknown name is a normal,
/// expected failure, and the fixed unknown-name diagnostic appears if
/// and only if the name is absent; it depends on the registry and the
/// name alone, never on the buffer.  A success can only come from a
/// registered plugin whose source the engine's parser accepts; a
/// registered source the parser rejects fails with a parse diagnostic
/// (or with a rejected host binding, which comes first).
pub fn run(registry: &PluginRegistry, name: &str, buffer: &str) -> (r: InvocationResult)
    ensures
        !registry@.contains_key(lower_of(name@)) ==> (r matches InvocationResult::Failure(d)
            && d@ == missing_plugin_message(name@)),
        r matches InvocationResult::Failure(d) ==> (d@ == missing_plugin_message(name@)
            ==> !registry@.contains_key(lower_of(name@))),
        r is Success ==> registry@.contains_key(lower_of(name@))
            && engine::js_parse_ok(registry@[lower_of(name@)]),
        registry@.contains_key(lower_of(name@)) && !engine::js_parse_ok(
            registry@[lower_of(name@)],
        ) ==> (r matches InvocationResult::Failure(d) && (has_prefix(d@, "parse error: "@)
            || has_prefix(d@, "host binding rejected: "@))),
        r matches InvocationResult::Failure(d) ==> d@.len() > 0,
{
    match registry.lookup(name) {
        None => {
            let mut diagnostic = "no plugin named ".to_owned();
            diagnostic.push_str(name);
            diagnostic.push_str(" found");
            proof {
                reveal_strlit("no plugin named ");
            }
            InvocationResult::Failure(diagnostic)
        },
        Some(source) => {
            let result = run_source(source.as_str(), buffer);
            proof {
                if result is Failure {
                    lemma_plugin_failure_is_not_missing(result->Failure_0@, name@);
                }
            }
            result
        },
    }
}

} // verus!
