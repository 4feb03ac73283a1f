//! The script runtime adapter: verified steps of one plugin run, each
//! built on a trusted engine wrapper.  Every error is normalized into a
//! [`ScriptError`] whose phase says which step failed.

use vstd::prelude::*;
use crate::engine;
use crate::outcome::{has_prefix, Phase, ScriptError};

verus! {

/// The message of a lookup-phase error: the plugin never defined the
/// entry point.
pub open spec fn no_entry_message() -> Seq<char> {
    "plugin does not define a callable main"@
}

/// The message of a conversion-phase error on the plugin's return value.
pub open spec fn not_text_message() -> Seq<char> {
    "plugin did not return text"@
}

/// Binds host text into the context under the given identifier; with
/// `writable` false the script cannot overwrite it.  A rejection by the
/// runtime is a conversion-phase error.
pub fn bind_value(
    ctx: &mut boa_engine::Context,
    name: &str,
    value: &str,
    writable: bool,
) -> (r: Result<(), ScriptError>)
    ensures
        r matches Err(e) ==> e.phase == Phase::Convert
            && has_prefix(e.message@, "host binding rejected: "@) && e.message@.len() > 0,
{
    match engine::bind_text(ctx, name, value, writable) {
        Ok(()) => Ok(()),
        Err(rejection) => {
            let mut message = "host binding rejected: ".to_owned();
            message.push_str(engine::error_to_text(&rejection).as_str());
            proof {
                reveal_strlit("host binding rejected: ");
            }
            Err(ScriptError { phase: Phase::Convert, message })
        },
    }
}

/// Installs the host utility function `say_hello` into the context.  A
/// rejection by the runtime is a conversion-phase error.
pub fn install_greeter(ctx: &mut boa_engine::Context) -> (r: Result<(), ScriptError>)
    ensures
        r matches Err(e) ==> e.phase == Phase::Convert
            && has_prefix(e.message@, "host binding rejected: "@) && e.message@.len() > 0,
{
    match engine::register_greeter(ctx) {
        Ok(()) => Ok(()),
        Err(rejection) => {
            let mut message = "host binding rejected: ".to_owned();
            message.push_str(engine::error_to_text(&rejection).as_str());
            proof {
                reveal_strlit("host binding rejected: ");
            }
            Err(ScriptError { phase: Phase::Convert, message })
        },
    }
}

/// Evaluates the plugin's full source text in the context: the source is
/// parsed, then its top-level code is run, establishing whatever the
/// plugin defines.  A source the engine's parser rejects is a
/// parse-phase error, and only such a source is; an exception thrown by
/// top-level code is a runtime-phase error.
///
/// The phase classification goes by the canonical syntax check: what the
/// parser does in this particular context cannot be tied to the source
/// text alone by contract, so the engine's diagnostic is kept but the
/// phase follows `js_parse_ok`.
pub fn evaluate(ctx: &mut boa_engine::Context, source: &str) -> (r: Result<(), ScriptError>)
    ensures
        r matches Err(e) ==> (e.phase == Phase::Parse || e.phase == Phase::Runtime),
        !engine::js_parse_ok(source@) ==> (r matches Err(e) && e.phase == Phase::Parse),
        r matches Err(e) ==> (e.phase == Phase::Parse ==> !engine::js_parse_ok(source@)),
{
    let well_formed = engine::check_parse(source);
    match engine::parse_script(ctx, source) {
        Err(bad_syntax) => {
            let message = engine::error_to_text(&bad_syntax);
            if well_formed {
                Err(ScriptError { phase: Phase::Runtime, message })
            } else {
                Err(ScriptError { phase: Phase::Parse, message })
            }
        },
        Ok(script) => {
            if !well_formed {
                return Err(
                    ScriptError {
                        phase: Phase::Parse,
                        message: "plugin source does not parse".to_owned(),
                    },
                );
            }
            match engine::evaluate_script(ctx, &script) {
                Err(thrown) => Err(
                    ScriptError {
                        phase: Phase::Runtime,
                        message: engine::error_to_text(&thrown),
                    },
                ),
                Ok(_) => Ok(()),
            }
        },
    }
}

/// Looks up the entry point `main` among the globals the plugin defined
/// — whatever declaration form it used — and calls it with the buffer
/// text as its single argument.  A missing or uncallable entry point is
/// a lookup-phase error; an exception thrown by the call is a
/// runtime-phase error.
pub fn invoke(ctx: &mut boa_engine::Context, input: &str) -> (r: Result<
    boa_engine::JsValue,
    ScriptError,
>)
    ensures
        r matches Err(e) ==> (e.phase == Phase::Lookup || e.phase == Phase::Runtime),
        r matches Err(e) ==> (e.phase == Phase::Lookup ==> e.message@ == no_entry_message()),
{
    let found = match engine::global_value(ctx, "main") {
        Err(thrown) => {
            return Err(
                ScriptError { phase: Phase::Runtime, message: engine::error_to_text(&thrown) },
            );
        },
        Ok(value) => value,
    };
    // `function` and `var` declarations surface as global-object
    // properties; `let`, `const` and `class` declarations live in the
    // global declarative record.  An undefined property is therefore
    // resolved once more through the full environment chain before the
    // entry point is declared missing.
    let entry = if engine::is_undefined(&found) {
        match engine::resolve_binding(ctx, "main") {
            Err(_) => {
                return Err(
                    ScriptError {
                        phase: Phase::Lookup,
                        message: "plugin does not define a callable main".to_owned(),
                    },
                );
            },
            Ok(value) => value,
        }
    } else {
        found
    };
    let function = match engine::as_function(&entry) {
        None => {
            return Err(
                ScriptError {
                    phase: Phase::Lookup,
                    message: "plugin does not define a callable main".to_owned(),
                },
            );
        },
        Some(function) => function,
    };
    match engine::call_with_text(ctx, &function, input) {
        Err(thrown) => Err(
            ScriptError { phase: Phase::Runtime, message: engine::error_to_text(&thrown) },
        ),
        Ok(value) => Ok(value),
    }
}

/// Converts the value the entry point returned into host text: exactly
/// the values the engine reports as text convert; anything else is a
/// conversion-phase error with the fixed diagnostic.
pub fn convert(value: &boa_engine::JsValue) -> (r: Result<String, ScriptError>)
    ensures
        r matches Err(e) ==> e.phase == Phase::Convert && e.message@ == not_text_message(),
{
    match engine::value_to_text(value) {
        Some(text) => Ok(text),
        None => Err(
            ScriptError {
                phase: Phase::Convert,
                message: "plugin did not return text".to_owned(),
            },
        ),
    }
}

} // verus!
