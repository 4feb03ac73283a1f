//! Trusted bindings to the embedded script engine (`boa_engine`).
//!
//! Everything a plugin run needs from the engine passes through the
//! wrappers here: creating a fresh context, binding host text into it,
//! parsing and evaluating source, calling a script function, and
//! converting values and errors back to host text.  The engine's values
//! are opaque to the rest of the library; what a script computes is never
//! assumed, only carried.

use std::io::Write;
use vstd::prelude::*;

verus! {

#[verifier::external_type_specification]
#[verifier::external_body]
pub struct ExContext(boa_engine::Context);

#[verifier::external_type_specification]
#[verifier::external_body]
pub struct ExJsValue(boa_engine::JsValue);

#[verifier::external_type_specification]
#[verifier::external_body]
pub struct ExJsError(boa_engine::JsError);

#[verifier::external_type_specification]
#[verifier::external_body]
pub struct ExScript(boa_engine::Script);

/// A callable script object.  `boa_engine::JsObject` cannot be declared
/// to Verus directly (its type parameter is bound by the engine's own
/// `NativeObject` trait), so the object is held opaquely in this struct.
#[verifier::external_body]
pub struct ScriptFunction {
    inner: boa_engine::JsObject,
}

/// Relies on `boa_engine::Context::default`: allocates a fresh execution
/// context with no bindings and no prior script state.
#[verifier::external_body]
pub(crate) fn new_context() -> boa_engine::Context {
    boa_engine::Context::default()
}

/// Relies on `boa_engine::Context::register_global_property`: defines a
/// global property holding the given text; with `writable` false the
/// property is read-only for the script.  Errors when the property is
/// already defined and cannot be redefined.
#[verifier::external_body]
pub(crate) fn bind_text(
    ctx: &mut boa_engine::Context,
    name: &str,
    value: &str,
    writable: bool,
) -> Result<(), boa_engine::JsError> {
    let attribute = if writable {
        boa_engine::property::Attribute::all()
    } else {
        boa_engine::property::Attribute::READONLY
    };
    ctx.register_global_property(
        boa_engine::JsString::from(name),
        boa_engine::JsString::from(value),
        attribute,
    )
}

/// Whether the engine's parser accepts the source text under the default
/// context options.  Syntactic validity depends on the source text
/// alone, so the name stands for whatever `boa_engine::Script::parse`
/// decides on a fresh default context.
pub uninterp spec fn js_parse_ok(source: Seq<char>) -> bool;

/// Relies on `boa_engine::Script::parse` on a fresh default context:
/// whether the source is syntactically valid ECMAScript is a function of
/// the source text alone (a default context is never in strict mode and
/// carries no parser state that could change acceptance).
#[verifier::external_body]
pub(crate) fn check_parse(source: &str) -> (r: bool)
    ensures
        r == js_parse_ok(source@),
{
    let mut scratch = boa_engine::Context::default();
    boa_engine::Script::parse(boa_engine::Source::from_bytes(source), None, &mut scratch).is_ok()
}

/// Relies on `boa_engine::Script::parse`: parses the source as an
/// ECMAScript script, returning an error exactly when the source is not
/// syntactically valid in this context.
#[verifier::external_body]
pub(crate) fn parse_script(
    ctx: &mut boa_engine::Context,
    source: &str,
) -> Result<boa_engine::Script, boa_engine::JsError> {
    boa_engine::Script::parse(boa_engine::Source::from_bytes(source), None, ctx)
}

/// Relies on `boa_engine::Script::evaluate`: runs the parsed top-level
/// code, establishing whatever the script defines, and returns the error
/// the script threw, if any.
#[verifier::external_body]
pub(crate) fn evaluate_script(
    ctx: &mut boa_engine::Context,
    script: &boa_engine::Script,
) -> Result<boa_engine::JsValue, boa_engine::JsError> {
    script.evaluate(ctx)
}

/// Relies on `boa_engine::JsObject::get` on the global object: yields the
/// named property of the global object (`undefined` when absent), or the
/// error a getter threw.  `function` and `var` declarations surface
/// here; `let`, `const` and `class` declarations do not — they live in
/// the global declarative record and need `resolve_binding`.
#[verifier::external_body]
pub(crate) fn global_value(
    ctx: &mut boa_engine::Context,
    name: &str,
) -> Result<boa_engine::JsValue, boa_engine::JsError> {
    let global = ctx.global_object();
    global.get(boa_engine::JsString::from(name), ctx)
}

/// Relies on `boa_engine::JsValue::is_undefined`: true exactly for the
/// `undefined` value.
#[verifier::external_body]
pub(crate) fn is_undefined(value: &boa_engine::JsValue) -> bool {
    value.is_undefined()
}

/// Relies on `boa_engine::Context::eval` on a lone identifier: resolves
/// the name through the full environment chain — `let`, `const` and
/// `class` declarations in the global declarative record included — and
/// yields the engine's `ReferenceError` when the name is unresolvable.
/// Callers hand it the fixed entry-point identifier, nothing else.
#[verifier::external_body]
pub(crate) fn resolve_binding(
    ctx: &mut boa_engine::Context,
    name: &str,
) -> Result<boa_engine::JsValue, boa_engine::JsError> {
    ctx.eval(boa_engine::Source::from_bytes(name))
}

/// Relies on `boa_engine::JsValue::as_callable`: `Some` exactly when the
/// value is an object that can be called as a function.
#[verifier::external_body]
pub(crate) fn as_function(value: &boa_engine::JsValue) -> Option<ScriptFunction> {
    value.as_callable().map(|inner| ScriptFunction { inner })
}

/// Relies on `boa_engine::JsObject::call`: invokes the callable with
/// `undefined` as `this` and the given text as its single argument,
/// returning what it returned or the error it threw.
#[verifier::external_body]
pub(crate) fn call_with_text(
    ctx: &mut boa_engine::Context,
    function: &ScriptFunction,
    argument: &str,
) -> Result<boa_engine::JsValue, boa_engine::JsError> {
    let argument = boa_engine::JsValue::from(boa_engine::JsString::from(argument));
    function.inner.call(&boa_engine::JsValue::undefined(), &[argument], ctx)
}

/// Relies on `boa_engine::JsValue::as_string` and
/// `boa_engine::JsString::to_std_string`: `Some` exactly when the value
/// is a script string whose UTF-16 content converts to host text.
#[verifier::external_body]
pub(crate) fn value_to_text(value: &boa_engine::JsValue) -> Option<String> {
    value.as_string().and_then(|s| s.to_std_string().ok())
}

/// Relies on the `Display` implementation of `boa_engine::JsError`: it
/// renders any engine error — a native error or an arbitrary thrown
/// value — as human-readable text without panicking.
#[verifier::external_body]
pub(crate) fn error_to_text(error: &boa_engine::JsError) -> String {
    format!("{}", error)
}

/// Relies on `boa_engine::Context::register_global_builtin_callable`:
/// installs the host utility `say_hello` as a global script function.
/// The callable converts its first argument to text defensively (a
/// conversion failure becomes a script-visible error, never a host
/// panic), asks the verified `crate::host::greeting_line` for the
/// greeting, and prints it.
#[verifier::external_body]
pub(crate) fn register_greeter(
    ctx: &mut boa_engine::Context,
) -> Result<(), boa_engine::JsError> {
    let hello = boa_engine::NativeFunction::from_fn_ptr(greet);
    ctx.register_global_builtin_callable(boa_engine::JsString::from("say_hello"), 1, hello)
}

/// The body of the `say_hello` host utility; the engine calls it, never
/// the library.  Relies on `boa_engine::JsValue::to_string` to convert
/// the script's argument defensively: a conversion failure is returned
/// to the script as an error and never panics the host.  The greeting
/// itself comes from the verified `crate::host::greeting_line`.
#[verifier::external_body]
fn greet(
    _this: &boa_engine::JsValue,
    args: &[boa_engine::JsValue],
    ctx: &mut boa_engine::Context,
) -> Result<boa_engine::JsValue, boa_engine::JsError> {
    let name = match args.first() {
        Some(v) if !v.is_undefined() => Some(v.to_string(ctx)?.to_std_string_escaped()),
        _ => None,
    };
    let line = crate::host::greeting_line(name);
    let _ = writeln!(std::io::stdout(), "{}", line);
    Ok(boa_engine::JsValue::undefined())
}

} // verus!
