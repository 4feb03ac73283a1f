//! The host binding surface: the fixed catalogue of values and utilities
//! the host exposes into every execution context beyond the mandatory
//! buffer-text input.

use vstd::prelude::*;

verus! {

/// The greeting the `say_hello` host utility prints: a general greeting
/// when the script passed no argument, a personal one otherwise.
pub fn greeting_line(name: Option<String>) -> (r: String)
    ensures
        name matches Some(n) ==> r@ == "Hello "@ + n@ + "!"@,
        name is None ==> r@ == "Hello World!"@,
{
    match name {
        Some(n) => {
            let mut line = "Hello ".to_owned();
            line.push_str(n.as_str());
            line.push_str("!");
            line
        },
        None => "Hello World!".to_owned(),
    }
}

} // verus!
