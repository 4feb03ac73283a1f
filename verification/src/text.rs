//! Trusted text primitives from the standard library: appending to a
//! `String`, decoding bytes as UTF-8, and Unicode lower-casing.

use vstd::prelude::*;

verus! {

/// The lower-cased form of a sequence of characters, as
/// `str::to_lowercase` computes it.  The result depends on the characters
/// alone, so the name stands for whatever that function returns.
pub uninterp spec fn lower_of(s: Seq<char>) -> Seq<char>;

/// Relies on `alloc::string::String::push_str`: appends the given string
/// slice onto the end of the string.
pub assume_specification[ String::push_str ](s: &mut String, other: &str)
    ensures
        final(s)@ == old(s)@ + other@,
;

/// Relies on `alloc::string::String::from_utf8`: returns the decoded text
/// exactly when the bytes are valid UTF-8, and an error otherwise.
#[verifier::external_body]
pub fn decode_text(bytes: Vec<u8>) -> (r: Option<String>)
    ensures
        r is Some <==> vstd::utf8::valid_utf8(bytes@),
        r matches Some(s) ==> s@ == vstd::utf8::decode_utf8(bytes@),
{
    String::from_utf8(bytes).ok()
}

/// Relies on `str::to_lowercase`: the result depends on the characters
/// alone.
#[verifier::external_body]
pub fn lowercase(s: &str) -> (r: String)
    ensures
        r@ == lower_of(s@),
{
    s.to_lowercase()
}

} // verus!
