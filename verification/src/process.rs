//! Decoding of captured process output. The bytes a process writes to its
//! diagnostic stream are turned into text before they enter an error.

use vstd::prelude::*;

verus! {

/// Decodes captured process output as text.
///
/// Relies on `String::from_utf8`: on valid UTF-8 input it returns exactly
/// the string those bytes encode. Invalid input is excluded by the
/// precondition, since the underlying unwrap does not return on it.
#[verifier::external_body]
pub(crate) fn to_str(out: Vec<u8>) -> (r: String)
    requires
        vstd::utf8::valid_utf8(out@),
    ensures
        r@ == vstd::utf8::decode_utf8(out@),
{
    String::from_utf8(out).unwrap()
}

} // verus!
