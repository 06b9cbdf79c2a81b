//! Decoding of byte buffers handed in by a host as UTF-8 text.
use vstd::prelude::*;
use vstd::utf8::{decode_utf8, valid_utf8};

verus! {

#[verifier::external_type_specification]
#[verifier::external_body]
pub struct ExUtf8Error(std::str::Utf8Error);

/// Relies on `std::str::from_utf8`: it accepts exactly the valid UTF-8
/// sequences and hands back the text that they encode.
#[verifier::external_body]
pub(crate) fn decode_text(b: &[u8]) -> (r: Result<&str, std::str::Utf8Error>)
    ensures
        r is Ok <==> valid_utf8(b@),
        r matches Ok(t) ==> t@ == decode_utf8(b@),
{
    std::str::from_utf8(b)
}

} // verus!
