//! Decoding of UTF-8 text that OpenCL hands back as bytes.

use vstd::prelude::*;
use vstd::utf8::{decode_utf8, valid_utf8};

verus! {

/// The text of the error that `String::from_utf8` reports for `bytes` (its
/// `Display`, which tells where and how the decoding failed).
pub uninterp spec fn utf8_error_text(bytes: Seq<u8>) -> Seq<char>;

/// Calls `String::from_utf8`. Its documentation says that it returns the
/// bytes as a `String` where they are valid UTF-8, and an error where they
/// are not; the contract claims exactly that, with UTF-8 validity and
/// decoding as vstd defines them. The error is handed on as its text, which
/// depends on the bytes alone and is named, not spelled out.
#[verifier::external_body]
pub(crate) fn string_from_utf8(bytes: Vec<u8>) -> (r: Result<String, String>)
    ensures
        r is Ok <==> valid_utf8(bytes@),
        r matches Ok(s) ==> s@ == decode_utf8(bytes@),
        r matches Err(m) ==> m@ == utf8_error_text(bytes@),
{
    match String::from_utf8(bytes) {
        Ok(s) => Ok(s),
        Err(e) => Err(e.to_string()),
    }
}

} // verus!
