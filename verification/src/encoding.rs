use vstd::prelude::*;

use base64::Engine;

verus! {

/// The standard padded base64 rendering of a byte sequence.
pub uninterp spec fn base64_text(bytes: Seq<u8>) -> Seq<char>;

/// Holds when `r` maps the base64 rendering of any byte sequence back to
/// those bytes.
pub open spec fn base64_decodes_back(s: Seq<char>, r: Result<Vec<u8>, ()>) -> bool {
    forall|b: Seq<u8>| s == base64_text(b) ==> (r matches Ok(v) && v@ == b)
}

/// Relies on base64::prelude::BASE64_STANDARD.encode: the rendering is a
/// function of the bytes alone.
#[verifier::external_body]
pub(crate) fn b64_encode(bytes: &[u8]) -> (r: String)
    ensures
        r@ == base64_text(bytes@),
{
    base64::prelude::BASE64_STANDARD.encode(bytes)
}

/// Relies on base64::prelude::BASE64_STANDARD.decode: the engine requires
/// canonical padding and trailing bits, so it accepts exactly the canonical
/// renderings and inverts the encoding.
#[verifier::external_body]
pub(crate) fn b64_decode(s: &str) -> (r: Result<Vec<u8>, ()>)
    ensures
        r matches Ok(v) ==> s@ == base64_text(v@),
        base64_decodes_back(s@, r),
{
    base64::prelude::BASE64_STANDARD.decode(s).map_err(|_| ())
}

/// Relies on String::from_utf8: it succeeds exactly on valid UTF-8 input and
/// returns the text whose encoding is that input.
#[verifier::external_body]
pub(crate) fn string_from_utf8(bytes: Vec<u8>) -> (r: Result<String, ()>)
    ensures
        r matches Ok(s) ==> vstd::utf8::encode_utf8(s@) == bytes@,
        vstd::utf8::valid_utf8(bytes@) ==> r is Ok,
{
    String::from_utf8(bytes).map_err(|_| ())
}

} // verus!
