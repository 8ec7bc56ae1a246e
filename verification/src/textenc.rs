//! Trusted text conversions the codec relies on: UTF-8 validation and
//! standard (padded) base64, each behind a small wrapper whose contract the
//! rest of the crate is verified against.

use vstd::prelude::*;

verus! {

use vstd::string::StringSliceAdditionalSpecFns;
use vstd::utf8::decode_utf8;
use vstd::utf8::is_ascii_chars;
use vstd::utf8::valid_utf8;

/// The text that standard padded base64 encoding produces for a byte
/// sequence. The result depends on the bytes alone.
pub uninterp spec fn b64_of(s: Seq<u8>) -> Seq<char>;

/// What standard base64 decoding yields for a text: the decoded bytes, or
/// nothing when the text is not valid standard base64. The result depends
/// on the text alone.
pub uninterp spec fn b64_decoded_of(s: Seq<char>) -> Option<Seq<u8>>;

/// Relies on base64's `Engine::encode` with the `STANDARD` engine (padded,
/// standard alphabet): the output is ASCII text of length
/// `4 * ceil(len / 3)` determined by the input bytes alone, and decoding it
/// with the same engine returns the input. The precondition keeps the
/// output length computation from overflowing `usize`, on which the crate
/// panics.
#[verifier::external_body]
pub(crate) fn b64_encode(input: &[u8]) -> (r: String)
    requires
        input@.len() / 3 * 4 + 4 <= usize::MAX,
    ensures
        r@ == b64_of(input@),
        is_ascii_chars(r@),
        r@.len() == 4 * ((input@.len() + 2) / 3),
        b64_decoded_of(r@) == Some(input@),
{
    base64::Engine::encode(&base64::engine::general_purpose::STANDARD, input)
}

/// Relies on base64's `Engine::decode` with the `STANDARD` engine: whether
/// decoding succeeds, and the bytes it yields, are determined by the input
/// text alone.
#[verifier::external_body]
pub(crate) fn b64_decode(input: &str) -> (r: Option<Vec<u8>>)
    ensures
        match r {
            Some(v) => b64_decoded_of(input@) == Some(v@),
            None => b64_decoded_of(input@) is None,
        },
{
    base64::Engine::decode(&base64::engine::general_purpose::STANDARD, input).ok()
}

/// Relies on `core::str::from_utf8`: returns a `&str` over the bytes
/// exactly when they are valid UTF-8.
#[verifier::external_body]
pub(crate) fn utf8_to_str(bytes: &[u8]) -> (r: Option<&str>)
    ensures
        match r {
            Some(s) => valid_utf8(bytes@) && s.spec_bytes() == bytes@ && s@ == decode_utf8(
                bytes@,
            ),
            None => !valid_utf8(bytes@),
        },
{
    core::str::from_utf8(bytes).ok()
}

} // verus!
