use vstd::prelude::*;

verus! {

/// Advisory content-encoding tag attached to outbound publishes. It is
/// routing metadata only and never affects routing decisions.
#[derive(Clone, Copy, Debug, PartialEq, Eq, Structural)]
pub enum EncodingTag {
    /// The payload parses as a JSON document.
    AppJson,
    /// The payload is valid UTF-8 text (but not JSON).
    TextPlain,
    /// Opaque binary: no heuristic matched.
    RawBytes,
}

/// Whether a byte sequence parses as a JSON document.
pub uninterp spec fn json_parses(b: Seq<u8>) -> bool;

/// Whether a byte sequence is valid UTF-8.
pub uninterp spec fn utf8_valid(b: Seq<u8>) -> bool;

/// Relies on `serde_json::from_slice::<Value>`: whether it succeeds depends
/// on the bytes alone.
#[verifier::external_body]
fn parses_as_json(b: &Vec<u8>) -> (r: bool)
    ensures
        r == json_parses(b@),
{
    serde_json::from_slice::<serde_json::Value>(b.as_slice()).is_ok()
}

/// Relies on `core::str::from_utf8`: it succeeds exactly on valid UTF-8,
/// which depends on the bytes alone.
#[verifier::external_body]
fn is_utf8(b: &Vec<u8>) -> (r: bool)
    ensures
        r == utf8_valid(b@),
{
    core::str::from_utf8(b.as_slice()).is_ok()
}

/// The tag the heuristic assigns: JSON first, then plain UTF-8 text, and a
/// generic raw-bytes tag when neither matches.
pub open spec fn guess_encoding_spec(b: Seq<u8>) -> EncodingTag {
    if json_parses(b) {
        EncodingTag::AppJson
    } else if utf8_valid(b) {
        EncodingTag::TextPlain
    } else {
        EncodingTag::RawBytes
    }
}

/// Infers a payload's content encoding from its raw bytes. Never fails:
/// every payload gets a tag.
pub fn guess_encoding(payload: &Vec<u8>) -> (t: EncodingTag)
    ensures
        t == guess_encoding_spec(payload@),
{
    if parses_as_json(payload) {
        EncodingTag::AppJson
    } else if is_utf8(payload) {
        EncodingTag::TextPlain
    } else {
        EncodingTag::RawBytes
    }
}

} // verus!
