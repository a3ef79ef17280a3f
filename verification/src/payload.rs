//! The payload resolver: raw QR payload bytes are validated as UTF-8 text
//! and routed to the URI secret extractor.

use vstd::prelude::*;
use crate::source::{Output, Source};
use crate::uri::{from_payload, resolve_text_spec};

verus! {

/// What resolving raw payload bytes at a timestamp yields: the encoding
/// error on bytes that are not UTF-8, else the text's resolution.
pub open spec fn resolve_bytes_spec(b: Seq<u8>, timestamp: u64) -> Result<u64, Seq<char>> {
    if !vstd::utf8::valid_utf8(b) {
        Err("Payload is not valid UTF-8"@)
    } else {
        resolve_text_spec(vstd::utf8::decode_utf8(b), timestamp)
    }
}

/// Relies on std's str::from_utf8: it yields the text exactly when the bytes
/// are valid UTF-8, in the sense of vstd's UTF-8 model.
#[verifier::external_body]
fn utf8_text(bytes: &[u8]) -> (r: Option<&str>)
    ensures
        r is Some <==> vstd::utf8::valid_utf8(bytes@),
        r matches Some(s) ==> s@ == vstd::utf8::decode_utf8(bytes@),
{
    std::str::from_utf8(bytes).ok()
}

/// Resolves one raw payload to a labeled outcome.
pub fn from_raw_payload(raw_payload: &[u8], source: Source, timestamp: u64) -> (r: Output)
    ensures
        r@.source == source@,
        r@.result == resolve_bytes_spec(raw_payload@, timestamp),
{
    match utf8_text(raw_payload) {
        None => Output { source, result: Err("Payload is not valid UTF-8".to_owned()) },
        Some(text) => from_payload(text, source, timestamp),
    }
}

} // verus!
