//! The secret decoder: base32 text (unpadded upper-case RFC 4648 alphabet)
//! to raw secret bytes, and resolution of bare secret text to an outcome.

use vstd::prelude::*;
use crate::source::{Output, Source};
use crate::totp::{totp_code_of, totp_for_timestamp};

verus! {

/// A symbol of the upper-case RFC 4648 base32 alphabet.
pub open spec fn is_base32_char(c: char) -> bool {
    ('A' <= c && c <= 'Z') || ('2' <= c && c <= '7')
}

/// Text that base32-decodes: every character a symbol of the alphabet.
/// Empty text is valid and decodes to no bytes.
pub open spec fn is_valid_base32(s: Seq<char>) -> bool {
    forall|i: int| 0 <= i < s.len() ==> is_base32_char(#[trigger] s[i])
}

/// The bytes that base32 decoding yields on valid text.
pub uninterp spec fn base32_bytes_of(s: Seq<char>) -> Seq<u8>;

/// Relies on base32::decode with `Rfc4648 { padding: false }`: it returns
/// bytes exactly when every character is one of `A`-`Z` or `2`-`7` (in
/// particular on empty text), and yields 5 bits per character, so 5/8 of the
/// text length in whole bytes.
#[verifier::external_body]
fn base32_decode(text: &str) -> (r: Option<Vec<u8>>)
    ensures
        r is Some <==> is_valid_base32(text@),
        r matches Some(v) ==> v@ == base32_bytes_of(text@) && v@.len() == text@.len() * 5 / 8,
{
    base32::decode(base32::Alphabet::Rfc4648 { padding: false }, text)
}

/// Decodes base32 secret text to secret bytes; `None` exactly on text with
/// a character outside the alphabet.
pub fn decode_secret(text: &str) -> (r: Option<Vec<u8>>)
    ensures
        r is Some <==> is_valid_base32(text@),
        r matches Some(v) ==> v@ == base32_bytes_of(text@) && v@.len() == text@.len() * 5 / 8,
{
    base32_decode(text)
}

/// What resolving bare secret text at a timestamp yields: the TOTP code of
/// the decoded bytes, or the decode error on text outside the alphabet.
pub open spec fn resolve_secret_spec(s: Seq<char>, timestamp: u64) -> Result<u64, Seq<char>> {
    if is_valid_base32(s) {
        Ok(totp_code_of(base32_bytes_of(s), timestamp))
    } else {
        Err("Secret is not valid base32"@)
    }
}

/// Resolves bare secret text to a labeled outcome.
pub fn from_secret(secret: &str, source: Source, timestamp: u64) -> (r: Output)
    ensures
        r@.source == source@,
        r@.result == resolve_secret_spec(secret@, timestamp),
{
    match decode_secret(secret) {
        None => Output { source, result: Err("Secret is not valid base32".to_owned()) },
        Some(secret_bytes) => {
            let code = totp_for_timestamp(secret_bytes.as_slice(), timestamp);
            Output { source, result: Ok(code) }
        },
    }
}

} // verus!
