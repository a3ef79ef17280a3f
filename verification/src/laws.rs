//! The library's general laws, stated and proved over the same spec
//! functions that the executable functions' contracts speak of.

use vstd::prelude::*;
use crate::image_scan::{decoded_payloads, qr_outcomes, undecodable_count};
use crate::secret::{base32_bytes_of, is_valid_base32, resolve_secret_spec};
use crate::source::OutputView;
use crate::totp::totp_code_of;
use crate::uri::{last_value_for, resolve_text_spec, url_parses, url_query_pairs_of};

verus! {

/// Law: resolving the same secret text at the same timestamp always yields
/// the same outcome — the code is a function of those two inputs alone.
pub proof fn lemma_secret_resolution_deterministic(
    s: Seq<char>,
    timestamp: u64,
    r1: Result<u64, Seq<char>>,
    r2: Result<u64, Seq<char>>,
)
    requires
        r1 == resolve_secret_spec(s, timestamp),
        r2 == resolve_secret_spec(s, timestamp),
    ensures
        r1 == r2,
{
}

/// Law: a URL whose query carries a `secret` key resolves to exactly the
/// outcome of resolving that key's value as bare secret text.
pub proof fn lemma_url_resolves_as_its_secret(t: Seq<char>, s: Seq<char>, timestamp: u64)
    requires
        url_parses(t),
        last_value_for(url_query_pairs_of(t), "secret"@) == Some(s),
    ensures
        resolve_text_spec(t, timestamp) == resolve_secret_spec(s, timestamp),
{
}

/// Law (the round trip's provable half): a URL whose query carries a
/// valid-base32 `secret` value resolves to exactly the code of that value's
/// decoded bytes — the pipeline evaluates precisely what the secret decoder
/// recovers, no other bytes. What the URL parser yields on a built text and
/// that the base32 decode inverts an encode are the outside crates' results,
/// which the premises here take as given.
pub proof fn lemma_url_secret_code(t: Seq<char>, s: Seq<char>, timestamp: u64)
    requires
        url_parses(t),
        last_value_for(url_query_pairs_of(t), "secret"@) == Some(s),
        is_valid_base32(s),
    ensures
        resolve_text_spec(t, timestamp) == Ok::<u64, Seq<char>>(
            totp_code_of(base32_bytes_of(s), timestamp),
        ),
{
}

/// Law: a URL without a `secret` query key yields the error that names the
/// key and carries the offending URL text.
pub proof fn lemma_missing_secret_key_error(t: Seq<char>, timestamp: u64)
    requires
        url_parses(t),
        last_value_for(url_query_pairs_of(t), "secret"@) is None,
    ensures
        resolve_text_spec(t, timestamp) == Err::<u64, Seq<char>>(
            "URL query does not contain \"secret\" key: "@ + t,
        ),
{
}

/// Law: of `n` located symbols of which `k` fail to decode, exactly `n - k`
/// payloads remain to be resolved.
pub proof fn lemma_decoded_payload_count(ps: Seq<Option<Seq<u8>>>)
    ensures
        undecodable_count(ps) <= ps.len(),
        decoded_payloads(ps).len() == ps.len() - undecodable_count(ps),
    decreases ps.len(),
{
    if ps.len() > 0 {
        lemma_decoded_payload_count(ps.drop_last());
    }
}

/// Law: an image whose locator finds no symbols yields no outcomes at all,
/// rather than an error.
pub proof fn lemma_no_symbols_no_outcomes(filename: Seq<char>, timestamp: u64)
    ensures
        qr_outcomes(filename, decoded_payloads(Seq::empty()), timestamp) =~= Seq::<
            OutputView,
        >::empty(),
{
}

} // verus!
