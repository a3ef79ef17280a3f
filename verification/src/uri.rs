//! The URI secret extractor: parse a URL, read its query pairs, pick the
//! `secret` key's value, and hand it to the secret decoder.

use vstd::prelude::*;
use crate::secret::{from_secret, resolve_secret_spec};
use crate::source::{Output, Source};

verus! {

/// Whether the text parses as a URL. WHATWG URL parsing is a function of the
/// text alone.
pub uninterp spec fn url_parses(text: Seq<char>) -> bool;

/// The percent-decoded key/value pairs of the URL's query, in query order.
pub uninterp spec fn url_query_pairs_of(text: Seq<char>) -> Seq<(Seq<char>, Seq<char>)>;

/// The character sequences behind a list of key/value pairs.
pub open spec fn pairs_view(ps: Seq<(String, String)>) -> Seq<(Seq<char>, Seq<char>)> {
    ps.map_values(|p: (String, String)| (p.0@, p.1@))
}

/// Relies on url::Url::parse, which accepts or rejects the text by the WHATWG
/// standard, and on url::Url::query_pairs, which converts the parsed URL's
/// query to its percent-decoded key/value pairs in order.
#[verifier::external_body]
fn parse_query_pairs(text: &str) -> (r: Option<Vec<(String, String)>>)
    ensures
        r is Some <==> url_parses(text@),
        r matches Some(ps) ==> pairs_view(ps@) == url_query_pairs_of(text@),
{
    match url::Url::parse(text) {
        Err(_) => None,
        Ok(parsed) => Some(parsed.query_pairs().into_owned().collect()),
    }
}

/// The value under `key`, taking the last pair when the key repeats.
pub open spec fn last_value_for(ps: Seq<(Seq<char>, Seq<char>)>, key: Seq<char>) -> Option<
    Seq<char>,
>
    decreases ps.len(),
{
    if ps.len() == 0 {
        None
    } else if ps.last().0 == key {
        Some(ps.last().1)
    } else {
        last_value_for(ps.drop_last(), key)
    }
}

fn lookup_param(pairs: &Vec<(String, String)>, key: &str) -> (r: Option<String>)
    ensures
        r is Some <==> last_value_for(pairs_view(pairs@), key@) is Some,
        r matches Some(v) ==> last_value_for(pairs_view(pairs@), key@) == Some(v@),
{
    let key_string = key.to_owned();
    let mut found: Option<String> = None;
    let n = pairs.len();
    let mut i: usize = 0;
    while i < n
        invariant
            n == pairs@.len(),
            i <= n,
            key_string@ == key@,
            match found {
                Some(v) => last_value_for(pairs_view(pairs@.take(i as int)), key@) == Some(v@),
                None => last_value_for(pairs_view(pairs@.take(i as int)), key@) is None,
            },
        decreases n - i,
    {
        let pair = &pairs[i];
        if pair.0 == key_string {
            found = Some(pair.1.clone());
        }
        i = i + 1;
        proof {
            let prefix = pairs_view(pairs@.take(i as int));
            assert(prefix.drop_last() =~= pairs_view(pairs@.take(i - 1)));
            assert(prefix.last() == (pairs@[i - 1].0@, pairs@[i - 1].1@));
        }
    }
    proof {
        assert(pairs@.take(n as int) =~= pairs@);
    }
    found
}

/// The `secret` query parameter of URL text: `Some` exactly when the text
/// parses as a URL whose query carries the key.
pub fn secret_from_url_text(text: &str) -> (r: Option<String>)
    ensures
        r is Some <==> url_parses(text@) && last_value_for(
            url_query_pairs_of(text@),
            "secret"@,
        ) is Some,
        r matches Some(v) ==> last_value_for(url_query_pairs_of(text@), "secret"@) == Some(v@),
{
    match parse_query_pairs(text) {
        None => None,
        Some(pairs) => lookup_param(&pairs, "secret"),
    }
}

/// What resolving payload text at a timestamp yields: the parse error on
/// text that is no URL, the missing-key error on a query without `secret`
/// (each carrying the offending text), else the secret's resolution.
pub open spec fn resolve_text_spec(t: Seq<char>, timestamp: u64) -> Result<u64, Seq<char>> {
    if !url_parses(t) {
        Err("Invalid URL: "@ + t)
    } else {
        match last_value_for(url_query_pairs_of(t), "secret"@) {
            None => Err("URL query does not contain \"secret\" key: "@ + t),
            Some(s) => resolve_secret_spec(s, timestamp),
        }
    }
}

/// Resolves payload text to a labeled outcome.
pub fn from_payload(payload: &str, source: Source, timestamp: u64) -> (r: Output)
    ensures
        r@.source == source@,
        r@.result == resolve_text_spec(payload@, timestamp),
{
    match parse_query_pairs(payload) {
        None => {
            let mut message = "Invalid URL: ".to_owned();
            message.append(payload);
            Output { source, result: Err(message) }
        },
        Some(pairs) => match lookup_param(&pairs, "secret") {
            None => {
                let mut message = "URL query does not contain \"secret\" key: ".to_owned();
                message.append(payload);
                Output { source, result: Err(message) }
            },
            Some(secret) => from_secret(secret.as_str(), source, timestamp),
        },
    }
}

} // verus!
