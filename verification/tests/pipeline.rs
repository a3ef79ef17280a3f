//! End-to-end behavior of the resolution pipeline on concrete inputs.

use de2fa::image_scan::outcomes_from_payloads;
use de2fa::payload::from_raw_payload;
use de2fa::secret::{decode_secret, from_secret};
use de2fa::source::{Output, Source};
use de2fa::totp::{counter_for_timestamp, totp_for_timestamp};
use de2fa::uri::{from_payload, secret_from_url_text};

// RFC 4226 / RFC 6238 reference key "12345678901234567890", in base32.
const RFC_KEY_BASE32: &str = "GEZDGNBVGY3TQOJQGEZDGNBVGY3TQOJQ";

fn code_of(output: &Output) -> u64 {
    match &output.result {
        Ok(code) => *code,
        Err(message) => panic!("expected a code, got error: {}", message),
    }
}

fn error_of(output: &Output) -> String {
    match &output.result {
        Ok(code) => panic!("expected an error, got code {}", code),
        Err(message) => message.clone(),
    }
}

#[test]
fn totp_matches_rfc_vectors() {
    let key = b"12345678901234567890";
    // Timestamps 59, 1111111109 and 1234567890 are RFC 6238 test times; the
    // expected codes are the vectors' 8-digit values reduced to 6 digits.
    assert_eq!(totp_for_timestamp(key, 59), 287082);
    assert_eq!(totp_for_timestamp(key, 1111111109), 81804);
    assert_eq!(totp_for_timestamp(key, 1234567890), 5924);
}

#[test]
fn totp_is_deterministic_and_in_range() {
    let key = b"\xde\xad\xbe\xef";
    for ts in [0u64, 29, 30, 59, 1234567890] {
        let first = totp_for_timestamp(key, ts);
        let second = totp_for_timestamp(key, ts);
        assert_eq!(first, second);
        assert!(first <= 999999);
    }
}

#[test]
fn totp_agrees_with_hotp_of_the_counter() {
    let key = b"\x01\x02\x03";
    let ts = 987654321u64;
    assert_eq!(counter_for_timestamp(ts), ts / 30);
    assert_eq!(totp_for_timestamp(key, ts), oath::hotp_raw(key, ts / 30, 6));
}

#[test]
fn secret_decoder_decodes_known_secret() {
    let bytes = decode_secret("JBSWY3DPEHPK3PXP").expect("valid base32");
    assert_eq!(bytes, b"Hello!\xde\xad\xbe\xef".to_vec());
}

#[test]
fn secret_decoder_rejects_digit_one() {
    assert_eq!(decode_secret("1111"), None);
}

#[test]
fn secret_decoder_rejects_lower_case_and_padding() {
    assert_eq!(decode_secret("jbswy3dp"), None);
    assert_eq!(decode_secret("MZXQ===="), None);
}

#[test]
fn secret_decoder_accepts_empty_text() {
    assert_eq!(decode_secret(""), Some(Vec::new()));
}

#[test]
fn from_secret_computes_the_code() {
    let output = from_secret(RFC_KEY_BASE32, Source::Secret(RFC_KEY_BASE32.to_string()), 59);
    assert_eq!(code_of(&output), 287082);
}

#[test]
fn from_secret_reports_invalid_base32() {
    let output = from_secret("1111", Source::Secret("1111".to_string()), 59);
    assert_eq!(error_of(&output), "Secret is not valid base32");
}

#[test]
fn url_resolves_to_same_code_as_bare_secret() {
    let url = "otpauth://totp/test?secret=JBSWY3DPEHPK3PXP";
    let ts = 1234567890u64;
    let from_url = from_payload(url, Source::Url(url.to_string()), ts);
    let direct = from_secret(
        "JBSWY3DPEHPK3PXP",
        Source::Secret("JBSWY3DPEHPK3PXP".to_string()),
        ts,
    );
    assert_eq!(code_of(&from_url), code_of(&direct));
    let secret_bytes = decode_secret("JBSWY3DPEHPK3PXP").unwrap();
    assert_eq!(code_of(&from_url), oath::hotp_raw(&secret_bytes, ts / 30, 6));
}

#[test]
fn url_with_repeated_secret_key_takes_the_last() {
    let url = "otpauth://totp/t?secret=1111&secret=JBSWY3DPEHPK3PXP";
    let extracted = secret_from_url_text(url).expect("secret key present");
    assert_eq!(extracted, "JBSWY3DPEHPK3PXP");
}

#[test]
fn url_missing_secret_key_reports_key_and_url() {
    let url = "otpauth://totp/test?issuer=nobody";
    let output = from_payload(url, Source::Url(url.to_string()), 59);
    let message = error_of(&output);
    assert_eq!(
        message,
        "URL query does not contain \"secret\" key: otpauth://totp/test?issuer=nobody"
    );
    assert!(message.contains("secret"));
    assert!(message.contains(url));
}

#[test]
fn unparsable_text_reports_invalid_url() {
    let output = from_payload("no url at all", Source::Url("no url at all".to_string()), 59);
    assert_eq!(error_of(&output), "Invalid URL: no url at all");
}

#[test]
fn secret_round_trips_through_url_and_decoder() {
    let secret_bytes: Vec<u8> = vec![
        0x00, 0x44, 0x32, 0x14, 0xc7, 0x42, 0x54, 0xb6, 0x35, 0xcf, 0x84, 0x65, 0x3a, 0x56, 0xd7,
    ];
    let encoded = base32::encode(base32::Alphabet::Rfc4648 { padding: false }, &secret_bytes);
    let url = format!("otpauth://totp/round?secret={}", encoded);
    let extracted = secret_from_url_text(&url).expect("secret key present");
    assert_eq!(extracted, encoded);
    let decoded = decode_secret(&extracted).expect("valid base32");
    assert_eq!(decoded, secret_bytes);
}

#[test]
fn raw_payload_rejects_invalid_utf8() {
    let output = from_raw_payload(
        &[0xff, 0xfe, 0x41],
        Source::QrCode { image_filename: "a.png".to_string(), index: 0, out_of: 1 },
        59,
    );
    assert_eq!(error_of(&output), "Payload is not valid UTF-8");
}

#[test]
fn raw_payload_resolves_utf8_url() {
    let url = format!("otpauth://totp/test?secret={}", RFC_KEY_BASE32);
    let output = from_raw_payload(
        url.as_bytes(),
        Source::QrCode { image_filename: "a.png".to_string(), index: 0, out_of: 1 },
        59,
    );
    assert_eq!(code_of(&output), 287082);
}

#[test]
fn no_payloads_yield_no_outcomes() {
    let outputs = outcomes_from_payloads("empty.png", Vec::new(), 59);
    assert_eq!(outputs.len(), 0);
}

#[test]
fn undecodable_symbols_are_dropped_and_the_rest_renumbered() {
    let url = format!("otpauth://totp/test?secret={}", RFC_KEY_BASE32);
    let payloads: Vec<Option<Vec<u8>>> = vec![
        Some(url.as_bytes().to_vec()),
        None,
        Some(b"1111".to_vec()),
        None,
    ];
    let outputs = outcomes_from_payloads("multi.png", payloads, 59);
    assert_eq!(outputs.len(), 2);
    assert_eq!(code_of(&outputs[0]), 287082);
    assert_eq!(outputs[0].to_string(), "287082\tqr[1/2] multi.png");
    assert_eq!(
        outputs[1].to_string(),
        "------\tqr[2/2] multi.png: Invalid URL: 1111"
    );
}
