//! Rendering of source labels and output lines.

use de2fa::source::{Output, Source};

#[test]
fn image_source_label() {
    let source = Source::Image { filename: "shot.png".to_string() };
    assert_eq!(source.to_string(), "image shot.png");
}

#[test]
fn lone_qr_source_label_omits_position() {
    let source = Source::QrCode { image_filename: "shot.png".to_string(), index: 0, out_of: 1 };
    assert_eq!(source.to_string(), "qr shot.png");
}

#[test]
fn qr_source_label_pads_position_to_count_width() {
    let source = Source::QrCode { image_filename: "shot.png".to_string(), index: 2, out_of: 12 };
    assert_eq!(source.to_string(), "qr[03/12] shot.png");
}

#[test]
fn url_and_secret_source_labels() {
    assert_eq!(Source::Url("otpauth://x".to_string()).to_string(), "url otpauth://x");
    assert_eq!(Source::Secret("ABCD".to_string()).to_string(), "secret ABCD");
}

#[test]
fn success_line_zero_pads_the_code() {
    let output = Output {
        source: Source::Secret("ABCD".to_string()),
        result: Ok(42),
    };
    assert_eq!(output.to_string(), "000042\tsecret ABCD");
}

#[test]
fn failure_line_carries_label_and_message() {
    let output = Output {
        source: Source::Image { filename: "bad.png".to_string() },
        result: Err("Failed to decode: broken".to_string()),
    };
    assert_eq!(output.to_string(), "------\timage bad.png: Failed to decode: broken");
}
