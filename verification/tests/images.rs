//! The image payload extractor on concrete image bytes.

use de2fa::image_scan::from_image_filename;

#[test]
fn unreadable_bytes_yield_one_image_error() {
    let outputs = from_image_filename("bad.png", b"this is no image", 59);
    assert_eq!(outputs.len(), 1);
    let line = outputs[0].to_string();
    assert!(line.starts_with("------\timage bad.png: Failed to decode: "));
}

#[test]
fn image_without_symbols_yields_no_outcomes() {
    let white = image::DynamicImage::ImageLuma8(image::ImageBuffer::from_pixel(
        64,
        64,
        image::Luma([0xffu8]),
    ));
    let mut cursor = std::io::Cursor::new(Vec::new());
    white
        .write_to(&mut cursor, image::ImageFormat::Png)
        .expect("in-memory PNG encoding");
    let outputs = from_image_filename("white.png", &cursor.into_inner(), 59);
    assert_eq!(outputs.len(), 0);
}
