//! The image payload extractor: decode an image from raw file bytes, reduce
//! it to a luminance plane, locate and decode its QR symbols, and resolve
//! each payload to a labeled outcome.
//!
//! Symbols that were located but failed to decode are dropped; the remaining
//! payloads are numbered among themselves, so the symbol count in the labels
//! counts decodable symbols only.

use vstd::prelude::*;
use crate::payload::{from_raw_payload, resolve_bytes_spec};
use crate::source::{Output, OutputView, Source, SourceView};

verus! {

#[verifier::external_type_specification]
#[verifier::external_body]
pub struct ExQrCoder(quirc::QrCoder);

/// Whether the bytes decode as an image. Decoding is a function of the bytes
/// alone.
pub uninterp spec fn image_decodes(bytes: Seq<u8>) -> bool;

/// The luminance plane of a decodable image, with its width and height.
pub uninterp spec fn luma_of(bytes: Seq<u8>) -> (Seq<u8>, u32, u32);

/// Relies on image::load_from_memory, which decodes an image from raw file
/// bytes, guessing the format, and on image::DynamicImage::to_luma8, which
/// converts it to one 8-bit intensity byte per pixel, width * height bytes
/// in all; both are functions of the bytes alone. The error's display text
/// is returned on failure.
#[verifier::external_body]
fn decode_image_luma(bytes: &[u8]) -> (r: Result<(Vec<u8>, u32, u32), String>)
    ensures
        r is Ok <==> image_decodes(bytes@),
        r matches Ok(v) ==> (v.0@, v.1, v.2) == luma_of(bytes@) && v.0@.len() == v.1 * v.2,
{
    match image::load_from_memory(bytes) {
        Ok(img) => {
            let gray = img.to_luma8();
            let (width, height) = gray.dimensions();
            Ok((gray.into_raw(), width, height))
        },
        Err(e) => Err(format!("{}", e)),
    }
}

/// Relies on quirc::QrCoder::new: allocates the QR decoder, failing only
/// when the allocator does; the error's debug rendering is returned then.
#[verifier::external_body]
fn new_qr_coder() -> (r: Result<quirc::QrCoder, String>) {
    match quirc::QrCoder::new() {
        Ok(coder) => Ok(coder),
        Err(e) => Err(format!("{:?}", e)),
    }
}

/// What scanning a luminance plane yields when the locator runs: one entry
/// per located symbol in discovery order, `Some` payload where the symbol
/// decoded, `None` where it did not.
pub uninterp spec fn qr_results_of(pixels: Seq<u8>, width: u32, height: u32) -> Seq<
    Option<Seq<u8>>,
>;

/// Relies on quirc::QrCoder::codes: it resizes the decoder's buffer, copies
/// the plane in whole and scans it, so its symbols are a function of the
/// plane and its dimensions alone, whatever the decoder held before; each
/// located symbol decodes to its payload bytes on its own, so one unreadable
/// symbol fails alone (`None`). The call itself fails only on allocation or
/// on a plane shorter than width * height.
#[verifier::external_body]
fn qr_payloads(
    coder: &mut quirc::QrCoder,
    pixels: &[u8],
    width: u32,
    height: u32,
) -> (r: Result<Vec<Option<Vec<u8>>>, String>)
    ensures
        r matches Ok(ps) ==> ps.deep_view() == qr_results_of(pixels@, width, height),
{
    match coder.codes(pixels, width, height) {
        Err(e) => Err(format!("{:?}", e)),
        Ok(codes) => Ok(
            codes.map(
                |code: Result<quirc::QrCode, quirc::Error>|
                    match code {
                        Ok(qr) => Some(qr.payload),
                        Err(_) => None,
                    },
            ).collect(),
        ),
    }
}

/// The payloads of the symbols that decoded, in discovery order.
pub open spec fn decoded_payloads(ps: Seq<Option<Seq<u8>>>) -> Seq<Seq<u8>>
    decreases ps.len(),
{
    if ps.len() == 0 {
        Seq::empty()
    } else {
        decoded_payloads(ps.drop_last()) + match ps.last() {
            Some(p) => seq![p],
            None => Seq::empty(),
        }
    }
}

/// How many symbols failed to decode.
pub open spec fn undecodable_count(ps: Seq<Option<Seq<u8>>>) -> nat
    decreases ps.len(),
{
    if ps.len() == 0 {
        0
    } else {
        undecodable_count(ps.drop_last()) + match ps.last() {
            Some(_) => 0nat,
            None => 1nat,
        }
    }
}

/// The outcome of the symbol at `index` among `out_of` decodable ones.
pub open spec fn qr_outcome(
    filename: Seq<char>,
    index: int,
    out_of: int,
    payload: Seq<u8>,
    timestamp: u64,
) -> OutputView {
    OutputView {
        source: SourceView::QrCode {
            image_filename: filename,
            index: index as nat,
            out_of: out_of as nat,
        },
        result: resolve_bytes_spec(payload, timestamp),
    }
}

/// The outcomes of one image's decodable payloads, in discovery order.
pub open spec fn qr_outcomes(filename: Seq<char>, ps: Seq<Seq<u8>>, timestamp: u64) -> Seq<
    OutputView,
> {
    Seq::new(ps.len(), |i: int| qr_outcome(filename, i, ps.len() as int, ps[i], timestamp))
}

/// The mathematical values behind a list of outcomes.
pub open spec fn outputs_view(os: Seq<Output>) -> Seq<OutputView> {
    os.map_values(|o: Output| o@)
}

/// Resolves the payloads of one image's located symbols: those that failed
/// to decode are dropped, the rest are labeled `index` of `count` among
/// themselves (an image with no symbols yields no outcomes, not an error).
pub fn outcomes_from_payloads(
    filename: &str,
    payloads: Vec<Option<Vec<u8>>>,
    timestamp: u64,
) -> (r: Vec<Output>)
    ensures
        outputs_view(r@) == qr_outcomes(
            filename@,
            decoded_payloads(payloads.deep_view()),
            timestamp,
        ),
{
    let ghost all = payloads.deep_view();
    let mut kept: Vec<&Vec<u8>> = Vec::new();
    let n = payloads.len();
    let mut i: usize = 0;
    while i < n
        invariant
            n == payloads@.len(),
            all == payloads.deep_view(),
            i <= n,
            kept.deep_view() =~= decoded_payloads(all.take(i as int)),
        decreases n - i,
    {
        match &payloads[i] {
            Some(payload) => kept.push(payload),
            None => (),
        }
        i = i + 1;
        proof {
            assert(all.take(i as int).drop_last() =~= all.take(i - 1));
            assert(all.take(i as int).last() == all[i - 1]);
            assert(kept.deep_view() =~= decoded_payloads(all.take(i as int)));
        }
    }
    proof {
        assert(all.take(n as int) =~= all);
    }
    let count = kept.len();
    let mut outputs: Vec<Output> = Vec::new();
    let mut j: usize = 0;
    while j < count
        invariant
            count == kept@.len(),
            kept.deep_view() =~= decoded_payloads(all),
            j <= count,
            outputs@.len() == j,
            outputs_view(outputs@) =~= qr_outcomes(filename@, kept.deep_view(), timestamp).take(
                j as int,
            ),
        decreases count - j,
    {
        let source = Source::QrCode {
            image_filename: filename.to_owned(),
            index: j,
            out_of: count,
        };
        let output = from_raw_payload(kept[j].as_slice(), source, timestamp);
        outputs.push(output);
        j = j + 1;
        proof {
            let prev = j - 1;
            assert(kept.deep_view()[prev] =~= kept@[prev]@);
            assert(output@ =~~= qr_outcome(
                filename@,
                prev,
                count as int,
                kept.deep_view()[prev],
                timestamp,
            ));
            assert(outputs_view(outputs@) =~= qr_outcomes(
                filename@,
                kept.deep_view(),
                timestamp,
            ).take(j as int));
        }
    }
    proof {
        assert(qr_outcomes(filename@, kept.deep_view(), timestamp).take(count as int)
            =~= qr_outcomes(filename@, decoded_payloads(all), timestamp));
        assert(outputs_view(outputs@) == qr_outcomes(
            filename@,
            decoded_payloads(payloads.deep_view()),
            timestamp,
        ));
    }
    outputs
}

/// A whole-image failure: exactly one outcome, labeled with the image
/// source, carrying exactly this error message.
pub open spec fn sole_image_error(
    filename: Seq<char>,
    outs: Seq<OutputView>,
    message: Seq<char>,
) -> bool {
    &&& outs.len() == 1
    &&& outs[0].source == SourceView::Image { filename }
    &&& outs[0].result == Err::<u64, Seq<char>>(message)
}

/// The whole-image outcome of a file that does not decode as an image: one
/// error naming the decode failure and its cause.
pub open spec fn image_decode_error(filename: Seq<char>, outs: Seq<OutputView>) -> bool {
    exists|cause: Seq<char>| sole_image_error(filename, outs, "Failed to decode: "@ + cause)
}

/// The whole-image outcome of a scan the locator could not run (it fails
/// only on allocation): one error naming which of its two steps failed.
pub open spec fn qr_scan_error(filename: Seq<char>, outs: Seq<OutputView>) -> bool {
    ||| exists|cause: Seq<char>|
        sole_image_error(filename, outs, "Failed to create QR code decoder: "@ + cause)
    ||| exists|cause: Seq<char>|
        sole_image_error(filename, outs, "Failed to decode QR codes: "@ + cause)
}

/// The outcomes of one image whose bytes decode and whose scan ran: the
/// luminance plane's decodable symbols, resolved and numbered in discovery
/// order.
pub open spec fn scanned_outcomes(filename: Seq<char>, bytes: Seq<u8>, timestamp: u64) -> Seq<
    OutputView,
> {
    let luma = luma_of(bytes);
    qr_outcomes(filename, decoded_payloads(qr_results_of(luma.0, luma.1, luma.2)), timestamp)
}

/// Resolves every QR symbol of one image, given the image file's raw bytes:
/// bytes that do not decode as an image yield exactly the one decode-error
/// outcome; on bytes that do, either the locator could not run (one
/// allocation-failure outcome, so marked) or every decodable symbol's
/// payload is resolved independently, in discovery order.
pub fn from_image_filename(filename: &str, image_bytes: &[u8], timestamp: u64) -> (r: Vec<Output>)
    ensures
        !image_decodes(image_bytes@) ==> image_decode_error(filename@, outputs_view(r@)),
        image_decodes(image_bytes@) ==> qr_scan_error(filename@, outputs_view(r@))
            || outputs_view(r@) == scanned_outcomes(filename@, image_bytes@, timestamp),
{
    let luma = match decode_image_luma(image_bytes) {
        Err(cause) => {
            let mut message = "Failed to decode: ".to_owned();
            message.append(cause.as_str());
            let r = whole_image_error(filename, message);
            proof {
                assert(sole_image_error(
                    filename@,
                    outputs_view(r@),
                    "Failed to decode: "@ + cause@,
                ));
            }
            return r;
        },
        Ok(luma) => luma,
    };
    let (pixels, width, height) = luma;
    let mut coder = match new_qr_coder() {
        Err(cause) => {
            let mut message = "Failed to create QR code decoder: ".to_owned();
            message.append(cause.as_str());
            let r = whole_image_error(filename, message);
            proof {
                assert(sole_image_error(
                    filename@,
                    outputs_view(r@),
                    "Failed to create QR code decoder: "@ + cause@,
                ));
            }
            return r;
        },
        Ok(coder) => coder,
    };
    let payloads = match qr_payloads(&mut coder, pixels.as_slice(), width, height) {
        Err(cause) => {
            let mut message = "Failed to decode QR codes: ".to_owned();
            message.append(cause.as_str());
            let r = whole_image_error(filename, message);
            proof {
                assert(sole_image_error(
                    filename@,
                    outputs_view(r@),
                    "Failed to decode QR codes: "@ + cause@,
                ));
            }
            return r;
        },
        Ok(payloads) => payloads,
    };
    let outputs = outcomes_from_payloads(filename, payloads, timestamp);
    proof {
        assert(payloads.deep_view() == qr_results_of(pixels@, width, height));
        assert((pixels@, width, height) == luma_of(image_bytes@));
        assert(outputs_view(outputs@) == scanned_outcomes(filename@, image_bytes@, timestamp));
    }
    outputs
}

fn whole_image_error(filename: &str, message: String) -> (r: Vec<Output>)
    ensures
        sole_image_error(filename@, outputs_view(r@), message@),
{
    let output = Output {
        source: Source::Image { filename: filename.to_owned() },
        result: Err(message),
    };
    let r = vec![output];
    proof {
        assert(outputs_view(r@).len() == 1);
        assert(outputs_view(r@)[0] == r@[0]@);
    }
    r
}

} // verus!
