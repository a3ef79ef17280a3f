//! Provenance of a payload and the labeled outcome of resolving it: the
//! unit the pipeline produces, rendered as one output line.

use vstd::prelude::*;
use crate::text::{decimal_rep, decimal_string, zero_pad_left, zero_padded};

verus! {

/// Where a payload came from; used solely to produce a human-readable label.
pub enum Source {
    Image { filename: String },
    QrCode { image_filename: String, index: usize, out_of: usize },
    Url(String),
    Secret(String),
}

/// The mathematical value of a `Source`.
#[verifier::ext_equal]
pub enum SourceView {
    Image { filename: Seq<char> },
    QrCode { image_filename: Seq<char>, index: nat, out_of: nat },
    Url(Seq<char>),
    Secret(Seq<char>),
}

impl View for Source {
    type V = SourceView;

    open spec fn view(&self) -> SourceView {
        match self {
            Source::Image { filename } => SourceView::Image { filename: filename@ },
            Source::QrCode { image_filename, index, out_of } => SourceView::QrCode {
                image_filename: image_filename@,
                index: *index as nat,
                out_of: *out_of as nat,
            },
            Source::Url(text) => SourceView::Url(text@),
            Source::Secret(text) => SourceView::Secret(text@),
        }
    }
}

impl SourceView {
    /// A QR source always sits at a position below the symbol count.
    pub open spec fn wf(self) -> bool {
        match self {
            SourceView::QrCode { index, out_of, .. } => index < out_of,
            _ => true,
        }
    }
}

/// The label a source is displayed under. A lone QR symbol is labeled with
/// its file alone; one of several also carries `[position/count]`, the
/// one-based position zero-padded to the count's width.
pub open spec fn label_of(s: SourceView) -> Seq<char> {
    match s {
        SourceView::Image { filename } => "image "@ + filename,
        SourceView::QrCode { image_filename, index, out_of } => {
            if out_of == 1 {
                "qr "@ + image_filename
            } else {
                "qr["@ + zero_padded(decimal_rep((index + 1) as nat), decimal_rep(out_of).len())
                    + "/"@ + decimal_rep(out_of) + "] "@ + image_filename
            }
        },
        SourceView::Url(text) => "url "@ + text,
        SourceView::Secret(text) => "secret "@ + text,
    }
}

impl Source {
    /// Renders the source's label.
    pub fn to_string(&self) -> (r: String)
        requires
            self@.wf(),
        ensures
            r@ == label_of(self@),
    {
        match self {
            Source::Image { filename } => {
                let mut s = "image ".to_owned();
                s.append(filename.as_str());
                s
            },
            Source::QrCode { image_filename, index, out_of } => {
                if *out_of == 1 {
                    let mut s = "qr ".to_owned();
                    s.append(image_filename.as_str());
                    s
                } else {
                    let total = decimal_string(*out_of as u64);
                    let width = total.as_str().unicode_len();
                    let position = decimal_string((*index as u64) + 1);
                    let padded = zero_pad_left(position, width);
                    let mut s = "qr[".to_owned();
                    s.append(padded.as_str());
                    s.append("/");
                    s.append(total.as_str());
                    s.append("] ");
                    s.append(image_filename.as_str());
                    s
                }
            },
            Source::Url(text) => {
                let mut s = "url ".to_owned();
                s.append(text.as_str());
                s
            },
            Source::Secret(text) => {
                let mut s = "secret ".to_owned();
                s.append(text.as_str());
                s
            },
        }
    }
}

/// One resolution attempt's result paired with its provenance: either a
/// code in `[0, 999999]` or an error message, never both.
pub struct Output {
    pub source: Source,
    pub result: Result<u64, String>,
}

/// The mathematical value of an `Output`.
#[verifier::ext_equal]
pub struct OutputView {
    pub source: SourceView,
    pub result: Result<u64, Seq<char>>,
}

impl View for Output {
    type V = OutputView;

    open spec fn view(&self) -> OutputView {
        OutputView {
            source: self.source@,
            result: match self.result {
                Ok(code) => Ok(code),
                Err(ref message) => Err(message@),
            },
        }
    }
}

/// The output line for one outcome: the code zero-padded to six digits and
/// the label on success, a dash placeholder, the label and the message on
/// failure, tab-separated.
pub open spec fn line_of(o: OutputView) -> Seq<char> {
    match o.result {
        Ok(code) => zero_padded(decimal_rep(code as nat), 6) + "\t"@ + label_of(o.source),
        Err(message) => "------\t"@ + label_of(o.source) + ": "@ + message,
    }
}

impl Output {
    /// Renders the outcome as its output line.
    pub fn to_string(&self) -> (r: String)
        requires
            self@.source.wf(),
        ensures
            r@ == line_of(self@),
    {
        match &self.result {
            Ok(code) => {
                let digits = decimal_string(*code);
                let mut s = zero_pad_left(digits, 6);
                s.append("\t");
                let label = self.source.to_string();
                s.append(label.as_str());
                s
            },
            Err(message) => {
                let mut s = "------\t".to_owned();
                let label = self.source.to_string();
                s.append(label.as_str());
                s.append(": ");
                s.append(message.as_str());
                s
            },
        }
    }
}

} // verus!
