//! Binary-to-typed decoders: bitmap decode for image payloads and a
//! structural parse of PDF metadata. The outside decoders are called behind
//! trusted wrappers whose results carry a name; everything around the calls
//! is verified.

use vstd::prelude::*;

use crate::content::{opt_string_view, ImageHandle, PdfMetadata};

verus! {

/// What the bitmap decoder makes of a byte buffer: `None` for bytes that are
/// not a valid image, otherwise the decoded pixel dimensions. A function of
/// the bytes alone.
pub uninterp spec fn decoded_image(bytes: Seq<u8>) -> Option<(u32, u32)>;

/// What the structural PDF parse makes of a byte buffer: `None` for a
/// malformed document, otherwise the optional Title and Author entries of
/// the trailer's info dictionary. A function of the bytes alone.
pub uninterp spec fn parsed_pdf_info(bytes: Seq<u8>) -> Option<
    (Option<Seq<char>>, Option<Seq<char>>),
>;

/// Why a decode failed.
#[derive(Clone, Copy, Debug, PartialEq, Eq, Structural)]
pub enum DecodeError {
    /// The bytes are not a valid bitmap of any supported format.
    InvalidImage,
    /// The bytes are not a structurally valid PDF document.
    MalformedPdf,
}

/// Relies on image::load_from_memory: it decodes a byte buffer as a bitmap,
/// guessing the format, and the result depends on the bytes alone;
/// DynamicImage::width and height report the decoded pixel dimensions.
#[verifier::external_body]
fn load_image_dimensions(bytes: &Vec<u8>) -> (r: Option<(u32, u32)>)
    ensures
        r == decoded_image(bytes@),
{
    match image::load_from_memory(bytes.as_slice()) {
        Ok(img) => Some((img.width(), img.height())),
        Err(_) => None,
    }
}

/// Relies on pdf::file::FileOptions::load for the structural parse, whose
/// result depends on the bytes alone, and on
/// pdf::primitive::PdfString::to_string_lossy for the lossy text conversion
/// of the info dictionary's Title and Author entries.
#[verifier::external_body]
fn load_pdf_info(bytes: &Vec<u8>) -> (r: Option<(Option<String>, Option<String>)>)
    ensures
        (match r {
            Some(info) => parsed_pdf_info(bytes@) == Some(
                (opt_string_view(info.0), opt_string_view(info.1)),
            ),
            None => parsed_pdf_info(bytes@) is None,
        }),
{
    let file = pdf::file::FileOptions::uncached().load(bytes.as_slice()).ok()?;
    match file.trailer.info_dict {
        Some(d) => Some((
            d.title.map(|s| s.to_string_lossy()),
            d.author.map(|s| s.to_string_lossy()),
        )),
        None => Some((None, None)),
    }
}

/// Decodes a byte buffer into a bitmap handle. Fails exactly when the bytes
/// are not a valid image; the handle keeps the bytes and the decoded
/// dimensions.
pub fn decode_image(bytes: Vec<u8>) -> (r: Result<ImageHandle, DecodeError>)
    ensures
        (match r {
            Ok(h) => h.wf() && h.spec_bytes() == bytes@ && decoded_image(bytes@) == Some(
                (h.spec_width(), h.spec_height()),
            ),
            Err(e) => decoded_image(bytes@) is None && e == DecodeError::InvalidImage,
        }),
{
    match load_image_dimensions(&bytes) {
        Some((w, h)) => Ok(ImageHandle::from_decoded(bytes, w, h)),
        None => Err(DecodeError::InvalidImage),
    }
}

/// Parses just enough PDF structure to expose the trailer's optional info
/// dictionary. Fails exactly when the document is malformed; a document
/// without Title or Author yields metadata with both fields absent.
pub fn decode_pdf(bytes: Vec<u8>) -> (r: Result<PdfMetadata, DecodeError>)
    ensures
        (match r {
            Ok(m) => parsed_pdf_info(bytes@) == Some(
                (opt_string_view(m.title), opt_string_view(m.author)),
            ),
            Err(e) => parsed_pdf_info(bytes@) is None && e == DecodeError::MalformedPdf,
        }),
{
    match load_pdf_info(&bytes) {
        Some(info) => Ok(PdfMetadata { title: info.0, author: info.1 }),
        None => Err(DecodeError::MalformedPdf),
    }
}

} // verus!
