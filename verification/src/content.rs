//! The typed clipboard payload: a closed variant type whose tag determines
//! which payload field is valid, together with its mathematical view.

use vstd::prelude::*;

use crate::decode::decoded_image;

verus! {

/// A decoded bitmap: the raw encoded bytes together with the pixel
/// dimensions the decoder reported for them. Well-formed handles only come
/// out of the decoder, so the dimensions always match the bytes.
pub struct ImageHandle {
    width: u32,
    height: u32,
    bytes: Vec<u8>,
}

impl ImageHandle {
    /// The reported pixel width.
    pub closed spec fn spec_width(self) -> u32 {
        self.width
    }

    /// The reported pixel height.
    pub closed spec fn spec_height(self) -> u32 {
        self.height
    }

    /// The encoded bytes the handle was decoded from.
    pub closed spec fn spec_bytes(self) -> Seq<u8> {
        self.bytes@
    }

    /// The handle's dimensions are the ones the bitmap decoder reports for
    /// its bytes.
    pub open spec fn wf(self) -> bool {
        decoded_image(self.spec_bytes()) == Some((self.spec_width(), self.spec_height()))
    }

    /// Wraps bytes the decoder accepted, with the dimensions it reported.
    pub(crate) fn from_decoded(bytes: Vec<u8>, width: u32, height: u32) -> (r: ImageHandle)
        requires
            decoded_image(bytes@) == Some((width, height)),
        ensures
            r.wf(),
            r.spec_bytes() == bytes@,
            r.spec_width() == width,
            r.spec_height() == height,
    {
        ImageHandle { width, height, bytes }
    }

    /// The reported pixel width.
    pub fn width(&self) -> (r: u32)
        ensures
            r == self.spec_width(),
    {
        self.width
    }

    /// The reported pixel height.
    pub fn height(&self) -> (r: u32)
        ensures
            r == self.spec_height(),
    {
        self.height
    }

    /// The encoded bytes, for a renderer that re-decodes them.
    pub fn as_bytes(&self) -> (r: &Vec<u8>)
        ensures
            r@ == self.spec_bytes(),
    {
        &self.bytes
    }
}

/// The metadata a structural PDF parse exposes from the trailer's optional
/// info dictionary.
pub struct PdfMetadata {
    pub title: Option<String>,
    pub author: Option<String>,
}

/// An optional owned string, seen as an optional character sequence.
pub open spec fn opt_string_view(o: Option<String>) -> Option<Seq<char>> {
    match o {
        Some(s) => Some(s@),
        None => None,
    }
}

/// One typed clipboard payload. The tag determines which payload is valid;
/// absence of content is a `None` around this type, distinct from an empty
/// string.
pub enum ClipboardContent {
    Text(String),
    FilePath(String),
    Url(String),
    Png(ImageHandle),
    Tiff(ImageHandle),
    Html(String),
    UnicodeText(String),
    Rtf(String),
    Rtfd(String),
    Pdf(PdfMetadata),
}

/// The mathematical shape of a clipboard payload: one case per kind, over
/// character and byte sequences.
pub enum ContentView {
    Text(Seq<char>),
    FilePath(Seq<char>),
    Url(Seq<char>),
    Png { width: u32, height: u32, bytes: Seq<u8> },
    Tiff { width: u32, height: u32, bytes: Seq<u8> },
    Html(Seq<char>),
    UnicodeText(Seq<char>),
    Rtf(Seq<char>),
    Rtfd(Seq<char>),
    Pdf { title: Option<Seq<char>>, author: Option<Seq<char>> },
}

impl View for ClipboardContent {
    type V = ContentView;

    open spec fn view(&self) -> ContentView {
        match self {
            ClipboardContent::Text(s) => ContentView::Text(s@),
            ClipboardContent::FilePath(s) => ContentView::FilePath(s@),
            ClipboardContent::Url(s) => ContentView::Url(s@),
            ClipboardContent::Png(h) => ContentView::Png {
                width: h.spec_width(),
                height: h.spec_height(),
                bytes: h.spec_bytes(),
            },
            ClipboardContent::Tiff(h) => ContentView::Tiff {
                width: h.spec_width(),
                height: h.spec_height(),
                bytes: h.spec_bytes(),
            },
            ClipboardContent::Html(s) => ContentView::Html(s@),
            ClipboardContent::UnicodeText(s) => ContentView::UnicodeText(s@),
            ClipboardContent::Rtf(s) => ContentView::Rtf(s@),
            ClipboardContent::Rtfd(s) => ContentView::Rtfd(s@),
            ClipboardContent::Pdf(m) => ContentView::Pdf {
                title: opt_string_view(m.title),
                author: opt_string_view(m.author),
            },
        }
    }
}

impl ClipboardContent {
    /// Image payloads carry the dimensions their own bytes decode to.
    pub open spec fn wf(self) -> bool {
        match self {
            ClipboardContent::Png(h) => h.wf(),
            ClipboardContent::Tiff(h) => h.wf(),
            _ => true,
        }
    }
}

/// The name of a payload's kind, as shown in the status line.
pub open spec fn spec_kind_name(v: ContentView) -> Seq<char> {
    match v {
        ContentView::Text(_) => "Text"@,
        ContentView::FilePath(_) => "FilePath"@,
        ContentView::Url(_) => "Url"@,
        ContentView::Png { .. } => "Png"@,
        ContentView::Tiff { .. } => "Tiff"@,
        ContentView::Html(_) => "Html"@,
        ContentView::UnicodeText(_) => "UnicodeText"@,
        ContentView::Rtf(_) => "Rtf"@,
        ContentView::Rtfd(_) => "Rtfd"@,
        ContentView::Pdf { .. } => "Pdf"@,
    }
}

impl ClipboardContent {
    /// The name of this payload's kind, for the status line.
    pub fn kind_name(&self) -> (r: &'static str)
        ensures
            r@ == spec_kind_name(self@),
    {
        match self {
            ClipboardContent::Text(_) => "Text",
            ClipboardContent::FilePath(_) => "FilePath",
            ClipboardContent::Url(_) => "Url",
            ClipboardContent::Png(_) => "Png",
            ClipboardContent::Tiff(_) => "Tiff",
            ClipboardContent::Html(_) => "Html",
            ClipboardContent::UnicodeText(_) => "UnicodeText",
            ClipboardContent::Rtf(_) => "Rtf",
            ClipboardContent::Rtfd(_) => "Rtfd",
            ClipboardContent::Pdf(_) => "Pdf",
        }
    }
}

} // verus!
