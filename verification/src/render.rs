//! The presentation adapter's decisions: which widget block a typed
//! clipboard payload turns into. Emitting the widgets is the GUI host's
//! business; choosing them is decided and verified here, totally, so no
//! payload is ever left without a renderer.

use vstd::prelude::*;

use crate::content::{opt_string_view, ClipboardContent, ContentView, PdfMetadata};

verus! {

/// The metadata block shown for a PDF payload: its title, its author, both,
/// or a generic label when the info dictionary offers neither.
pub enum PdfSummary {
    TitleOnly(String),
    AuthorOnly(String),
    TitleAndAuthor(String, String),
    Generic,
}

/// How a PDF summary reads off the optional Title and Author entries.
pub open spec fn summary_matches(
    title: Option<Seq<char>>,
    author: Option<Seq<char>>,
    r: PdfSummary,
) -> bool {
    match (title, author) {
        (Some(t), None) => r matches PdfSummary::TitleOnly(x) && x@ == t,
        (None, Some(a)) => r matches PdfSummary::AuthorOnly(x) && x@ == a,
        (Some(t), Some(a)) => r matches PdfSummary::TitleAndAuthor(x, y) && x@ == t && y@ == a,
        (None, None) => r matches PdfSummary::Generic,
    }
}

impl PdfMetadata {
    /// The metadata block for this document: title and author as far as the
    /// info dictionary holds them, else a generic label.
    pub fn summarize(&self) -> (r: PdfSummary)
        ensures
            summary_matches(opt_string_view(self.title), opt_string_view(self.author), r),
    {
        match (&self.title, &self.author) {
            (Some(t), None) => PdfSummary::TitleOnly(t.clone()),
            (None, Some(a)) => PdfSummary::AuthorOnly(a.clone()),
            (Some(t), Some(a)) => PdfSummary::TitleAndAuthor(t.clone(), a.clone()),
            (None, None) => PdfSummary::Generic,
        }
    }
}

/// One read-only widget block: a text label, a clickable link that hands its
/// target to the external opener, a bounded image view of the given pixel
/// dimensions, or a PDF metadata block.
pub enum RenderPlan {
    Label(String),
    Link(String),
    Picture(u32, u32),
    PdfBlock(PdfSummary),
}

/// The widget block each payload kind turns into: text-like payloads become
/// labels, URL and file-path payloads become links, images become bounded
/// image views of their decoded dimensions, and PDF metadata becomes a
/// summary block. Total: every payload has a renderer.
pub fn render_plan(c: &ClipboardContent) -> (r: RenderPlan)
    ensures
        (match c@ {
            ContentView::Text(s) => r matches RenderPlan::Label(x) && x@ == s,
            ContentView::Html(s) => r matches RenderPlan::Label(x) && x@ == s,
            ContentView::UnicodeText(s) => r matches RenderPlan::Label(x) && x@ == s,
            ContentView::Rtf(s) => r matches RenderPlan::Label(x) && x@ == s,
            ContentView::Rtfd(s) => r matches RenderPlan::Label(x) && x@ == s,
            ContentView::Url(s) => r matches RenderPlan::Link(x) && x@ == s,
            ContentView::FilePath(s) => r matches RenderPlan::Link(x) && x@ == s,
            ContentView::Png { width, height, .. } => r matches RenderPlan::Picture(w, h) && w
                == width && h == height,
            ContentView::Tiff { width, height, .. } => r matches RenderPlan::Picture(w, h) && w
                == width && h == height,
            ContentView::Pdf { title, author } => r matches RenderPlan::PdfBlock(s)
                && summary_matches(title, author, s),
        }),
{
    match c {
        ClipboardContent::Text(s) => RenderPlan::Label(s.clone()),
        ClipboardContent::Html(s) => RenderPlan::Label(s.clone()),
        ClipboardContent::UnicodeText(s) => RenderPlan::Label(s.clone()),
        ClipboardContent::Rtf(s) => RenderPlan::Label(s.clone()),
        ClipboardContent::Rtfd(s) => RenderPlan::Label(s.clone()),
        ClipboardContent::Url(s) => RenderPlan::Link(s.clone()),
        ClipboardContent::FilePath(s) => RenderPlan::Link(s.clone()),
        ClipboardContent::Png(h) => RenderPlan::Picture(h.width(), h.height()),
        ClipboardContent::Tiff(h) => RenderPlan::Picture(h.width(), h.height()),
        ClipboardContent::Pdf(m) => RenderPlan::PdfBlock(m.summarize()),
    }
}

} // verus!
