//! The classifier/dispatcher: reads the snapshot's available-type list,
//! classifies the platform's best-matching pick, fetches that kind's payload
//! and decodes binary kinds, returning one typed clipboard value or nothing.

use vstd::prelude::*;

use crate::content::{ClipboardContent, ContentView};
use crate::decode::{decode_image, decode_pdf, decoded_image, parsed_pdf_info};
use crate::fetch::{
    get_color_from_clipboard, get_file_url_from_clipboard, get_font_from_clipboard,
    get_html_from_clipboard, get_multiple_text_selection_from_clipboard,
    get_pdf_from_clipboard, get_png_from_clipboard, get_rtf_from_clipboard,
    get_rtfd_from_clipboard, get_ruler_from_clipboard, get_sound_from_clipboard,
    get_string_from_clipboard, get_tabular_text_from_clipboard, get_tiff_from_clipboard,
    get_url_from_clipboard,
};
use crate::paste_type::{classify, spec_classify, PasteType};
use crate::pasteboard::Pasteboard;

verus! {

/// What dispatching a chosen identifier over a snapshot yields: the payload
/// of the classified kind, decoded for binary kinds, or nothing when the
/// payload is absent or fails to decode. Kinds without a preview of their
/// own degrade to their raw textual value.
pub open spec fn spec_dispatch(pb: Pasteboard, chosen: Seq<char>) -> Option<ContentView> {
    match spec_classify(chosen) {
        PasteType::Url => match pb.string_view("public.url"@) {
            Some(s) => Some(ContentView::Url(s)),
            None => None,
        },
        PasteType::Color => match pb.string_view("com.apple.cocoa.pasteboard.color"@) {
            Some(s) => Some(ContentView::Text(s)),
            None => None,
        },
        PasteType::FileURL => match pb.string_view("public.file-url"@) {
            Some(s) => Some(ContentView::FilePath(s)),
            None => None,
        },
        PasteType::Font => match pb.string_view(
            "com.apple.cocoa.pasteboard.character-formatting"@,
        ) {
            Some(s) => Some(ContentView::Text(s)),
            None => None,
        },
        PasteType::Html => match pb.string_view("public.html"@) {
            Some(s) => Some(ContentView::Html(s)),
            None => None,
        },
        PasteType::MultipleTextSelection => match pb.string_view(
            "com.apple.cocoa.pasteboard.multiple-text-selection"@,
        ) {
            Some(s) => Some(ContentView::Text(s)),
            None => None,
        },
        PasteType::Pdf => match pb.data_view("com.adobe.pdf"@) {
            Some(b) => match parsed_pdf_info(b) {
                Some(info) => Some(ContentView::Pdf { title: info.0, author: info.1 }),
                None => None,
            },
            None => None,
        },
        PasteType::Png => match pb.data_view("public.png"@) {
            Some(b) => match decoded_image(b) {
                Some(dims) => Some(
                    ContentView::Png { width: dims.0, height: dims.1, bytes: b },
                ),
                None => None,
            },
            None => None,
        },
        PasteType::Rtf => match pb.string_view("public.rtf"@) {
            Some(s) => Some(ContentView::Rtf(s)),
            None => None,
        },
        PasteType::Rtfd => match pb.string_view("com.apple.flat-rtfd"@) {
            Some(s) => Some(ContentView::Rtfd(s)),
            None => None,
        },
        PasteType::Ruler => match pb.string_view(
            "com.apple.cocoa.pasteboard.paragraph-formatting"@,
        ) {
            Some(s) => Some(ContentView::Text(s)),
            None => None,
        },
        PasteType::Sound => match pb.string_view("com.apple.cocoa.pasteboard.sound"@) {
            Some(s) => Some(ContentView::Text(s)),
            None => None,
        },
        PasteType::String => match pb.string_view("public.utf8-plain-text"@) {
            Some(s) => Some(ContentView::Text(s)),
            None => None,
        },
        PasteType::TabularText => match pb.string_view(
            "public.utf8-tab-separated-values-text"@,
        ) {
            Some(s) => Some(ContentView::Text(s)),
            None => None,
        },
        PasteType::Tiff => match pb.data_view("public.tiff"@) {
            Some(b) => match decoded_image(b) {
                Some(dims) => Some(
                    ContentView::Tiff { width: dims.0, height: dims.1, bytes: b },
                ),
                None => None,
            },
            None => None,
        },
    }
}

/// What the dispatcher yields on a snapshot: nothing when the available-type
/// list is absent or empty or the platform picked no supported type, else
/// the dispatch of the picked identifier.
pub open spec fn spec_get_clipboard_item(pb: Pasteboard) -> Option<ContentView> {
    match pb.types_view() {
        None => None,
        Some(ts) => if ts.len() == 0 {
            None
        } else {
            match pb.best_view() {
                None => None,
                Some(t) => spec_dispatch(pb, t),
            }
        },
    }
}

/// The orchestrating entry point: one typed clipboard value for the current
/// snapshot, or `None` when the pasteboard is empty, its best type is
/// unsupported, its payload is absent, or a binary payload fails to decode.
pub fn get_clipboard_item(pb: &Pasteboard) -> (r: Option<ClipboardContent>)
    ensures
        (match r {
            Some(c) => spec_get_clipboard_item(*pb) == Some(c@) && c.wf(),
            None => spec_get_clipboard_item(*pb) is None,
        }),
{
    let types = match pb.available_type_identifiers() {
        Some(v) => v,
        None => {
            return None;
        },
    };
    if types.len() == 0 {
        return None;
    }
    let chosen = match pb.best_matching_type() {
        Some(s) => s,
        None => {
            return None;
        },
    };
    match classify(chosen) {
        PasteType::Url => match get_url_from_clipboard(pb) {
            Some(s) => Some(ClipboardContent::Url(s)),
            None => None,
        },
        PasteType::Color => match get_color_from_clipboard(pb) {
            Some(s) => Some(ClipboardContent::Text(s)),
            None => None,
        },
        PasteType::FileURL => match get_file_url_from_clipboard(pb) {
            Some(s) => Some(ClipboardContent::FilePath(s)),
            None => None,
        },
        PasteType::Font => match get_font_from_clipboard(pb) {
            Some(s) => Some(ClipboardContent::Text(s)),
            None => None,
        },
        PasteType::Html => match get_html_from_clipboard(pb) {
            Some(s) => Some(ClipboardContent::Html(s)),
            None => None,
        },
        PasteType::MultipleTextSelection => match get_multiple_text_selection_from_clipboard(pb) {
            Some(s) => Some(ClipboardContent::Text(s)),
            None => None,
        },
        PasteType::Pdf => match get_pdf_from_clipboard(pb) {
            Some(b) => match decode_pdf(b) {
                Ok(m) => Some(ClipboardContent::Pdf(m)),
                Err(_) => None,
            },
            None => None,
        },
        PasteType::Png => match get_png_from_clipboard(pb) {
            Some(b) => match decode_image(b) {
                Ok(h) => Some(ClipboardContent::Png(h)),
                Err(_) => None,
            },
            None => None,
        },
        PasteType::Rtf => match get_rtf_from_clipboard(pb) {
            Some(s) => Some(ClipboardContent::Rtf(s)),
            None => None,
        },
        PasteType::Rtfd => match get_rtfd_from_clipboard(pb) {
            Some(s) => Some(ClipboardContent::Rtfd(s)),
            None => None,
        },
        PasteType::Ruler => match get_ruler_from_clipboard(pb) {
            Some(s) => Some(ClipboardContent::Text(s)),
            None => None,
        },
        PasteType::Sound => match get_sound_from_clipboard(pb) {
            Some(s) => Some(ClipboardContent::Text(s)),
            None => None,
        },
        PasteType::String => match get_string_from_clipboard(pb) {
            Some(s) => Some(ClipboardContent::Text(s)),
            None => None,
        },
        PasteType::TabularText => match get_tabular_text_from_clipboard(pb) {
            Some(s) => Some(ClipboardContent::Text(s)),
            None => None,
        },
        PasteType::Tiff => match get_tiff_from_clipboard(pb) {
            Some(b) => match decode_image(b) {
                Ok(h) => Some(ClipboardContent::Tiff(h)),
                Err(_) => None,
            },
            None => None,
        },
    }
}

/// An empty available-type list yields no content, whatever else the
/// snapshot holds.
pub proof fn lemma_empty_type_list_yields_none(pb: Pasteboard)
    requires
        pb.types_view() matches Some(ts) && ts.len() == 0,
    ensures
        spec_get_clipboard_item(pb) is None,
{
}

/// An absent available-type list yields no content as well.
pub proof fn lemma_absent_type_list_yields_none(pb: Pasteboard)
    requires
        pb.types_view() is None,
    ensures
        spec_get_clipboard_item(pb) is None,
{
}

} // verus!
