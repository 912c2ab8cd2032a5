//! Content fetchers: one function per semantic kind, each querying the
//! pasteboard snapshot for that kind's native representation.

use vstd::prelude::*;

use crate::content::opt_string_view;
use crate::pasteboard::Pasteboard;

verus! {

/// An optional owned byte buffer, seen as an optional byte sequence.
pub open spec fn opt_bytes_view(o: Option<Vec<u8>>) -> Option<Seq<u8>> {
    match o {
        Some(d) => Some(d@),
        None => None,
    }
}

/// The URL text on the pasteboard, if any.
pub fn get_url_from_clipboard(pb: &Pasteboard) -> (r: Option<String>)
    ensures
        opt_string_view(r) == pb.string_view("public.url"@),
{
    pb.string_for_type(&"public.url".to_owned())
}

/// The file URL text on the pasteboard, if any.
pub fn get_file_url_from_clipboard(pb: &Pasteboard) -> (r: Option<String>)
    ensures
        opt_string_view(r) == pb.string_view("public.file-url"@),
{
    pb.string_for_type(&"public.file-url".to_owned())
}

/// The plain text on the pasteboard, if any.
pub fn get_string_from_clipboard(pb: &Pasteboard) -> (r: Option<String>)
    ensures
        opt_string_view(r) == pb.string_view("public.utf8-plain-text"@),
{
    pb.string_for_type(&"public.utf8-plain-text".to_owned())
}

/// The ruler (paragraph formatting) text on the pasteboard, if any.
pub fn get_ruler_from_clipboard(pb: &Pasteboard) -> (r: Option<String>)
    ensures
        opt_string_view(r) == pb.string_view("com.apple.cocoa.pasteboard.paragraph-formatting"@),
{
    pb.string_for_type(&"com.apple.cocoa.pasteboard.paragraph-formatting".to_owned())
}

/// The sound payload on the pasteboard as text, if any.
pub fn get_sound_from_clipboard(pb: &Pasteboard) -> (r: Option<String>)
    ensures
        opt_string_view(r) == pb.string_view("com.apple.cocoa.pasteboard.sound"@),
{
    pb.string_for_type(&"com.apple.cocoa.pasteboard.sound".to_owned())
}

/// The font (character formatting) text on the pasteboard, if any.
pub fn get_font_from_clipboard(pb: &Pasteboard) -> (r: Option<String>)
    ensures
        opt_string_view(r) == pb.string_view("com.apple.cocoa.pasteboard.character-formatting"@),
{
    pb.string_for_type(&"com.apple.cocoa.pasteboard.character-formatting".to_owned())
}

/// The color description on the pasteboard, if any.
pub fn get_color_from_clipboard(pb: &Pasteboard) -> (r: Option<String>)
    ensures
        opt_string_view(r) == pb.string_view("com.apple.cocoa.pasteboard.color"@),
{
    pb.string_for_type(&"com.apple.cocoa.pasteboard.color".to_owned())
}

/// The RTF text on the pasteboard, if any.
pub fn get_rtf_from_clipboard(pb: &Pasteboard) -> (r: Option<String>)
    ensures
        opt_string_view(r) == pb.string_view("public.rtf"@),
{
    pb.string_for_type(&"public.rtf".to_owned())
}

/// The RTFD text on the pasteboard, if any.
pub fn get_rtfd_from_clipboard(pb: &Pasteboard) -> (r: Option<String>)
    ensures
        opt_string_view(r) == pb.string_view("com.apple.flat-rtfd"@),
{
    pb.string_for_type(&"com.apple.flat-rtfd".to_owned())
}

/// The tab-separated text on the pasteboard, if any.
pub fn get_tabular_text_from_clipboard(pb: &Pasteboard) -> (r: Option<String>)
    ensures
        opt_string_view(r) == pb.string_view("public.utf8-tab-separated-values-text"@),
{
    pb.string_for_type(&"public.utf8-tab-separated-values-text".to_owned())
}

/// The multiple-text-selection payload on the pasteboard, if any.
pub fn get_multiple_text_selection_from_clipboard(pb: &Pasteboard) -> (r: Option<String>)
    ensures
        opt_string_view(r) == pb.string_view(
            "com.apple.cocoa.pasteboard.multiple-text-selection"@,
        ),
{
    pb.string_for_type(&"com.apple.cocoa.pasteboard.multiple-text-selection".to_owned())
}

/// The HTML text on the pasteboard, if any.
pub fn get_html_from_clipboard(pb: &Pasteboard) -> (r: Option<String>)
    ensures
        opt_string_view(r) == pb.string_view("public.html"@),
{
    pb.string_for_type(&"public.html".to_owned())
}

/// The raw PNG bytes on the pasteboard, if any.
pub fn get_png_from_clipboard(pb: &Pasteboard) -> (r: Option<Vec<u8>>)
    ensures
        opt_bytes_view(r) == pb.data_view("public.png"@),
{
    pb.data_for_type(&"public.png".to_owned())
}

/// The raw TIFF bytes on the pasteboard, if any.
pub fn get_tiff_from_clipboard(pb: &Pasteboard) -> (r: Option<Vec<u8>>)
    ensures
        opt_bytes_view(r) == pb.data_view("public.tiff"@),
{
    pb.data_for_type(&"public.tiff".to_owned())
}

/// The raw PDF bytes on the pasteboard, if any.
pub fn get_pdf_from_clipboard(pb: &Pasteboard) -> (r: Option<Vec<u8>>)
    ensures
        opt_bytes_view(r) == pb.data_view("com.adobe.pdf"@),
{
    pb.data_for_type(&"com.adobe.pdf".to_owned())
}

} // verus!
