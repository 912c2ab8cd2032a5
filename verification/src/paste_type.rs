//! The type mapper: translates an opaque platform content-type identifier
//! string into a closed set of semantic pasteboard kinds.

use vstd::prelude::*;

verus! {

/// The semantic kinds a pasteboard type identifier can map to.
#[derive(Clone, Copy, Debug, PartialEq, Eq, Structural)]
pub enum PasteType {
    Url,
    Color,
    FileURL,
    Font,
    Html,
    MultipleTextSelection,
    Pdf,
    Png,
    Rtf,
    Rtfd,
    Ruler,
    Sound,
    String,
    TabularText,
    Tiff,
}

/// What `classify` returns on each identifier: an exact string match against
/// the supported set, with plain text as the permissive default.
pub open spec fn spec_classify(s: Seq<char>) -> PasteType {
    if s == "public.url"@ {
        PasteType::Url
    } else if s == "com.apple.cocoa.pasteboard.color"@ {
        PasteType::Color
    } else if s == "public.file-url"@ {
        PasteType::FileURL
    } else if s == "com.apple.cocoa.pasteboard.character-formatting"@ {
        PasteType::Font
    } else if s == "public.html"@ {
        PasteType::Html
    } else if s == "com.apple.cocoa.pasteboard.multiple-text-selection"@ {
        PasteType::MultipleTextSelection
    } else if s == "com.adobe.pdf"@ {
        PasteType::Pdf
    } else if s == "public.png"@ {
        PasteType::Png
    } else if s == "public.rtf"@ {
        PasteType::Rtf
    } else if s == "com.apple.flat-rtfd"@ {
        PasteType::Rtfd
    } else if s == "com.apple.cocoa.pasteboard.paragraph-formatting"@ {
        PasteType::Ruler
    } else if s == "com.apple.cocoa.pasteboard.sound"@ {
        PasteType::Sound
    } else if s == "public.utf8-plain-text"@ {
        PasteType::String
    } else if s == "public.utf8-tab-separated-values-text"@ {
        PasteType::TabularText
    } else if s == "public.tiff"@ {
        PasteType::Tiff
    } else {
        PasteType::String
    }
}

/// The identifiers that map to a kind of their own rather than falling back
/// to the plain-text default.
pub open spec fn is_supported_identifier(s: Seq<char>) -> bool {
    ||| s == "public.url"@
    ||| s == "com.apple.cocoa.pasteboard.color"@
    ||| s == "public.file-url"@
    ||| s == "com.apple.cocoa.pasteboard.character-formatting"@
    ||| s == "public.html"@
    ||| s == "com.apple.cocoa.pasteboard.multiple-text-selection"@
    ||| s == "com.adobe.pdf"@
    ||| s == "public.png"@
    ||| s == "public.rtf"@
    ||| s == "com.apple.flat-rtfd"@
    ||| s == "com.apple.cocoa.pasteboard.paragraph-formatting"@
    ||| s == "com.apple.cocoa.pasteboard.sound"@
    ||| s == "public.utf8-plain-text"@
    ||| s == "public.utf8-tab-separated-values-text"@
    ||| s == "public.tiff"@
}

/// Maps a raw platform type identifier to its semantic kind. Total over all
/// inputs: an identifier outside the supported set degrades to plain text.
pub fn classify(raw_identifier: &String) -> (r: PasteType)
    ensures
        r == spec_classify(raw_identifier@),
{
    if raw_identifier.eq(&"public.url".to_owned()) {
        PasteType::Url
    } else if raw_identifier.eq(&"com.apple.cocoa.pasteboard.color".to_owned()) {
        PasteType::Color
    } else if raw_identifier.eq(&"public.file-url".to_owned()) {
        PasteType::FileURL
    } else if raw_identifier.eq(&"com.apple.cocoa.pasteboard.character-formatting".to_owned()) {
        PasteType::Font
    } else if raw_identifier.eq(&"public.html".to_owned()) {
        PasteType::Html
    } else if raw_identifier.eq(&"com.apple.cocoa.pasteboard.multiple-text-selection".to_owned()) {
        PasteType::MultipleTextSelection
    } else if raw_identifier.eq(&"com.adobe.pdf".to_owned()) {
        PasteType::Pdf
    } else if raw_identifier.eq(&"public.png".to_owned()) {
        PasteType::Png
    } else if raw_identifier.eq(&"public.rtf".to_owned()) {
        PasteType::Rtf
    } else if raw_identifier.eq(&"com.apple.flat-rtfd".to_owned()) {
        PasteType::Rtfd
    } else if raw_identifier.eq(&"com.apple.cocoa.pasteboard.paragraph-formatting".to_owned()) {
        PasteType::Ruler
    } else if raw_identifier.eq(&"com.apple.cocoa.pasteboard.sound".to_owned()) {
        PasteType::Sound
    } else if raw_identifier.eq(&"public.utf8-plain-text".to_owned()) {
        PasteType::String
    } else if raw_identifier.eq(&"public.utf8-tab-separated-values-text".to_owned()) {
        PasteType::TabularText
    } else if raw_identifier.eq(&"public.tiff".to_owned()) {
        PasteType::Tiff
    } else {
        PasteType::String
    }
}

/// Each identifier of the supported set maps to its documented kind.
pub proof fn lemma_classify_supported()
    ensures
        spec_classify("public.url"@) == PasteType::Url,
        spec_classify("com.apple.cocoa.pasteboard.color"@) == PasteType::Color,
        spec_classify("public.file-url"@) == PasteType::FileURL,
        spec_classify("com.apple.cocoa.pasteboard.character-formatting"@) == PasteType::Font,
        spec_classify("public.html"@) == PasteType::Html,
        spec_classify("com.apple.cocoa.pasteboard.multiple-text-selection"@)
            == PasteType::MultipleTextSelection,
        spec_classify("com.adobe.pdf"@) == PasteType::Pdf,
        spec_classify("public.png"@) == PasteType::Png,
        spec_classify("public.rtf"@) == PasteType::Rtf,
        spec_classify("com.apple.flat-rtfd"@) == PasteType::Rtfd,
        spec_classify("com.apple.cocoa.pasteboard.paragraph-formatting"@) == PasteType::Ruler,
        spec_classify("com.apple.cocoa.pasteboard.sound"@) == PasteType::Sound,
        spec_classify("public.utf8-plain-text"@) == PasteType::String,
        spec_classify("public.utf8-tab-separated-values-text"@) == PasteType::TabularText,
        spec_classify("public.tiff"@) == PasteType::Tiff,
{
    reveal_strlit("public.url");
    reveal_strlit("com.apple.cocoa.pasteboard.color");
    reveal_strlit("public.file-url");
    reveal_strlit("com.apple.cocoa.pasteboard.character-formatting");
    reveal_strlit("public.html");
    reveal_strlit("com.apple.cocoa.pasteboard.multiple-text-selection");
    reveal_strlit("com.adobe.pdf");
    reveal_strlit("public.png");
    reveal_strlit("public.rtf");
    reveal_strlit("com.apple.flat-rtfd");
    reveal_strlit("com.apple.cocoa.pasteboard.paragraph-formatting");
    reveal_strlit("com.apple.cocoa.pasteboard.sound");
    reveal_strlit("public.utf8-plain-text");
    reveal_strlit("public.utf8-tab-separated-values-text");
    reveal_strlit("public.tiff");
    assert("public.url"@.len() == 10);
    assert("com.apple.cocoa.pasteboard.color"@.len() == 32);
    assert("public.file-url"@.len() == 15);
    assert("com.apple.cocoa.pasteboard.character-formatting"@.len() == 47);
    assert("public.html"@.len() == 11);
    assert("com.apple.cocoa.pasteboard.multiple-text-selection"@.len() == 50);
    assert("com.adobe.pdf"@.len() == 13);
    assert("public.png"@.len() == 10);
    assert("public.rtf"@.len() == 10);
    assert("com.apple.flat-rtfd"@.len() == 19);
    assert("com.apple.cocoa.pasteboard.paragraph-formatting"@.len() == 47);
    assert("com.apple.cocoa.pasteboard.sound"@.len() == 32);
    assert("public.utf8-plain-text"@.len() == 22);
    assert("public.utf8-tab-separated-values-text"@.len() == 37);
    assert("public.tiff"@.len() == 11);
    assert("public.url"@.index(7) == 'u');
    assert("public.png"@.index(7) == 'p');
    assert("public.rtf"@.index(7) == 'r');
    assert("public.tiff"@.index(7) == 't');
    assert("public.html"@.index(7) == 'h');
    assert("com.apple.cocoa.pasteboard.character-formatting"@.index(27) == 'c');
    assert("com.apple.cocoa.pasteboard.paragraph-formatting"@.index(27) == 'p');
    assert("com.apple.cocoa.pasteboard.color"@.index(27) == 'c');
    assert("com.apple.cocoa.pasteboard.sound"@.index(27) == 's');
}

/// Every identifier outside the supported set degrades to the plain-text
/// kind: classification is total and never fails.
pub proof fn lemma_classify_unknown_defaults(s: Seq<char>)
    requires
        !is_supported_identifier(s),
    ensures
        spec_classify(s) == PasteType::String,
{
}

} // verus!
