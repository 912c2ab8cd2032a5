use clipboard_viewer::paste_type::{classify, PasteType};

#[test]
fn classify_supported_identifiers() {
    assert_eq!(classify(&"public.url".to_string()), PasteType::Url);
    assert_eq!(
        classify(&"com.apple.cocoa.pasteboard.color".to_string()),
        PasteType::Color
    );
    assert_eq!(classify(&"public.file-url".to_string()), PasteType::FileURL);
    assert_eq!(
        classify(&"com.apple.cocoa.pasteboard.character-formatting".to_string()),
        PasteType::Font
    );
    assert_eq!(classify(&"public.html".to_string()), PasteType::Html);
    assert_eq!(
        classify(&"com.apple.cocoa.pasteboard.multiple-text-selection".to_string()),
        PasteType::MultipleTextSelection
    );
    assert_eq!(classify(&"com.adobe.pdf".to_string()), PasteType::Pdf);
    assert_eq!(classify(&"public.png".to_string()), PasteType::Png);
    assert_eq!(classify(&"public.rtf".to_string()), PasteType::Rtf);
    assert_eq!(classify(&"com.apple.flat-rtfd".to_string()), PasteType::Rtfd);
    assert_eq!(
        classify(&"com.apple.cocoa.pasteboard.paragraph-formatting".to_string()),
        PasteType::Ruler
    );
    assert_eq!(
        classify(&"com.apple.cocoa.pasteboard.sound".to_string()),
        PasteType::Sound
    );
    assert_eq!(
        classify(&"public.utf8-plain-text".to_string()),
        PasteType::String
    );
    assert_eq!(
        classify(&"public.utf8-tab-separated-values-text".to_string()),
        PasteType::TabularText
    );
    assert_eq!(classify(&"public.tiff".to_string()), PasteType::Tiff);
}

#[test]
fn classify_unknown_defaults_to_string() {
    assert_eq!(classify(&"".to_string()), PasteType::String);
    assert_eq!(classify(&"com.example.custom".to_string()), PasteType::String);
    assert_eq!(classify(&"public.jpeg".to_string()), PasteType::String);
    assert_eq!(classify(&"PUBLIC.URL".to_string()), PasteType::String);
    assert_eq!(classify(&"public.url ".to_string()), PasteType::String);
}
