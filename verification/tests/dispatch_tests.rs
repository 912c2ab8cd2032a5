use clipboard_viewer::content::ClipboardContent;
use clipboard_viewer::dispatch::get_clipboard_item;
use clipboard_viewer::pasteboard::{DataEntry, Pasteboard, StringEntry};

fn string_board(ident: &str, value: &str) -> Pasteboard {
    Pasteboard::new(
        Some(vec![ident.to_string()]),
        Some(ident.to_string()),
        vec![StringEntry {
            ident: ident.to_string(),
            value: value.to_string(),
        }],
        Vec::new(),
        1,
    )
}

#[test]
fn empty_type_list_yields_none() {
    let pb = Pasteboard::new(
        Some(Vec::new()),
        Some("public.url".to_string()),
        vec![StringEntry {
            ident: "public.url".to_string(),
            value: "https://example.com".to_string(),
        }],
        Vec::new(),
        1,
    );
    assert!(get_clipboard_item(&pb).is_none());
}

#[test]
fn absent_type_list_yields_none() {
    let pb = Pasteboard::new(None, None, Vec::new(), Vec::new(), 0);
    assert!(get_clipboard_item(&pb).is_none());
}

#[test]
fn plain_text_dispatches_to_text() {
    let pb = string_board("public.utf8-plain-text", "hello");
    match get_clipboard_item(&pb) {
        Some(ClipboardContent::Text(s)) => assert_eq!(s, "hello"),
        other => panic!("expected Text, got {:?}", other.map(|c| c.kind_name())),
    }
}

#[test]
fn url_dispatches_to_url() {
    let pb = string_board("public.url", "https://example.com");
    match get_clipboard_item(&pb) {
        Some(ClipboardContent::Url(s)) => assert_eq!(s, "https://example.com"),
        other => panic!("expected Url, got {:?}", other.map(|c| c.kind_name())),
    }
}

#[test]
fn file_url_dispatches_to_file_path() {
    let pb = string_board("public.file-url", "file:///tmp/example.txt");
    match get_clipboard_item(&pb) {
        Some(ClipboardContent::FilePath(s)) => assert_eq!(s, "file:///tmp/example.txt"),
        other => panic!("expected FilePath, got {:?}", other.map(|c| c.kind_name())),
    }
}

#[test]
fn html_dispatches_to_html() {
    let pb = string_board("public.html", "<p>hi</p>");
    match get_clipboard_item(&pb) {
        Some(ClipboardContent::Html(s)) => assert_eq!(s, "<p>hi</p>"),
        other => panic!("expected Html, got {:?}", other.map(|c| c.kind_name())),
    }
}

#[test]
fn color_dispatches_to_raw_text() {
    let pb = string_board("com.apple.cocoa.pasteboard.color", "rgb(1,0,0)");
    match get_clipboard_item(&pb) {
        Some(ClipboardContent::Text(s)) => assert_eq!(s, "rgb(1,0,0)"),
        other => panic!("expected Text, got {:?}", other.map(|c| c.kind_name())),
    }
}

#[test]
fn unknown_best_type_falls_back_to_plain_text() {
    let pb = Pasteboard::new(
        Some(vec!["com.example.custom".to_string()]),
        Some("com.example.custom".to_string()),
        vec![StringEntry {
            ident: "public.utf8-plain-text".to_string(),
            value: "fallback".to_string(),
        }],
        Vec::new(),
        1,
    );
    match get_clipboard_item(&pb) {
        Some(ClipboardContent::Text(s)) => assert_eq!(s, "fallback"),
        other => panic!("expected Text, got {:?}", other.map(|c| c.kind_name())),
    }
}

#[test]
fn missing_payload_yields_none() {
    let pb = Pasteboard::new(
        Some(vec!["public.url".to_string()]),
        Some("public.url".to_string()),
        Vec::new(),
        Vec::new(),
        1,
    );
    assert!(get_clipboard_item(&pb).is_none());
}

#[test]
fn no_best_match_yields_none() {
    let pb = Pasteboard::new(
        Some(vec!["public.url".to_string()]),
        None,
        vec![StringEntry {
            ident: "public.url".to_string(),
            value: "https://example.com".to_string(),
        }],
        Vec::new(),
        1,
    );
    assert!(get_clipboard_item(&pb).is_none());
}

#[test]
fn null_data_reads_as_empty_buffer() {
    let pb = Pasteboard::new(
        Some(vec!["public.png".to_string()]),
        Some("public.png".to_string()),
        Vec::new(),
        vec![DataEntry {
            ident: "public.png".to_string(),
            data: None,
        }],
        1,
    );
    let buffer = pb.data_for_type(&"public.png".to_string());
    assert_eq!(buffer, Some(Vec::new()));
    // An empty buffer is not a decodable image, so the dispatcher degrades
    // to no content rather than failing.
    assert!(get_clipboard_item(&pb).is_none());
}
