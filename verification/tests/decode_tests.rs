use clipboard_viewer::content::ClipboardContent;
use clipboard_viewer::decode::{decode_image, decode_pdf, DecodeError};
use clipboard_viewer::dispatch::get_clipboard_item;
use clipboard_viewer::pasteboard::{DataEntry, Pasteboard};
use clipboard_viewer::render::PdfSummary;

fn png_bytes(width: u32, height: u32) -> Vec<u8> {
    let img = image::RgbaImage::new(width, height);
    let mut cursor = std::io::Cursor::new(Vec::new());
    img.write_to(&mut cursor, image::ImageFormat::Png).unwrap();
    cursor.into_inner()
}

fn minimal_pdf(info_dict: Option<&str>) -> Vec<u8> {
    let mut out: Vec<u8> = Vec::new();
    let mut offsets: Vec<usize> = Vec::new();
    out.extend_from_slice(b"%PDF-1.4\n");
    offsets.push(out.len());
    out.extend_from_slice(b"1 0 obj\n<< /Type /Catalog /Pages 2 0 R >>\nendobj\n");
    offsets.push(out.len());
    out.extend_from_slice(b"2 0 obj\n<< /Type /Pages /Kids [] /Count 0 >>\nendobj\n");
    if let Some(dict) = info_dict {
        offsets.push(out.len());
        out.extend_from_slice(format!("3 0 obj\n{}\nendobj\n", dict).as_bytes());
    }
    let size = offsets.len() + 1;
    let xref_offset = out.len();
    out.extend_from_slice(format!("xref\n0 {}\n", size).as_bytes());
    out.extend_from_slice(b"0000000000 65535 f \n");
    for off in &offsets {
        out.extend_from_slice(format!("{:010} 00000 n \n", off).as_bytes());
    }
    let mut trailer = format!("trailer\n<< /Size {} /Root 1 0 R", size);
    if info_dict.is_some() {
        trailer.push_str(" /Info 3 0 R");
    }
    trailer.push_str(" >>\n");
    out.extend_from_slice(trailer.as_bytes());
    out.extend_from_slice(format!("startxref\n{}\n%%EOF", xref_offset).as_bytes());
    out
}

#[test]
fn png_decode_reports_source_dimensions() {
    let handle = decode_image(png_bytes(3, 2)).unwrap();
    assert_eq!(handle.width(), 3);
    assert_eq!(handle.height(), 2);
}

#[test]
fn truncated_png_fails_to_decode() {
    let mut bytes = png_bytes(3, 2);
    bytes.truncate(6);
    assert!(matches!(decode_image(bytes), Err(DecodeError::InvalidImage)));
    assert!(matches!(
        decode_image(Vec::new()),
        Err(DecodeError::InvalidImage)
    ));
}

#[test]
fn png_dispatches_to_image_with_matching_dimensions() {
    let pb = Pasteboard::new(
        Some(vec!["public.png".to_string()]),
        Some("public.png".to_string()),
        Vec::new(),
        vec![DataEntry {
            ident: "public.png".to_string(),
            data: Some(png_bytes(5, 4)),
        }],
        1,
    );
    match get_clipboard_item(&pb) {
        Some(ClipboardContent::Png(handle)) => {
            assert_eq!(handle.width(), 5);
            assert_eq!(handle.height(), 4);
        }
        other => panic!("expected Png, got {:?}", other.map(|c| c.kind_name())),
    }
}

#[test]
fn corrupted_png_dispatches_to_none() {
    let mut bytes = png_bytes(5, 4);
    bytes.truncate(8);
    let pb = Pasteboard::new(
        Some(vec!["public.png".to_string()]),
        Some("public.png".to_string()),
        Vec::new(),
        vec![DataEntry {
            ident: "public.png".to_string(),
            data: Some(bytes),
        }],
        1,
    );
    assert!(get_clipboard_item(&pb).is_none());
}

#[test]
fn pdf_title_without_author_is_exposed() {
    let m = decode_pdf(minimal_pdf(Some("<< /Title (Report) >>"))).unwrap();
    assert_eq!(m.title.as_deref(), Some("Report"));
    assert_eq!(m.author, None);
    match m.summarize() {
        PdfSummary::TitleOnly(t) => assert_eq!(t, "Report"),
        _ => panic!("expected a title-only summary"),
    }
}

#[test]
fn pdf_without_info_keys_is_generic() {
    let m = decode_pdf(minimal_pdf(None)).unwrap();
    assert_eq!(m.title, None);
    assert_eq!(m.author, None);
    assert!(matches!(m.summarize(), PdfSummary::Generic));
}

#[test]
fn pdf_title_and_author_are_exposed() {
    let m = decode_pdf(minimal_pdf(Some("<< /Title (Report) /Author (Avery) >>"))).unwrap();
    assert_eq!(m.title.as_deref(), Some("Report"));
    assert_eq!(m.author.as_deref(), Some("Avery"));
    match m.summarize() {
        PdfSummary::TitleAndAuthor(t, a) => {
            assert_eq!(t, "Report");
            assert_eq!(a, "Avery");
        }
        _ => panic!("expected a title-and-author summary"),
    }
}

#[test]
fn malformed_pdf_fails_to_decode() {
    let r = decode_pdf(b"not a pdf at all".to_vec());
    assert!(matches!(r, Err(DecodeError::MalformedPdf)));
}

#[test]
fn pdf_dispatches_to_metadata() {
    let pb = Pasteboard::new(
        Some(vec!["com.adobe.pdf".to_string()]),
        Some("com.adobe.pdf".to_string()),
        Vec::new(),
        vec![DataEntry {
            ident: "com.adobe.pdf".to_string(),
            data: Some(minimal_pdf(Some("<< /Title (Report) >>"))),
        }],
        1,
    );
    match get_clipboard_item(&pb) {
        Some(ClipboardContent::Pdf(m)) => assert_eq!(m.title.as_deref(), Some("Report")),
        other => panic!("expected Pdf, got {:?}", other.map(|c| c.kind_name())),
    }
}
