use clipboard_viewer::detect::ChangeDetector;
use clipboard_viewer::pasteboard::Pasteboard;

fn board_at_revision(rev: i64) -> Pasteboard {
    Pasteboard::new(None, None, Vec::new(), Vec::new(), rev)
}

#[test]
fn unchanged_revision_reports_nothing() {
    let mut detector = ChangeDetector::new();
    let pb = board_at_revision(5);
    assert!(detector.has_changed(&pb));
    assert!(!detector.has_changed(&pb));
    assert!(!detector.has_changed(&pb));
}

#[test]
fn fresh_detector_at_revision_zero_reports_nothing() {
    let mut detector = ChangeDetector::new();
    let pb = board_at_revision(0);
    assert!(!detector.has_changed(&pb));
}

#[test]
fn revision_bump_is_reported_exactly_once() {
    let mut detector = ChangeDetector::new();
    let before = board_at_revision(7);
    assert!(detector.has_changed(&before));
    assert!(!detector.has_changed(&before));
    let after = board_at_revision(8);
    assert!(detector.has_changed(&after));
    assert!(!detector.has_changed(&after));
    assert!(!detector.has_changed(&after));
    let later = board_at_revision(9);
    assert!(detector.has_changed(&later));
}
