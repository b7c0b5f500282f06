use clipboard_monitor::detector::ChangeDetector;

#[test]
fn detector_starts_with_an_empty_snapshot() {
    let detector = ChangeDetector::new();
    assert_eq!(detector.snapshot(), "");
}

#[test]
fn detector_reports_a_new_text_once() {
    let mut detector = ChangeDetector::new();
    assert_eq!(detector.observe("hello"), Some("hello".to_string()));
    assert_eq!(detector.observe("hello"), None);
    assert_eq!(detector.observe("world"), Some("world".to_string()));
    assert_eq!(detector.snapshot(), "world");
}

#[test]
fn detector_ignores_empty_reads() {
    let mut detector = ChangeDetector::new();
    assert_eq!(detector.observe(""), None);
    assert_eq!(detector.snapshot(), "");
    assert_eq!(detector.observe("kept"), Some("kept".to_string()));
    assert_eq!(detector.observe(""), None);
    assert_eq!(detector.snapshot(), "kept");
    assert_eq!(detector.observe("kept"), None);
}

#[test]
fn detector_reports_a_text_again_after_another() {
    let mut detector = ChangeDetector::new();
    assert_eq!(detector.observe("a"), Some("a".to_string()));
    assert_eq!(detector.observe("b"), Some("b".to_string()));
    assert_eq!(detector.observe("a"), Some("a".to_string()));
}

#[test]
fn detector_publishes_iff_text_differs_from_last_published() {
    let reads = ["x", "x", "", "y", "", "y", "x", "x", "z", ""];
    let mut detector = ChangeDetector::new();
    let mut last_published = String::new();
    for read in reads {
        let expected = !read.is_empty() && read != last_published;
        let reported = detector.observe(read);
        assert_eq!(reported.is_some(), expected);
        if let Some(text) = reported {
            assert_eq!(text, read);
            last_published = text;
        }
        assert_eq!(detector.snapshot(), last_published);
    }
}

#[test]
fn detector_compares_whole_texts() {
    let mut detector = ChangeDetector::new();
    assert_eq!(detector.observe("hello"), Some("hello".to_string()));
    assert_eq!(detector.observe("hello "), Some("hello ".to_string()));
    assert_eq!(detector.observe("Hello "), Some("Hello ".to_string()));
}
