use clipboard_monitor::data_url::{can_encode, icon_data_url, png_data_url};

#[test]
fn data_url_of_known_bytes() {
    assert_eq!(
        icon_data_url("png", &b"hello".to_vec()),
        Some("data:image/png;base64,aGVsbG8=".to_string())
    );
    assert_eq!(
        icon_data_url("svg", &b"<svg/>".to_vec()),
        Some("data:image/svg;base64,PHN2Zy8+".to_string())
    );
    assert_eq!(
        icon_data_url("xpm", &vec![0xff, 0xfe, 0xfd]),
        Some("data:image/xpm;base64,//79".to_string())
    );
}

#[test]
fn data_url_of_no_bytes() {
    assert_eq!(png_data_url(&Vec::new()), Some("data:image/png;base64,".to_string()));
}

#[test]
fn data_url_pads_the_text() {
    assert_eq!(png_data_url(&vec![0]), Some("data:image/png;base64,AA==".to_string()));
    assert_eq!(png_data_url(&vec![0, 0]), Some("data:image/png;base64,AAA=".to_string()));
    assert_eq!(png_data_url(&vec![0, 0, 0]), Some("data:image/png;base64,AAAA".to_string()));
}

#[test]
fn data_url_length_limit() {
    assert!(can_encode(0));
    assert!(can_encode(16 * 1024 * 1024));
    assert!(can_encode(usize::MAX / 4 * 3));
    assert!(!can_encode(usize::MAX / 4 * 3 + 1));
    assert!(!can_encode(usize::MAX));
}
