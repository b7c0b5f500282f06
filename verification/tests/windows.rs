use clipboard_monitor::windows::{frontmost_name, stem_of, terminated_units};

fn wide(text: &str, size: usize) -> Vec<u16> {
    let mut units: Vec<u16> = text.encode_utf16().collect();
    units.resize(size, 0);
    units
}

#[test]
fn windows_units_before_the_terminator() {
    assert_eq!(terminated_units(&vec![72, 105, 0, 88, 0]), Some(vec![72, 105]));
    assert_eq!(terminated_units(&vec![0, 72]), Some(Vec::new()));
    assert_eq!(terminated_units(&vec![72, 105]), None);
    assert_eq!(terminated_units(&Vec::new()), None);
}

#[test]
fn windows_name_from_the_shell() {
    let buffer = wide("Notepad", 260);
    assert_eq!(frontmost_name(Some(&buffer), "C:\\Windows\\System32\\notepad.exe"), "Notepad");
    let buffer = wide("Éditeur ✓ 😀", 260);
    assert_eq!(frontmost_name(Some(&buffer), "C:\\x.exe"), "Éditeur ✓ 😀");
}

#[test]
fn windows_name_replaces_invalid_units() {
    let buffer = vec![0x0041, 0xd800, 0x0042, 0];
    assert_eq!(frontmost_name(Some(&buffer), "C:\\x.exe"), "A\u{fffd}B");
}

#[test]
fn windows_name_falls_back_to_the_stem() {
    assert_eq!(frontmost_name(None, "C:\\Program Files\\Mozilla Firefox\\firefox.exe"), "firefox");
    let empty = wide("", 260);
    assert_eq!(frontmost_name(Some(&empty), "C:\\Tools\\my.tool.exe"), "my.tool");
    let unterminated = wide("Notepad", 7);
    assert_eq!(frontmost_name(Some(&unterminated), "C:/Windows/notepad.exe"), "notepad");
}

#[test]
fn windows_name_falls_back_to_app() {
    assert_eq!(frontmost_name(None, ""), "App");
    assert_eq!(frontmost_name(None, "C:\\"), "App");
    assert_eq!(frontmost_name(None, "C:\\dir\\.."), "App");
    assert_eq!(frontmost_name(None, "C:\\dir\\."), "App");
}

#[test]
fn windows_stem_of_a_path() {
    assert_eq!(stem_of("C:\\a\\b.exe"), Some("b".to_string()));
    assert_eq!(stem_of("b.exe"), Some("b".to_string()));
    assert_eq!(stem_of("C:\\a\\b"), Some("b".to_string()));
    assert_eq!(stem_of("C:\\a\\.hidden"), Some(".hidden".to_string()));
    assert_eq!(stem_of("C:\\a\\.hidden.txt"), Some(".hidden".to_string()));
    assert_eq!(stem_of("C:\\a\\archive.tar.gz"), Some("archive.tar".to_string()));
    assert_eq!(stem_of("C:\\a\\trailing."), Some("trailing".to_string()));
    assert_eq!(stem_of("C:\\a.b\\c"), Some("c".to_string()));
    assert_eq!(stem_of("C:\\a\\"), None);
    assert_eq!(stem_of(".."), None);
    assert_eq!(stem_of("."), None);
    assert_eq!(stem_of("..."), Some("..".to_string()));
}
