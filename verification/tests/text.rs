use clipboard_monitor::text::{
    chars_of, contains, contains_char, eq_ignore_case, join2, join3, join4, join5, remove_char,
    replace_char, starts_with, string_of, strip_bounds, trim, Strip,
};

#[test]
fn text_chars_round_trip() {
    let chars = chars_of("héllo ✓");
    assert_eq!(chars, vec!['h', 'é', 'l', 'l', 'o', ' ', '✓']);
    assert_eq!(string_of(&chars, 0, chars.len()), "héllo ✓");
    assert_eq!(string_of(&chars, 1, 3), "él");
    assert_eq!(string_of(&chars, 4, 4), "");
}

#[test]
fn text_trim_removes_white_space_at_both_ends() {
    assert_eq!(trim("  Notes \n"), "Notes");
    assert_eq!(trim("Visual Studio Code"), "Visual Studio Code");
    assert_eq!(trim("\t\r\n a b \u{a0}\u{2003}"), "a b");
    assert_eq!(trim(" \n\t "), "");
    assert_eq!(trim(""), "");
}

#[test]
fn text_trim_agrees_with_std_on_every_single_character() {
    for code in 0..=0x10ffffu32 {
        if let Some(c) = char::from_u32(code) {
            let text = format!("{}x{}", c, c);
            assert_eq!(trim(&text), text.trim());
        }
    }
}

#[test]
fn text_strip_bounds_of_quotes() {
    let chars = chars_of("\"\"gnome-terminal\"");
    assert_eq!(strip_bounds(&chars, 0, chars.len(), Strip::Quote), (2, 16));
    assert_eq!(strip_bounds(&chars, 0, 2, Strip::Quote), (2, 2));
    assert_eq!(strip_bounds(&chars, 3, 6, Strip::WhiteSpace), (3, 6));
}

#[test]
fn text_replace_and_remove() {
    assert_eq!(replace_char("a/b c/d", '/', '_'), "a_b c_d");
    assert_eq!(replace_char("abc", 'x', 'y'), "abc");
    assert_eq!(remove_char("Visual Studio Code", ' '), "VisualStudioCode");
    assert_eq!(remove_char("   ", ' '), "");
}

#[test]
fn text_contains_char() {
    assert!(contains_char("Google Chrome", ' '));
    assert!(!contains_char("Safari", ' '));
    assert!(!contains_char("", ' '));
}

#[test]
fn text_contains_agrees_with_std() {
    let hays = ["", "a", "Name=Firefox\nIcon=firefox", "aab", "abab", "xyz"];
    let needles = ["", "a", "ab", "b", "Name=Firefox", "Icon=", "abc", "bab", "z", "xyzz"];
    for hay in hays {
        for needle in needles {
            assert_eq!(contains(hay, needle), hay.contains(needle));
            assert_eq!(starts_with(hay, needle), hay.starts_with(needle));
        }
    }
}

#[test]
fn text_eq_ignore_case() {
    assert!(eq_ignore_case("Briefcase", "bRIEFCASE"));
    assert!(eq_ignore_case("ÉCOLE", "école"));
    assert!(!eq_ignore_case("Notes", "Note"));
    assert!(eq_ignore_case("", ""));
}

#[test]
fn text_joins() {
    assert_eq!(join2("a", "b"), "ab");
    assert_eq!(join3("a", "", "c"), "ac");
    assert_eq!(join4("a", "b", "c", "d"), "abcd");
    assert_eq!(join5("a", "b", "c", "d", "e"), "abcde");
}
