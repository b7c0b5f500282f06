use clipboard_monitor::command::{line_from_output, name_from_output, Invocation};

#[test]
fn command_name_is_the_trimmed_output() {
    assert_eq!(name_from_output(true, "Notes\n"), Some("Notes".to_string()));
    assert_eq!(name_from_output(true, "  Google Chrome \r\n"), Some("Google Chrome".to_string()));
    assert_eq!(name_from_output(true, "Document - Firefox"), Some("Document - Firefox".to_string()));
}

#[test]
fn command_name_needs_success_and_text() {
    assert_eq!(name_from_output(false, "Notes\n"), None);
    assert_eq!(name_from_output(true, ""), None);
    assert_eq!(name_from_output(true, " \n\t"), None);
    assert_eq!(name_from_output(false, ""), None);
}

#[test]
fn command_first_line_is_trimmed() {
    assert_eq!(
        line_from_output(true, "/Applications/Notes.app\n/System/Applications/Notes.app\n"),
        Some("/Applications/Notes.app".to_string())
    );
    assert_eq!(line_from_output(true, "  /a b.app \r\nx"), Some("/a b.app".to_string()));
    assert_eq!(line_from_output(true, "one"), Some("one".to_string()));
    assert_eq!(line_from_output(true, "one\r"), Some("one".to_string()));
}

#[test]
fn command_first_line_may_be_empty() {
    assert_eq!(line_from_output(true, "\nsecond"), Some(String::new()));
    assert_eq!(line_from_output(true, "  \n"), Some(String::new()));
    assert_eq!(line_from_output(true, ""), None);
    assert_eq!(line_from_output(false, "/Applications/Notes.app\n"), None);
}

#[test]
fn command_first_line_agrees_with_std() {
    let outputs = ["", "a", "a\n", "a\r\n", "\r\n", "\n", "a\rb\nc", " a \r\n b", "\r", "a\r", "\n\n"];
    for output in outputs {
        let expected = output.lines().next().map(|line| line.trim().to_string());
        assert_eq!(line_from_output(true, output), expected);
    }
}

#[test]
fn command_invocation_holds_program_and_arguments() {
    let call = Invocation { program: "mdfind".to_string(), args: vec!["query".to_string()] };
    assert_eq!(call.program, "mdfind");
    assert_eq!(call.args, vec!["query".to_string()]);
}
