use clipboard_monitor::command::Invocation;
use clipboard_monitor::linux::{
    class_from_property, default_icon_name, desktop_dirs, desktop_entry_icon, entry_mentions,
    file_icon, icon_file_candidates, icon_of_entry, is_desktop_entry, name_queries,
    path_extension, read_name, NameQuery, Reading,
};
use std::path::Path;

#[test]
fn linux_name_queries_in_order() {
    assert_eq!(
        name_queries(),
        vec![
            NameQuery {
                call: Invocation {
                    program: "xdotool".to_string(),
                    args: vec!["getwindowfocus".to_string(), "getwindowname".to_string()],
                },
                reading: Reading::Title,
            },
            NameQuery {
                call: Invocation {
                    program: "xprop".to_string(),
                    args: vec![
                        "-id".to_string(),
                        "$(xdotool getwindowfocus)".to_string(),
                        "WM_CLASS".to_string(),
                    ],
                },
                reading: Reading::WindowClass,
            },
        ]
    );
}

#[test]
fn linux_class_of_a_property() {
    assert_eq!(
        class_from_property("WM_CLASS(STRING) = \"gnome-terminal-server\", \"Gnome-terminal\"\n"),
        Some("Gnome-terminal".to_string())
    );
    assert_eq!(
        class_from_property("WM_CLASS(STRING) = \"a\", \"b\", \"c\""),
        Some("b".to_string())
    );
    assert_eq!(class_from_property("x = a, \"\"quoted\" \" = y, z"), Some("quoted\" ".to_string()));
    assert_eq!(class_from_property("k=v,  Firefox  =more,other"), Some("Firefox".to_string()));
}

#[test]
fn linux_class_needs_every_part() {
    assert_eq!(class_from_property(""), None);
    assert_eq!(class_from_property("WM_CLASS:  not found."), None);
    assert_eq!(class_from_property("WM_CLASS(STRING) = \"only\""), None);
    assert_eq!(class_from_property("WM_CLASS(STRING) = \"a\", \"\""), None);
    assert_eq!(class_from_property("WM_CLASS(STRING) = \"a\",   \n"), None);
    assert_eq!(class_from_property("a, b = c"), None);
    assert_eq!(class_from_property("= a = b, c"), None);
}

#[test]
fn linux_class_agrees_with_splitting() {
    let properties = [
        "WM_CLASS(STRING) = \"Navigator\", \"firefox\"\n",
        "a=b,c",
        "a=b,c,d=e",
        "=,",
        "=,\"",
        "a=,\" x \",",
        "a",
        "a=b",
        "a,b=c=d,e",
        "a=\u{a0}\"q\"\u{a0},\u{2003}\"\"r\"\"\t",
    ];
    for property in properties {
        let expected = property.split('=').nth(1).and_then(|values| {
            let parts: Vec<&str> = values.split(',').collect();
            if parts.len() > 1 {
                let class = parts[1].trim().trim_matches('"');
                if class.is_empty() {
                    None
                } else {
                    Some(class.to_string())
                }
            } else {
                None
            }
        });
        assert_eq!(class_from_property(property), expected);
    }
}

#[test]
fn linux_read_name_by_kind() {
    assert_eq!(read_name(Reading::Title, true, " Inbox - Mail \n"), Some("Inbox - Mail".to_string()));
    assert_eq!(read_name(Reading::Title, false, "Inbox\n"), None);
    assert_eq!(read_name(Reading::Title, true, "\n"), None);
    assert_eq!(
        read_name(Reading::WindowClass, true, "WM_CLASS(STRING) = \"mail\", \"Mail\"\n"),
        Some("Mail".to_string())
    );
    assert_eq!(read_name(Reading::WindowClass, false, "WM_CLASS(STRING) = \"mail\", \"Mail\"\n"), None);
    assert_eq!(read_name(Reading::WindowClass, true, "Mail"), None);
}

#[test]
fn linux_desktop_dirs() {
    assert_eq!(
        desktop_dirs(Some("/home/ada")),
        vec![
            "/usr/share/applications/",
            "/usr/local/share/applications/",
            "/home/ada/.local/share/applications/",
        ]
    );
    assert_eq!(desktop_dirs(None), vec!["/usr/share/applications/", "/usr/local/share/applications/"]);
}

#[test]
fn linux_path_extension_agrees_with_std() {
    let paths = [
        "/usr/share/icons/hicolor/48x48/apps/firefox.png",
        "/usr/share/pixmaps/firefox",
        "/usr/share/applications/org.gnome.Terminal.desktop",
        "firefox.desktop",
        ".desktop",
        "/a/.hidden",
        "/a/.hidden.svg",
        "/a.b/c",
        "/a/b.",
        "/a/..",
        "..",
        "...",
        "",
        "name.xpm",
        "/a/b.tar.gz",
    ];
    for path in paths {
        let expected = Path::new(path).extension().map(|e| e.to_str().unwrap().to_string());
        assert_eq!(path_extension(path), expected, "{}", path);
    }
}

#[test]
fn linux_desktop_entries_by_extension() {
    assert!(is_desktop_entry("firefox.desktop"));
    assert!(is_desktop_entry("/usr/share/applications/org.gnome.Terminal.desktop"));
    assert!(!is_desktop_entry(".desktop"));
    assert!(!is_desktop_entry("firefox.desktop.bak"));
    assert!(!is_desktop_entry("firefox.Desktop"));
    assert!(!is_desktop_entry("desktop"));
    assert!(!is_desktop_entry("mimeinfo.cache"));
}

#[test]
fn linux_file_icon_takes_the_type_from_the_extension() {
    assert_eq!(
        file_icon("/usr/share/icons/hicolor/scalable/apps/gimp.svg", &b"<svg/>".to_vec()),
        Some("data:image/svg;base64,PHN2Zy8+".to_string())
    );
    assert_eq!(
        file_icon("/usr/share/pixmaps/gimp.xpm", &b"hello".to_vec()),
        Some("data:image/xpm;base64,aGVsbG8=".to_string())
    );
    assert_eq!(
        file_icon("/usr/share/pixmaps/gimp", &b"hello".to_vec()),
        Some("data:image/png;base64,aGVsbG8=".to_string())
    );
}

const ENTRY: &str = "[Desktop Entry]\nType=Application\nName=Firefox\nExec=firefox %u\nIcon= firefox-esr \nTerminal=false\nIcon=other\n";

#[test]
fn linux_entry_mentions_the_application() {
    assert!(entry_mentions(ENTRY, "Firefox"));
    assert!(entry_mentions(ENTRY, "FIREFOX"));
    assert!(entry_mentions(ENTRY, "fire"));
    assert!(entry_mentions(ENTRY, ""));
    assert!(!entry_mentions(ENTRY, "Chromium"));
    assert!(!entry_mentions("", "Firefox"));
}

#[test]
fn linux_icon_of_an_entry() {
    assert_eq!(icon_of_entry(ENTRY), Some("firefox-esr".to_string()));
    assert_eq!(icon_of_entry("Icon=/opt/app/icon.png"), Some("/opt/app/icon.png".to_string()));
    assert_eq!(icon_of_entry("Name=X\r\nIcon=x-icon\r\n"), Some("x-icon".to_string()));
    assert_eq!(icon_of_entry("Icon=\nIcon=later"), Some(String::new()));
    assert_eq!(icon_of_entry("Name=X\n Icon=indented\nX-Icon=no\n"), None);
    assert_eq!(icon_of_entry(""), None);
    assert_eq!(icon_of_entry("Icon"), None);
}

#[test]
fn linux_icon_of_an_entry_agrees_with_line_scanning() {
    let contents = [
        ENTRY,
        "Icon=a",
        "Icon=a\r",
        "x\rIcon=a\n",
        "\n\nIcon= b\t\n",
        "icon=a\nICON=b\nIcon=c",
        "Name=Icon=x\nIcon=\u{a0}y\u{a0}",
        "Icon=\r\n",
    ];
    for content in contents {
        let expected = content
            .lines()
            .find(|line| line.starts_with("Icon="))
            .map(|line| line[5..].trim().to_string());
        assert_eq!(icon_of_entry(content), expected);
    }
}

#[test]
fn linux_desktop_entry_icon() {
    assert_eq!(desktop_entry_icon(ENTRY, "firefox"), Some("firefox-esr".to_string()));
    assert_eq!(desktop_entry_icon(ENTRY, "Chromium"), None);
    assert_eq!(desktop_entry_icon("Name=Firefox\nExec=firefox\n", "Firefox"), None);
}

#[test]
fn linux_default_icon_name_is_lowercase() {
    assert_eq!(default_icon_name("Firefox"), "firefox");
    assert_eq!(default_icon_name("GNU Image Manipulation Program"), "gnu image manipulation program");
    assert_eq!(default_icon_name("ÉDITEUR"), "éditeur");
}

fn theme(base: &str, name: &str) -> Vec<String> {
    let mut files = Vec::new();
    for size in ["256x256", "128x128", "64x64", "48x48", "32x32"] {
        for ext in ["png", "svg"] {
            files.push(format!("{}{}/apps/{}.{}", base, size, name, ext));
        }
    }
    files.push(format!("{}scalable/apps/{}.svg", base, name));
    files
}

fn pixmaps(name: &str) -> Vec<String> {
    vec![
        format!("/usr/share/pixmaps/{}.png", name),
        format!("/usr/share/pixmaps/{}.xpm", name),
        format!("/usr/share/pixmaps/{}", name),
    ]
}

#[test]
fn linux_icon_file_candidates_with_a_home() {
    let mut expected = Vec::new();
    expected.extend(theme("/usr/share/icons/hicolor/", "firefox"));
    expected.extend(theme("/usr/local/share/icons/hicolor/", "firefox"));
    expected.extend(theme("/home/ada/.local/share/icons/hicolor/", "firefox"));
    expected.extend(theme("/usr/share/icons/Adwaita/", "firefox"));
    expected.extend(theme("/usr/share/icons/breeze/", "firefox"));
    expected.extend(pixmaps("firefox"));
    let files = icon_file_candidates("firefox", Some("/home/ada"));
    assert_eq!(files.len(), 58);
    assert_eq!(files[0], "/usr/share/icons/hicolor/256x256/apps/firefox.png");
    assert_eq!(files[10], "/usr/share/icons/hicolor/scalable/apps/firefox.svg");
    assert_eq!(files, expected);
}

#[test]
fn linux_icon_file_candidates_without_a_home() {
    let mut expected = Vec::new();
    expected.extend(theme("/usr/share/icons/hicolor/", "gimp"));
    expected.extend(theme("/usr/local/share/icons/hicolor/", "gimp"));
    expected.extend(theme("/usr/share/icons/Adwaita/", "gimp"));
    expected.extend(theme("/usr/share/icons/breeze/", "gimp"));
    expected.extend(pixmaps("gimp"));
    assert_eq!(icon_file_candidates("gimp", None), expected);
}

#[test]
fn linux_icon_file_candidates_for_an_absolute_path() {
    let files = icon_file_candidates("/opt/app/icon.png", Some("/root"));
    assert_eq!(files.len(), 59);
    assert_eq!(files[0], "/opt/app/icon.png");
    assert_eq!(files[1], "/usr/share/icons/hicolor/256x256/apps//opt/app/icon.png.png");
    assert_eq!(files[58], "/usr/share/pixmaps//opt/app/icon.png");
}
