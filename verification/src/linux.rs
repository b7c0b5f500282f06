//! Source resolution on Linux: what to ask the system, in which order, and how
//! to read its answers.
//!
//! The name of the application in front is the title of the focused window as
//! `xdotool` prints it, else the class of the window as `xprop` prints it. Its
//! icon is found in two steps: a desktop entry that mentions the application
//! names the icon, and the icon themes are searched for a file of that name.

use crate::command::{name_from_output, printed_name, views, Invocation, InvocationView};
use crate::data_url::{icon_data_url, icon_url};
use crate::source::opt_text;
use crate::text::{
    chars_of, find_char, first_index, has_prefix, lemma_first_index, has_substring, join2, join3, join5,
    line_end, lowercase, matches_at, starts_with, strip_bounds, string_of, to_lowercase, trimmed,
    unquoted, without_cr, Strip,
};
use vstd::prelude::*;
use vstd::string::*;

verus! {

/// How the output of a name query is read.
#[derive(Clone, Copy, Debug, PartialEq, Eq, Structural)]
pub enum Reading {
    /// The output is the title of the window.
    Title,
    /// The output is the `WM_CLASS` property of the window.
    WindowClass,
}

/// A command that asks for the name of the application in front, and how its
/// output is read.
#[derive(Debug, PartialEq, Eq)]
pub struct NameQuery {
    pub call: Invocation,
    pub reading: Reading,
}

/// What a `NameQuery` stands for.
pub struct NameQueryView {
    pub call: InvocationView,
    pub reading: Reading,
}

impl View for NameQuery {
    type V = NameQueryView;

    open spec fn view(&self) -> NameQueryView {
        NameQueryView { call: self.call@, reading: self.reading }
    }
}

/// The commands that ask for the name of the application in front, in the
/// order in which they are tried.
pub open spec fn name_strategies() -> Seq<NameQueryView> {
    seq![
        NameQueryView {
            call: InvocationView {
                program: "xdotool"@,
                args: seq!["getwindowfocus"@, "getwindowname"@],
            },
            reading: Reading::Title,
        },
        NameQueryView {
            call: InvocationView {
                program: "xprop"@,
                args: seq!["-id"@, "$(xdotool getwindowfocus)"@, "WM_CLASS"@],
            },
            reading: Reading::WindowClass,
        },
    ]
}

/// The commands that ask for the name of the application in front. The first
/// whose output reads as a name wins.
pub fn name_queries() -> (queries: Vec<NameQuery>)
    ensures
        views(queries@) == name_strategies(),
{
    let mut title_args: Vec<String> = Vec::new();
    title_args.push(String::from_str("getwindowfocus"));
    title_args.push(String::from_str("getwindowname"));
    assert(views(title_args@) =~= seq!["getwindowfocus"@, "getwindowname"@]);
    let mut class_args: Vec<String> = Vec::new();
    class_args.push(String::from_str("-id"));
    class_args.push(String::from_str("$(xdotool getwindowfocus)"));
    class_args.push(String::from_str("WM_CLASS"));
    assert(views(class_args@) =~= seq!["-id"@, "$(xdotool getwindowfocus)"@, "WM_CLASS"@]);
    let mut queries: Vec<NameQuery> = Vec::new();
    queries.push(
        NameQuery {
            call: Invocation { program: String::from_str("xdotool"), args: title_args },
            reading: Reading::Title,
        },
    );
    queries.push(
        NameQuery {
            call: Invocation { program: String::from_str("xprop"), args: class_args },
            reading: Reading::WindowClass,
        },
    );
    assert(views(queries@) =~= name_strategies());
    queries
}

/// The part of `s` after its first `c`, up to the next `c`; nothing where `s`
/// holds no `c`.
pub open spec fn second_field(s: Seq<char>, c: char) -> Option<Seq<char>> {
    if first_index(s, c) == s.len() {
        None
    } else {
        let rest = s.skip(first_index(s, c) + 1);
        Some(rest.take(first_index(rest, c)))
    }
}

/// The class in the text of a `WM_CLASS` property, which reads
/// `WM_CLASS(STRING) = "instance", "class"`: of what stands after the first
/// equals sign, the second of the fields that commas part, without the white
/// space and then the double quotes around it. Nothing where a part is missing
/// or the class is empty.
pub open spec fn window_class(property: Seq<char>) -> Option<Seq<char>> {
    match second_field(property, '=') {
        None => None,
        Some(values) => match second_field(values, ',') {
            None => None,
            Some(field) => if unquoted(trimmed(field)).len() > 0 {
                Some(unquoted(trimmed(field)))
            } else {
                None
            },
        },
    }
}

/// The bounds in `chars` of the second of the fields of `chars[from..to]` that
/// `c` parts.
fn second_field_bounds(chars: &Vec<char>, from: usize, to: usize, c: char) -> (bounds: Option<
    (usize, usize),
>)
    requires
        from <= to <= chars.len(),
    ensures
        match bounds {
            Some((a, b)) => from <= a <= b <= to && second_field(
                chars@.subrange(from as int, to as int),
                c,
            ) == Some(chars@.subrange(a as int, b as int)),
            None => second_field(chars@.subrange(from as int, to as int), c) is None,
        },
{
    let first = find_char(chars, from, to, c);
    if first == to {
        return None;
    }
    let next = find_char(chars, first + 1, to, c);
    proof {
        let s = chars@.subrange(from as int, to as int);
        let rest = s.skip(first_index(s, c) + 1);
        assert(rest == chars@.subrange(first + 1, to as int));
        assert(rest.take(first_index(rest, c)) == chars@.subrange(first + 1, next as int));
    }
    Some((first + 1, next))
}

/// Reads the class out of the text of a `WM_CLASS` property.
pub fn class_from_property(property: &str) -> (class: Option<String>)
    ensures
        opt_text(class) == window_class(property@),
{
    let chars = chars_of(property);
    assert(chars@.subrange(0, chars.len() as int) == chars@);
    let (values_from, values_to) = match second_field_bounds(&chars, 0, chars.len(), '=') {
        Some(bounds) => bounds,
        None => {
            return None;
        },
    };
    let (field_from, field_to) = match second_field_bounds(&chars, values_from, values_to, ',') {
        Some(bounds) => bounds,
        None => {
            return None;
        },
    };
    let (a, b) = strip_bounds(&chars, field_from, field_to, Strip::WhiteSpace);
    let (a, b) = strip_bounds(&chars, a, b, Strip::Quote);
    if a < b {
        Some(string_of(&chars, a, b))
    } else {
        None
    }
}

/// The name that the output of a name query reads as, where the command
/// succeeded.
pub open spec fn name_read(reading: Reading, success: bool, stdout: Seq<char>) -> Option<
    Seq<char>,
> {
    match reading {
        Reading::Title => printed_name(success, stdout),
        Reading::WindowClass => if success {
            window_class(stdout)
        } else {
            None
        },
    }
}

/// Reads the output of a name query.
pub fn read_name(reading: Reading, success: bool, stdout: &str) -> (name: Option<String>)
    ensures
        opt_text(name) == name_read(reading, success, stdout@),
{
    match reading {
        Reading::Title => name_from_output(success, stdout),
        Reading::WindowClass => if success {
            class_from_property(stdout)
        } else {
            None
        },
    }
}

/// The directories that hold desktop entries, in the order in which they are
/// searched. The user's own directory is searched only where the home
/// directory `home` is known.
pub open spec fn entry_dirs(home: Option<Seq<char>>) -> Seq<Seq<char>> {
    seq!["/usr/share/applications/"@, "/usr/local/share/applications/"@] + match home {
        Some(h) => seq![h + "/.local/share/applications/"@],
        None => Seq::empty(),
    }
}

/// The directories that hold desktop entries.
pub fn desktop_dirs(home: Option<&str>) -> (dirs: Vec<String>)
    ensures
        views(dirs@) == entry_dirs(
            match home {
                Some(h) => Some(h@),
                None => None,
            },
        ),
{
    let mut dirs: Vec<String> = Vec::new();
    dirs.push(String::from_str("/usr/share/applications/"));
    dirs.push(String::from_str("/usr/local/share/applications/"));
    match home {
        Some(h) => {
            dirs.push(join2(h, "/.local/share/applications/"));
            assert(views(dirs@) =~= entry_dirs(Some(h@)));
        },
        None => {
            assert(views(dirs@) =~= entry_dirs(None));
        },
    }
    dirs
}

/// The position of the last `c` in `s`, or -1 where `c` does not occur.
pub open spec fn last_index(s: Seq<char>, c: char) -> int
    decreases s.len(),
{
    if s.len() == 0 {
        -1
    } else if s.last() == c {
        s.len() - 1
    } else {
        last_index(s.drop_last(), c)
    }
}

/// `last_index` is the greatest position that holds `c`, and -1 where none does.
pub proof fn lemma_last_index(s: Seq<char>, c: char)
    ensures
        -1 <= last_index(s, c) < s.len(),
        forall|j: int| last_index(s, c) < j < s.len() ==> s[j] != c,
        last_index(s, c) >= 0 ==> s[last_index(s, c)] == c,
    decreases s.len(),
{
    if s.len() > 0 && s.last() != c {
        let front = s.drop_last();
        lemma_last_index(front, c);
        assert forall|j: int| last_index(s, c) < j < s.len() implies s[j] != c by {
            if j < front.len() {
                assert(s[j] == front[j]);
            }
        }
    }
}

/// The name of the file that `path` leads to: what stands after its last slash.
pub open spec fn file_name(path: Seq<char>) -> Seq<char> {
    path.skip(last_index(path, '/') + 1)
}

/// The extension of the file that `path` leads to: what stands after the last
/// dot of its name. A name without a dot, or whose only dot comes first, has
/// none, and neither has the name `..`.
pub open spec fn extension(path: Seq<char>) -> Option<Seq<char>> {
    let name = file_name(path);
    if last_index(name, '.') <= 0 || name == ".."@ {
        None
    } else {
        Some(name.skip(last_index(name, '.') + 1))
    }
}

/// The position after the last `c` in `chars[from..to]`, or `from` where `c`
/// does not occur there.
fn after_last(chars: &Vec<char>, from: usize, to: usize, c: char) -> (at: usize)
    requires
        from <= to <= chars.len(),
    ensures
        from <= at <= to,
        at - from == last_index(chars@.subrange(from as int, to as int), c) + 1,
{
    let mut at: usize = to;
    while at > from && chars[at - 1] != c
        invariant
            from <= at <= to <= chars.len(),
            last_index(chars@.subrange(from as int, to as int), c) == last_index(
                chars@.subrange(from as int, at as int),
                c,
            ),
        decreases at,
    {
        proof {
            let cur = chars@.subrange(from as int, at as int);
            assert(cur.drop_last() == chars@.subrange(from as int, at - 1));
        }
        at -= 1;
    }
    at
}

/// The extension of the file that `path` leads to.
pub fn path_extension(path: &str) -> (ext: Option<String>)
    ensures
        opt_text(ext) == extension(path@),
{
    let chars = chars_of(path);
    let n = chars.len();
    assert(chars@.subrange(0, n as int) == chars@);
    let name_from = after_last(&chars, 0, n, '/');
    assert(chars@.subrange(name_from as int, n as int) == file_name(path@));
    let ext_from = after_last(&chars, name_from, n, '.');
    if ext_from - name_from <= 1 {
        return None;
    }
    if n - name_from == 2 && chars[name_from] == '.' && chars[name_from + 1] == '.' {
        proof {
            reveal_strlit("..");
            assert(file_name(path@) =~= ".."@);
        }
        return None;
    }
    proof {
        reveal_strlit("..");
        let name = file_name(path@);
        if name == ".."@ {
            assert(name.len() == 2 && name[0] == '.' && name[1] == '.');
            assert(false);
        }
        assert(name.skip(last_index(name, '.') + 1) == chars@.subrange(ext_from as int, n as int));
    }
    Some(string_of(&chars, ext_from, n))
}

/// The image type in the data URL of the icon file at `path`: its extension,
/// or `png` where it has none.
pub open spec fn image_type(path: Seq<char>) -> Seq<char> {
    match extension(path) {
        Some(ext) => ext,
        None => "png"@,
    }
}

/// The data URL of the icon file at `path`, whose content is `bytes`. `None`
/// only for a content too long to encode.
pub fn file_icon(path: &str, bytes: &Vec<u8>) -> (icon: Option<String>)
    ensures
        opt_text(icon) == icon_url(image_type(path@), bytes@),
{
    match path_extension(path) {
        Some(ext) => icon_data_url(ext.as_str(), bytes),
        None => icon_data_url("png", bytes),
    }
}

/// Whether the directory entry named `name` is a desktop entry: its extension
/// is `desktop`.
pub fn is_desktop_entry(name: &str) -> (desktop: bool)
    ensures
        desktop == (extension(name@) == Some("desktop"@)),
{
    match path_extension(name) {
        Some(ext) => ext == String::from_str("desktop"),
        None => false,
    }
}

/// Whether the desktop entry `content` mentions the application `app_name`:
/// it holds `Name=` followed by the name, or it holds the name somewhere once
/// both are put in lowercase.
pub open spec fn mentions(content: Seq<char>, app_name: Seq<char>) -> bool {
    has_substring(content, "Name="@ + app_name) || has_substring(
        lowercase(content),
        lowercase(app_name),
    )
}

/// The icon that the first line of `content` that begins with `Icon=` names:
/// the rest of that line without the white space around it. Lines end at a
/// line feed, with or without a carriage return before it.
pub open spec fn icon_line(content: Seq<char>) -> Option<Seq<char>>
    decreases content.len(),
{
    if content.len() == 0 {
        None
    } else {
        let feed = first_index(content, '\n');
        let line = if feed == content.len() {
            content
        } else {
            without_cr(content.take(feed))
        };
        if has_prefix(line, "Icon="@) {
            Some(trimmed(line.skip(5)))
        } else if feed == content.len() {
            None
        } else {
            proof {
                lemma_first_index(content, '\n');
            }
            icon_line(content.skip(feed + 1))
        }
    }
}

/// The icon that the desktop entry `content` names for the application
/// `app_name`: nothing where the entry does not mention the application or has
/// no line that names an icon.
pub open spec fn entry_icon(content: Seq<char>, app_name: Seq<char>) -> Option<Seq<char>> {
    if mentions(content, app_name) {
        icon_line(content)
    } else {
        None
    }
}

/// Whether the desktop entry mentions the application.
pub fn entry_mentions(content: &str, app_name: &str) -> (found: bool)
    ensures
        found == mentions(content@, app_name@),
{
    let label = join2("Name=", app_name);
    if crate::text::contains(content, label.as_str()) {
        return true;
    }
    let lower_content = to_lowercase(content);
    let lower_name = to_lowercase(app_name);
    crate::text::contains(lower_content.as_str(), lower_name.as_str())
}

/// The icon named by the first line of `content` that begins with `Icon=`.
pub fn icon_of_entry(content: &str) -> (icon: Option<String>)
    ensures
        opt_text(icon) == icon_line(content@),
{
    let chars = chars_of(content);
    let key = chars_of("Icon=");
    proof {
        reveal_strlit("Icon=");
    }
    let n = chars.len();
    let mut from: usize = 0;
    assert(chars@.subrange(0, n as int) == chars@);
    while from < n
        invariant
            from <= n,
            n == chars.len(),
            chars@ == content@,
            key@ == "Icon="@,
            key@.len() == 5,
            icon_line(content@) == icon_line(chars@.subrange(from as int, n as int)),
        decreases n - from,
    {
        let ghost rest = chars@.subrange(from as int, n as int);
        let feed = find_char(&chars, from, n, '\n');
        let end = if feed == n {
            feed
        } else {
            assert(rest.take(first_index(rest, '\n')) == chars@.subrange(from as int, feed as int));
            line_end(&chars, from, feed)
        };
        let ghost line = chars@.subrange(from as int, end as int);
        assert(line == if first_index(rest, '\n') == rest.len() {
            rest
        } else {
            without_cr(rest.take(first_index(rest, '\n')))
        });
        let found = matches_at(&chars, from, end, &key, from);
        assert(found == has_prefix(line, "Icon="@)) by {
            if line.len() >= 5 {
                assert(line.subrange(0, 5) == line.take(5));
            }
        }
        if found {
            let (a, b) = strip_bounds(&chars, from + 5, end, Strip::WhiteSpace);
            assert(line.skip(5) == chars@.subrange(from + 5, end as int));
            return Some(string_of(&chars, a, b));
        }
        if feed == n {
            return None;
        }
        assert(rest.skip(first_index(rest, '\n') + 1) == chars@.subrange(feed + 1, n as int));
        from = feed + 1;
    }
    None
}

/// Reads a desktop entry: the icon it names for the application, if it
/// mentions the application and names an icon.
pub fn desktop_entry_icon(content: &str, app_name: &str) -> (icon: Option<String>)
    ensures
        opt_text(icon) == entry_icon(content@, app_name@),
{
    if entry_mentions(content, app_name) {
        icon_of_entry(content)
    } else {
        None
    }
}

/// The icon name to search for where no desktop entry names one: the name of
/// the application in lowercase.
pub fn default_icon_name(app_name: &str) -> (icon_name: String)
    ensures
        icon_name@ == lowercase(app_name@),
{
    to_lowercase(app_name)
}

/// The icon files named `icon_name` of one size in the theme at `base`.
pub open spec fn sized_files(base: Seq<char>, size: Seq<char>, icon_name: Seq<char>) -> Seq<
    Seq<char>,
> {
    seq![
        base + size + "/apps/"@ + icon_name + ".png"@,
        base + size + "/apps/"@ + icon_name + ".svg"@,
    ]
}

/// The icon files named `icon_name` in the theme at `base`, in the order in
/// which they are tried: from the largest size to the smallest, PNG before
/// SVG, then the scalable icon.
pub open spec fn theme_files(base: Seq<char>, icon_name: Seq<char>) -> Seq<Seq<char>> {
    sized_files(base, "256x256"@, icon_name) + sized_files(base, "128x128"@, icon_name)
        + sized_files(base, "64x64"@, icon_name) + sized_files(base, "48x48"@, icon_name)
        + sized_files(base, "32x32"@, icon_name) + seq![
        base + "scalable/apps/"@ + icon_name + ".svg"@,
    ]
}

/// The icon files named `icon_name` outside the themes.
pub open spec fn pixmap_files(icon_name: Seq<char>) -> Seq<Seq<char>> {
    seq![
        "/usr/share/pixmaps/"@ + icon_name + ".png"@,
        "/usr/share/pixmaps/"@ + icon_name + ".xpm"@,
        "/usr/share/pixmaps/"@ + icon_name,
    ]
}

/// The files that may hold the icon named `icon_name`, in the order in which
/// they are tried: the name itself where it is an absolute path; the themes
/// hicolor (system, local, and the user's where the home directory `home` is
/// known), Adwaita and breeze; the pixmaps.
pub open spec fn icon_file_list(icon_name: Seq<char>, home: Option<Seq<char>>) -> Seq<Seq<char>> {
    (if has_prefix(icon_name, "/"@) {
        seq![icon_name]
    } else {
        Seq::empty()
    }) + theme_files("/usr/share/icons/hicolor/"@, icon_name) + theme_files(
        "/usr/local/share/icons/hicolor/"@,
        icon_name,
    ) + (match home {
        Some(h) => theme_files(h + "/.local/share/icons/hicolor/"@, icon_name),
        None => Seq::empty(),
    }) + theme_files("/usr/share/icons/Adwaita/"@, icon_name) + theme_files(
        "/usr/share/icons/breeze/"@,
        icon_name,
    ) + pixmap_files(icon_name)
}

/// Adds the icon files of one size in one theme.
fn push_sized(files: &mut Vec<String>, base: &str, size: &str, icon_name: &str)
    ensures
        views(final(files)@) == views(old(files)@) + sized_files(base@, size@, icon_name@),
{
    files.push(join5(base, size, "/apps/", icon_name, ".png"));
    files.push(join5(base, size, "/apps/", icon_name, ".svg"));
    assert(views(files@) =~= views(old(files)@) + sized_files(base@, size@, icon_name@));
}

/// Adds the icon files of one theme.
fn push_theme(files: &mut Vec<String>, base: &str, icon_name: &str)
    ensures
        views(final(files)@) == views(old(files)@) + theme_files(base@, icon_name@),
{
    push_sized(files, base, "256x256", icon_name);
    push_sized(files, base, "128x128", icon_name);
    push_sized(files, base, "64x64", icon_name);
    push_sized(files, base, "48x48", icon_name);
    push_sized(files, base, "32x32", icon_name);
    let ghost sized = views(files@);
    files.push(crate::text::join4(base, "scalable/apps/", icon_name, ".svg"));
    assert(views(files@) =~= sized.push(base@ + "scalable/apps/"@ + icon_name@ + ".svg"@));
    assert(views(files@) =~= views(old(files)@) + theme_files(base@, icon_name@));
}

/// The files that may hold the icon named `icon_name`. The first that exists wins.
pub fn icon_file_candidates(icon_name: &str, home: Option<&str>) -> (files: Vec<String>)
    ensures
        views(files@) == icon_file_list(
            icon_name@,
            match home {
                Some(h) => Some(h@),
                None => None,
            },
        ),
{
    let mut files: Vec<String> = Vec::new();
    if starts_with(icon_name, "/") {
        files.push(String::from_str(icon_name));
    }
    let ghost own = views(files@);
    assert(own =~= if has_prefix(icon_name@, "/"@) {
        seq![icon_name@]
    } else {
        Seq::empty()
    });
    push_theme(&mut files, "/usr/share/icons/hicolor/", icon_name);
    push_theme(&mut files, "/usr/local/share/icons/hicolor/", icon_name);
    let ghost system = views(files@);
    match home {
        Some(h) => {
            let base = join2(h, "/.local/share/icons/hicolor/");
            push_theme(&mut files, base.as_str(), icon_name);
        },
        None => {
            assert(system + Seq::<Seq<char>>::empty() =~= system);
        },
    }
    push_theme(&mut files, "/usr/share/icons/Adwaita/", icon_name);
    push_theme(&mut files, "/usr/share/icons/breeze/", icon_name);
    let ghost themed = views(files@);
    files.push(join3("/usr/share/pixmaps/", icon_name, ".png"));
    files.push(join3("/usr/share/pixmaps/", icon_name, ".xpm"));
    files.push(join2("/usr/share/pixmaps/", icon_name));
    assert(views(files@) =~= themed + pixmap_files(icon_name@));
    files
}

} // verus!
