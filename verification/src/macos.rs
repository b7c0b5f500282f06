//! Source resolution on macOS: what to ask the system, in which order, and
//! how to read its answers.
//!
//! The name of the application in front is asked of System Events through
//! `osascript`, in three phrasings. Its icon is found in two steps. First the
//! application bundle is located: by Spotlight queries, then among the usual
//! installation directories, then among the known places of well-known
//! applications. Then an icon file of the bundle is converted to PNG by `sips`,
//! and where no candidate converts, Finder is asked to write the icon out.
//! In every list the first success wins.

use crate::command::{views, Invocation, InvocationView};
use crate::source::opt_text;
use crate::text::{
    contains_char, eq_ignore_case, join2, join3, join4, lowercase, remove_char, replace_char,
    replaced, trim, trimmed, without,
};
use vstd::prelude::*;
use vstd::string::*;

verus! {

/// Asks for the name of the application process that is in front.
pub const NAME_OF_FRONTMOST_PROCESS: &'static str =
    "tell application \"System Events\" to name of first application process whose frontmost is true";

/// Asks the process in front to return its name.
pub const RETURN_NAME_OF_FRONTMOST: &'static str =
    "tell application \"System Events\" to tell (first process whose frontmost is true) to return name";

/// Asks the process in front to get its name.
pub const GET_NAME_OF_FRONTMOST: &'static str =
    "tell application \"System Events\" to tell (first process whose frontmost is true) to get name";

/// The call of `osascript` that runs `script`.
pub open spec fn osascript(script: Seq<char>) -> InvocationView {
    InvocationView { program: "osascript"@, args: seq!["-e"@, script] }
}

/// The call of `osascript` that runs `script`.
pub fn run_script(script: &str) -> (call: Invocation)
    ensures
        call@ == osascript(script@),
{
    let mut args: Vec<String> = Vec::new();
    args.push(String::from_str("-e"));
    args.push(String::from_str(script));
    assert(views(args@) =~= seq!["-e"@, script@]);
    Invocation { program: String::from_str("osascript"), args }
}

/// The commands that ask for the name of the application in front, in the
/// order in which they are tried.
pub open spec fn name_strategies() -> Seq<InvocationView> {
    seq![
        osascript(NAME_OF_FRONTMOST_PROCESS@),
        osascript(RETURN_NAME_OF_FRONTMOST@),
        osascript(GET_NAME_OF_FRONTMOST@),
    ]
}

/// The commands that ask for the name of the application in front. Each prints
/// the name; the first that succeeds with a name that is not empty wins.
pub fn name_queries() -> (calls: Vec<Invocation>)
    ensures
        views(calls@) == name_strategies(),
{
    let mut calls: Vec<Invocation> = Vec::new();
    calls.push(run_script(NAME_OF_FRONTMOST_PROCESS));
    calls.push(run_script(RETURN_NAME_OF_FRONTMOST));
    calls.push(run_script(GET_NAME_OF_FRONTMOST));
    assert(views(calls@) =~= name_strategies());
    calls
}

/// The name to search an icon for: `app_name` without the white space around
/// it, or nothing where that is empty.
pub open spec fn searched_name(app_name: Seq<char>) -> Option<Seq<char>> {
    if trimmed(app_name).len() > 0 {
        Some(trimmed(app_name))
    } else {
        None
    }
}

/// The name to search an icon for. Without one there is no icon.
pub fn search_name(app_name: &str) -> (name: Option<String>)
    ensures
        opt_text(name) == searched_name(app_name@),
{
    let name = trim(app_name);
    if name.as_str().unicode_len() > 0 {
        Some(name)
    } else {
        None
    }
}

/// The Spotlight query for the application whose bundle is named `name`.
pub open spec fn exact_query(name: Seq<char>) -> Seq<char> {
    "kMDItemKind == 'Application' && kMDItemFSName == '"@ + name + ".app'"@
}

/// The Spotlight query for the applications whose display name holds `name`,
/// whatever its case.
pub open spec fn fuzzy_query(name: Seq<char>) -> Seq<char> {
    "kMDItemKind == 'Application' && kMDItemDisplayName == '*"@ + name + "*'c"@
}

/// The call of `mdfind` with `query`.
pub open spec fn mdfind(query: Seq<char>) -> InvocationView {
    InvocationView { program: "mdfind"@, args: seq![query] }
}

/// The call of `mdfind` with `query`.
pub fn run_mdfind(query: String) -> (call: Invocation)
    ensures
        call@ == mdfind(query@),
{
    let mut args: Vec<String> = Vec::new();
    args.push(query);
    assert(views(args@) =~= seq![query@]);
    Invocation { program: String::from_str("mdfind"), args }
}

/// One way to locate an application bundle.
#[derive(Debug, PartialEq, Eq)]
pub enum BundleProbe {
    /// Run the command: the first line it prints is the bundle.
    Search(Invocation),
    /// Look whether this path exists: if so, it is the bundle.
    Path(String),
}

/// What a `BundleProbe` stands for.
pub enum BundleProbeView {
    Search(InvocationView),
    Path(Seq<char>),
}

impl View for BundleProbe {
    type V = BundleProbeView;

    open spec fn view(&self) -> BundleProbeView {
        match self {
            BundleProbe::Search(call) => BundleProbeView::Search(call@),
            BundleProbe::Path(path) => BundleProbeView::Path(path@),
        }
    }
}

/// The number of well-known applications.
pub const KNOWN_APPS: usize = 16;

/// The name and the bundle of the well-known application number `i`.
pub open spec fn known_app(i: int) -> (Seq<char>, Seq<char>) {
    if i == 0 {
        ("Google Chrome"@, "/Applications/Google Chrome.app"@)
    } else if i == 1 {
        ("Chrome"@, "/Applications/Google Chrome.app"@)
    } else if i == 2 {
        ("Safari"@, "/Applications/Safari.app"@)
    } else if i == 3 {
        ("Firefox"@, "/Applications/Firefox.app"@)
    } else if i == 4 {
        ("Terminal"@, "/System/Applications/Utilities/Terminal.app"@)
    } else if i == 5 {
        ("Finder"@, "/System/Library/CoreServices/Finder.app"@)
    } else if i == 6 {
        ("Mail"@, "/System/Applications/Mail.app"@)
    } else if i == 7 {
        ("Messages"@, "/System/Applications/Messages.app"@)
    } else if i == 8 {
        ("Notes"@, "/System/Applications/Notes.app"@)
    } else if i == 9 {
        ("TextEdit"@, "/System/Applications/TextEdit.app"@)
    } else if i == 10 {
        ("Xcode"@, "/Applications/Xcode.app"@)
    } else if i == 11 {
        ("Visual Studio Code"@, "/Applications/Visual Studio Code.app"@)
    } else if i == 12 {
        ("VS Code"@, "/Applications/Visual Studio Code.app"@)
    } else if i == 13 {
        ("Code"@, "/Applications/Visual Studio Code.app"@)
    } else if i == 14 {
        ("Microsoft Edge"@, "/Applications/Microsoft Edge.app"@)
    } else {
        ("Edge"@, "/Applications/Microsoft Edge.app"@)
    }
}

/// The name and the bundle of the well-known application number `i`.
pub fn known_app_entry(i: usize) -> (entry: (&'static str, &'static str))
    ensures
        entry.0@ == known_app(i as int).0,
        entry.1@ == known_app(i as int).1,
{
    match i {
        0 => ("Google Chrome", "/Applications/Google Chrome.app"),
        1 => ("Chrome", "/Applications/Google Chrome.app"),
        2 => ("Safari", "/Applications/Safari.app"),
        3 => ("Firefox", "/Applications/Firefox.app"),
        4 => ("Terminal", "/System/Applications/Utilities/Terminal.app"),
        5 => ("Finder", "/System/Library/CoreServices/Finder.app"),
        6 => ("Mail", "/System/Applications/Mail.app"),
        7 => ("Messages", "/System/Applications/Messages.app"),
        8 => ("Notes", "/System/Applications/Notes.app"),
        9 => ("TextEdit", "/System/Applications/TextEdit.app"),
        10 => ("Xcode", "/Applications/Xcode.app"),
        11 => ("Visual Studio Code", "/Applications/Visual Studio Code.app"),
        12 => ("VS Code", "/Applications/Visual Studio Code.app"),
        13 => ("Code", "/Applications/Visual Studio Code.app"),
        14 => ("Microsoft Edge", "/Applications/Microsoft Edge.app"),
        _ => ("Edge", "/Applications/Microsoft Edge.app"),
    }
}

/// The bundles of the first `count` well-known applications that are named
/// `name`, whatever the case, in the order of the table.
pub open spec fn known_bundles(name: Seq<char>, count: int) -> Seq<Seq<char>>
    decreases count,
{
    if count <= 0 {
        Seq::empty()
    } else if lowercase(known_app(count - 1).0) == lowercase(name) {
        known_bundles(name, count - 1).push(known_app(count - 1).1)
    } else {
        known_bundles(name, count - 1)
    }
}

/// The usual places of the bundle of the application named `name`.
pub open spec fn usual_bundles(name: Seq<char>) -> Seq<Seq<char>> {
    seq![
        "/Applications/"@ + name + ".app"@,
        "/System/Applications/"@ + name + ".app"@,
        "/System/Applications/Utilities/"@ + name + ".app"@,
        "/Applications/Utilities/"@ + name + ".app"@,
        "/Applications/"@ + without(name, ' ') + ".app"@,
        "/System/Applications/"@ + without(name, ' ') + ".app"@,
    ]
}

/// The Spotlight queries for the application named `name`: for the name as it
/// is; for the name without its spaces, where it has any; and for any
/// application whose display name holds the name.
pub open spec fn bundle_queries(name: Seq<char>) -> Seq<Seq<char>> {
    if name.contains(' ') {
        seq![exact_query(name), exact_query(without(name, ' ')), fuzzy_query(name)]
    } else {
        seq![exact_query(name), fuzzy_query(name)]
    }
}

/// The ways to locate the bundle of the application named `name`, in the order
/// in which they are tried: the Spotlight queries, the usual places, the known
/// places.
pub open spec fn bundle_strategies(name: Seq<char>) -> Seq<BundleProbeView> {
    bundle_queries(name).map_values(|q: Seq<char>| BundleProbeView::Search(mdfind(q))) + (
    usual_bundles(name) + known_bundles(name, KNOWN_APPS as int)).map_values(
        |p: Seq<char>| BundleProbeView::Path(p),
    )
}

/// The ways to locate the bundle of the application named `name`. The first
/// probe that yields a bundle wins, whether or not that bundle then yields an icon.
pub fn bundle_probes(name: &str) -> (probes: Vec<BundleProbe>)
    ensures
        views(probes@) == bundle_strategies(name@),
{
    let mut probes: Vec<BundleProbe> = Vec::new();
    let spaced = contains_char(name, ' ');
    let bare = remove_char(name, ' ');
    probes.push(
        BundleProbe::Search(
            run_mdfind(join3("kMDItemKind == 'Application' && kMDItemFSName == '", name, ".app'")),
        ),
    );
    if spaced {
        probes.push(
            BundleProbe::Search(
                run_mdfind(
                    join3(
                        "kMDItemKind == 'Application' && kMDItemFSName == '",
                        bare.as_str(),
                        ".app'",
                    ),
                ),
            ),
        );
    }
    probes.push(
        BundleProbe::Search(
            run_mdfind(
                join3("kMDItemKind == 'Application' && kMDItemDisplayName == '*", name, "*'c"),
            ),
        ),
    );
    let ghost searches = bundle_queries(name@).map_values(
        |q: Seq<char>| BundleProbeView::Search(mdfind(q)),
    );
    assert(views(probes@) =~= searches);
    probes.push(BundleProbe::Path(join3("/Applications/", name, ".app")));
    probes.push(BundleProbe::Path(join3("/System/Applications/", name, ".app")));
    probes.push(BundleProbe::Path(join3("/System/Applications/Utilities/", name, ".app")));
    probes.push(BundleProbe::Path(join3("/Applications/Utilities/", name, ".app")));
    probes.push(BundleProbe::Path(join3("/Applications/", bare.as_str(), ".app")));
    probes.push(BundleProbe::Path(join3("/System/Applications/", bare.as_str(), ".app")));
    let ghost usual = usual_bundles(name@).map_values(|p: Seq<char>| BundleProbeView::Path(p));
    assert(views(probes@) =~= searches + usual);
    let mut i: usize = 0;
    while i < KNOWN_APPS
        invariant
            i <= KNOWN_APPS,
            searches == bundle_queries(name@).map_values(
                |q: Seq<char>| BundleProbeView::Search(mdfind(q)),
            ),
            usual == usual_bundles(name@).map_values(|p: Seq<char>| BundleProbeView::Path(p)),
            views(probes@) == searches + usual + known_bundles(name@, i as int).map_values(
                |p: Seq<char>| BundleProbeView::Path(p),
            ),
        decreases KNOWN_APPS - i,
    {
        let (known_name, known_path) = known_app_entry(i);
        let ghost before = known_bundles(name@, i as int).map_values(
            |p: Seq<char>| BundleProbeView::Path(p),
        );
        if eq_ignore_case(name, known_name) {
            let ghost tried = views(probes@);
            probes.push(BundleProbe::Path(String::from_str(known_path)));
            assert(views(probes@) =~= tried.push(BundleProbeView::Path(known_path@)));
            assert(known_bundles(name@, i + 1).map_values(
                |p: Seq<char>| BundleProbeView::Path(p),
            ) =~= before.push(BundleProbeView::Path(known_path@)));
            assert(views(probes@) =~= searches + usual + before.push(
                BundleProbeView::Path(known_path@),
            ));
        }
        i += 1;
    }
    assert(views(probes@) =~= bundle_strategies(name@));
    probes
}

/// The name `name` with every slash and every space replaced by an underscore.
pub open spec fn file_safe(name: Seq<char>) -> Seq<char> {
    replaced(replaced(name, '/', '_'), ' ', '_')
}

/// The name of the temporary PNG file for the icon of the application `name`.
pub open spec fn temp_icon_name(name: Seq<char>) -> Seq<char> {
    file_safe(name) + ".png"@
}

/// The name of the temporary file, in the directory for temporary files, that
/// the icon of the application `name` is converted into.
pub fn temp_icon_file(name: &str) -> (file: String)
    ensures
        file@ == temp_icon_name(name@),
{
    let no_slash = replace_char(name, '/', '_');
    let safe = replace_char(no_slash.as_str(), ' ', '_');
    join2(safe.as_str(), ".png")
}

/// The icon files to try in the bundle `bundle` of the application `name`, in
/// the order in which they are tried.
pub open spec fn icon_files(bundle: Seq<char>, name: Seq<char>) -> Seq<Seq<char>> {
    seq![
        bundle + "/Contents/Resources/"@ + name + ".icns"@,
        bundle + "/Contents/Resources/AppIcon.icns"@,
        bundle + "/Contents/Resources/icon.icns"@,
        bundle + "/Contents/Resources/app.icns"@,
        bundle + "/Contents/Resources/"@ + without(name, ' ') + ".icns"@,
        bundle + "/Contents/Resources/Application.icns"@,
        bundle + "/Contents/Resources/AppIcon.png"@,
        bundle + "/Contents/Resources/Icon.png"@,
    ]
}

/// The icon files to try in the bundle of the application. The first that
/// exists and converts to PNG wins.
pub fn icon_candidates(bundle: &str, name: &str) -> (files: Vec<String>)
    ensures
        views(files@) == icon_files(bundle@, name@),
{
    let bare = remove_char(name, ' ');
    let mut files: Vec<String> = Vec::new();
    files.push(join4(bundle, "/Contents/Resources/", name, ".icns"));
    files.push(join2(bundle, "/Contents/Resources/AppIcon.icns"));
    files.push(join2(bundle, "/Contents/Resources/icon.icns"));
    files.push(join2(bundle, "/Contents/Resources/app.icns"));
    files.push(join4(bundle, "/Contents/Resources/", bare.as_str(), ".icns"));
    files.push(join2(bundle, "/Contents/Resources/Application.icns"));
    files.push(join2(bundle, "/Contents/Resources/AppIcon.png"));
    files.push(join2(bundle, "/Contents/Resources/Icon.png"));
    assert(views(files@) =~= icon_files(bundle@, name@));
    files
}

/// The call of `sips` that converts the image file `icon` to PNG into `out`.
pub open spec fn sips(icon: Seq<char>, out: Seq<char>) -> InvocationView {
    InvocationView {
        program: "sips"@,
        args: seq!["-s"@, "format"@, "png"@, icon, "--out"@, out],
    }
}

/// The command that converts the image file `icon` to a PNG file at `out`.
/// Where it succeeds, the content of `out` is the icon.
pub fn conversion(icon: &str, out: &str) -> (call: Invocation)
    ensures
        call@ == sips(icon@, out@),
{
    let mut args: Vec<String> = Vec::new();
    args.push(String::from_str("-s"));
    args.push(String::from_str("format"));
    args.push(String::from_str("png"));
    args.push(String::from_str(icon));
    args.push(String::from_str("--out"));
    args.push(String::from_str(out));
    assert(views(args@) =~= seq!["-s"@, "format"@, "png"@, icon@, "--out"@, out@]);
    Invocation { program: String::from_str("sips"), args }
}

/// The script for Finder, up to the path of the bundle.
pub const FINDER_SCRIPT_HEAD: &'static str =
    "tell application \"Finder\"\n                    try\n                        set appFile to POSIX file \"";

/// The script for Finder, between the path of the bundle and the name of the file.
pub const FINDER_SCRIPT_MIDDLE: &'static str =
    "\" as alias\n                        set appIcon to the icon of appFile\n                        set tmpFolder to path to temporary items as string\n                        set tmpFile to tmpFolder & \"";

/// The script for Finder, after the name of the file.
pub const FINDER_SCRIPT_TAIL: &'static str =
    ".png\"\n                        set fileRef to (open for access POSIX path of tmpFile with write permission)\n                        set iconData to data of (appIcon as picture)\n                        write iconData to fileRef\n                        close access fileRef\n                        return POSIX path of tmpFile\n                    on error\n                        return \"\"\n                    end try\n                end tell";

/// The script that has Finder write the icon of the bundle `bundle` into a
/// temporary file named after the application `name`, and print the path of
/// that file, or nothing where it fails.
pub open spec fn finder_script(bundle: Seq<char>, name: Seq<char>) -> Seq<char> {
    FINDER_SCRIPT_HEAD@ + bundle + FINDER_SCRIPT_MIDDLE@ + file_safe(name) + FINDER_SCRIPT_TAIL@
}

/// The command of last resort: Finder writes the icon of the bundle out. It
/// prints the path of the file it wrote, whose content is the icon.
pub fn finder_query(bundle: &str, name: &str) -> (call: Invocation)
    ensures
        call@ == osascript(finder_script(bundle@, name@)),
{
    let no_slash = replace_char(name, '/', '_');
    let safe = replace_char(no_slash.as_str(), ' ', '_');
    let script = crate::text::join5(
        FINDER_SCRIPT_HEAD,
        bundle,
        FINDER_SCRIPT_MIDDLE,
        safe.as_str(),
        FINDER_SCRIPT_TAIL,
    );
    run_script(script.as_str())
}

} // verus!
