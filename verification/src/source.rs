//! The values that flow out of the monitor: the application a clipboard entry
//! is attributed to, and the event that carries the entry.

use vstd::prelude::*;
use vstd::string::*;

verus! {

/// The characters of an optional string.
pub open spec fn opt_text(text: Option<String>) -> Option<Seq<char>> {
    match text {
        Some(s) => Some(s@),
        None => None,
    }
}

/// A copy of an optional string.
pub fn clone_opt(text: &Option<String>) -> (copy: Option<String>)
    ensures
        opt_text(copy) == opt_text(*text),
{
    match text {
        Some(s) => Some(s.clone()),
        None => None,
    }
}

/// The name given to an application that could not be identified.
pub open spec fn placeholder_name() -> Seq<char> {
    "App"@
}

/// An application as the front end shows it: a display name and, where one was
/// found, its icon as a data URL.
#[derive(Debug, PartialEq, Eq)]
pub struct SourceApp {
    pub name: String,
    pub base64_icon: Option<String>,
}

/// What a `SourceApp` stands for.
pub struct SourceAppView {
    pub name: Seq<char>,
    pub icon: Option<Seq<char>>,
}

/// The application that stands in when nothing better is known: named `App`,
/// without an icon.
pub open spec fn placeholder() -> SourceAppView {
    SourceAppView { name: placeholder_name(), icon: None }
}

impl View for SourceApp {
    type V = SourceAppView;

    open spec fn view(&self) -> SourceAppView {
        SourceAppView { name: self.name@, icon: opt_text(self.base64_icon) }
    }
}

impl Clone for SourceApp {
    fn clone(&self) -> (copy: Self)
        ensures
            copy@ == self@,
    {
        SourceApp { name: self.name.clone(), base64_icon: clone_opt(&self.base64_icon) }
    }
}

impl SourceApp {
    /// The application named `name` with the icon `icon`.
    pub fn new(name: String, base64_icon: Option<String>) -> (app: Self)
        ensures
            app@ == (SourceAppView { name: name@, icon: opt_text(base64_icon) }),
    {
        SourceApp { name, base64_icon }
    }

    /// The placeholder application.
    pub fn placeholder() -> (app: Self)
        ensures
            app@ == placeholder(),
    {
        SourceApp { name: String::from_str("App"), base64_icon: None }
    }
}

/// A new clipboard text together with the application it is attributed to.
#[derive(Debug, PartialEq, Eq)]
pub struct ClipboardData {
    pub text: String,
    pub source_app: SourceApp,
}

/// What a `ClipboardData` stands for.
pub struct ClipboardDataView {
    pub text: Seq<char>,
    pub source_app: SourceAppView,
}

impl View for ClipboardData {
    type V = ClipboardDataView;

    open spec fn view(&self) -> ClipboardDataView {
        ClipboardDataView { text: self.text@, source_app: self.source_app@ }
    }
}

impl Clone for ClipboardData {
    fn clone(&self) -> (copy: Self)
        ensures
            copy@ == self@,
    {
        ClipboardData { text: self.text.clone(), source_app: self.source_app.clone() }
    }
}

} // verus!
