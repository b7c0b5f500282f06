//! Attribution of a clipboard entry to the application in front.
//!
//! The tracker owns the icon cache and the last application seen that was not
//! the monitor itself. It never asks the operating system anything: the caller
//! hands it the name it resolved and, where the tracker asks for one, the icon
//! it extracted.
//!
//! A name that could not be resolved, or came back empty, is replaced by the
//! placeholder name and handled like any other name from then on.

use crate::icon_cache::{lookup, stored, CachedIconView, IconCache};
use crate::source::{opt_text, placeholder, placeholder_name, SourceApp, SourceAppView};
use crate::text::{lowercase, to_lowercase};
use vstd::prelude::*;
use vstd::string::*;

verus! {

/// What a `SourceTracker` stands for.
pub struct TrackerView {
    /// The monitor's own product name, in lowercase.
    pub own_name: Seq<char>,
    /// The icon cache.
    pub icons: Map<Seq<char>, CachedIconView>,
    /// The last application attributed that was not the monitor itself.
    pub last_valid: Option<SourceAppView>,
}

impl TrackerView {
    /// Whether `name` is the monitor's own name, whatever its case.
    pub open spec fn is_self(self, name: Seq<char>) -> bool {
        lowercase(name) == self.own_name
    }

    /// What stands in for the monitor itself: the last application that was not
    /// the monitor, or the placeholder where there has been none.
    pub open spec fn substitute(self) -> SourceAppView {
        match self.last_valid {
            Some(app) => app,
            None => placeholder(),
        }
    }

    /// The remembered application, if any, is not the monitor itself.
    pub open spec fn consistent(self) -> bool {
        self.last_valid matches Some(app) ==> !self.is_self(app.name)
    }
}

/// The name that resolution goes on with: the name found, or the placeholder
/// name where none was found or the one found is empty.
pub open spec fn resolved_name(frontmost: Option<Seq<char>>) -> Seq<char> {
    match frontmost {
        Some(name) => if name.len() > 0 {
            name
        } else {
            placeholder_name()
        },
        None => placeholder_name(),
    }
}

/// What the tracker decides once the name is known.
#[derive(Debug, PartialEq, Eq)]
pub enum Resolution {
    /// The attribution is settled.
    Attributed(SourceApp),
    /// The icon of the application of this name has to be extracted, and handed
    /// to `complete_frontmost_app` with the name.
    NeedsIcon(String),
}

/// What a `Resolution` stands for.
pub enum ResolutionView {
    Attributed(SourceAppView),
    NeedsIcon(Seq<char>),
}

impl View for Resolution {
    type V = ResolutionView;

    open spec fn view(&self) -> ResolutionView {
        match self {
            Resolution::Attributed(app) => ResolutionView::Attributed(app@),
            Resolution::NeedsIcon(name) => ResolutionView::NeedsIcon(name@),
        }
    }
}

/// The tracker and the decision after the name `frontmost` was resolved at `now`.
///
/// The monitor's own name is never attributed: the substitute is, and nothing
/// changes. Another name with a fresh cache entry is attributed with the cached
/// icon and remembered. Any other name needs its icon extracted first.
pub open spec fn resolve(t: TrackerView, frontmost: Option<Seq<char>>, now: u64) -> (
    TrackerView,
    ResolutionView,
) {
    let name = resolved_name(frontmost);
    if t.is_self(name) {
        (t, ResolutionView::Attributed(t.substitute()))
    } else {
        match lookup(t.icons, name, now) {
            Some(icon) => {
                let app = SourceAppView { name, icon };
                (TrackerView { last_valid: Some(app), ..t }, ResolutionView::Attributed(app))
            },
            None => (t, ResolutionView::NeedsIcon(name)),
        }
    }
}

/// The tracker and the attribution after the icon `icon` was extracted for `name` at `now`.
///
/// The outcome is cached, with or without an icon, and the application is
/// remembered. For the monitor's own name the outcome is dropped and the
/// substitute is attributed.
pub open spec fn complete(t: TrackerView, name: Seq<char>, icon: Option<Seq<char>>, now: u64) -> (
    TrackerView,
    SourceAppView,
) {
    if t.is_self(name) {
        (t, t.substitute())
    } else {
        let app = SourceAppView { name, icon };
        (
            TrackerView { icons: stored(t.icons, name, icon, now), last_valid: Some(app), ..t },
            app,
        )
    }
}

/// The state behind source attribution: the monitor's own name, the icon
/// cache and the last application that was not the monitor itself.
pub struct SourceTracker {
    own_name: String,
    icons: IconCache,
    last_valid: Option<SourceApp>,
}

/// What an optional application stands for.
pub open spec fn opt_app(app: Option<SourceApp>) -> Option<SourceAppView> {
    match app {
        Some(a) => Some(a@),
        None => None,
    }
}

impl View for SourceTracker {
    type V = TrackerView;

    closed spec fn view(&self) -> TrackerView {
        TrackerView {
            own_name: self.own_name@,
            icons: self.icons@,
            last_valid: opt_app(self.last_valid),
        }
    }
}

impl SourceTracker {
    /// A tracker for the monitor whose product name is `own_name`, with an empty
    /// cache and no application remembered.
    pub fn new(own_name: &str) -> (tracker: Self)
        ensures
            tracker@ == (TrackerView {
                own_name: lowercase(own_name@),
                icons: Map::empty(),
                last_valid: None,
            }),
    {
        SourceTracker { own_name: to_lowercase(own_name), icons: IconCache::new(), last_valid: None }
    }

    /// Whether `name` is the monitor's own name, whatever its case.
    pub fn is_self(&self, name: &str) -> (own: bool)
        ensures
            own == self@.is_self(name@),
    {
        let lower = to_lowercase(name);
        lower == self.own_name
    }

    /// The last application attributed that was not the monitor itself.
    pub fn last_valid_source(&self) -> (app: Option<SourceApp>)
        ensures
            opt_app(app) == self@.last_valid,
    {
        match &self.last_valid {
            Some(app) => Some(app.clone()),
            None => None,
        }
    }

    /// What stands in for the monitor itself.
    pub fn substitute(&self) -> (app: SourceApp)
        ensures
            app@ == self@.substitute(),
    {
        match &self.last_valid {
            Some(app) => app.clone(),
            None => SourceApp::placeholder(),
        }
    }

    /// The icon cached for `name`, if a fresh entry exists at `now`.
    pub fn cached_icon(&self, name: &str, now: u64) -> (hit: Option<Option<String>>)
        ensures
            crate::icon_cache::hit_text(hit) == lookup(self@.icons, name@, now),
    {
        self.icons.get(name, now)
    }
}

/// Decides the attribution once the name of the application in front is known.
///
/// `frontmost` is the name that the platform's strategies resolved, `None`
/// where all of them failed; `now` is the current time in milliseconds.
pub fn get_frontmost_app(tracker: &mut SourceTracker, frontmost: Option<String>, now: u64) -> (decision:
    Resolution)
    ensures
        (final(tracker)@, decision@) == resolve(old(tracker)@, opt_text(frontmost), now),
{
    let name = match frontmost {
        Some(name) => if name.as_str().unicode_len() > 0 {
            name
        } else {
            String::from_str("App")
        },
        None => String::from_str("App"),
    };
    assert(name@ == resolved_name(opt_text(frontmost)));
    if tracker.is_self(name.as_str()) {
        Resolution::Attributed(tracker.substitute())
    } else {
        match tracker.icons.get(name.as_str(), now) {
            Some(icon) => {
                let app = SourceApp { name, base64_icon: icon };
                tracker.last_valid = Some(app.clone());
                Resolution::Attributed(app)
            },
            None => Resolution::NeedsIcon(name),
        }
    }
}

/// Settles the attribution with the icon that was extracted for `name`.
///
/// `icon` is the outcome of the platform's extraction strategies, `None` where
/// all of them failed: that is no error, and the application is attributed
/// without an icon.
pub fn complete_frontmost_app(
    tracker: &mut SourceTracker,
    name: String,
    icon: Option<String>,
    now: u64,
) -> (app: SourceApp)
    ensures
        (final(tracker)@, app@) == complete(old(tracker)@, name@, opt_text(icon), now),
{
    if tracker.is_self(name.as_str()) {
        tracker.substitute()
    } else {
        let app = SourceApp { name, base64_icon: icon };
        tracker.icons.put(app.name.clone(), crate::source::clone_opt(&app.base64_icon), now);
        tracker.last_valid = Some(app.clone());
        app
    }
}

/// The monitor's own name is never attributed: whatever the cache holds, the
/// decision is the last application that was not the monitor, or the placeholder
/// where there has been none, and the tracker is left as it was.
pub proof fn lemma_self_is_substituted(
    t: TrackerView,
    frontmost: Option<Seq<char>>,
    icon: Option<Seq<char>>,
    now: u64,
)
    requires
        t.is_self(resolved_name(frontmost)),
    ensures
        resolve(t, frontmost, now) == (t, ResolutionView::Attributed(t.substitute())),
        complete(t, resolved_name(frontmost), icon, now) == (t, t.substitute()),
        t.last_valid is None ==> t.substitute() == placeholder(),
        t.last_valid matches Some(app) ==> t.substitute() == app,
{
}

/// What is attributed is never the monitor itself, as long as the placeholder
/// name is not the monitor's name.
pub proof fn lemma_never_attributed_to_self(
    t: TrackerView,
    frontmost: Option<Seq<char>>,
    name: Seq<char>,
    icon: Option<Seq<char>>,
    now: u64,
)
    requires
        t.consistent(),
        !t.is_self(placeholder_name()),
    ensures
        resolve(t, frontmost, now).1 matches ResolutionView::Attributed(app) ==> !t.is_self(
            app.name,
        ),
        resolve(t, frontmost, now).1 matches ResolutionView::NeedsIcon(n) ==> !t.is_self(n),
        !t.is_self(complete(t, name, icon, now).1.name),
{
}

/// The remembered application is never the monitor itself, and once there is
/// one it is never cleared: it is only replaced by a later application that is
/// not the monitor.
pub proof fn lemma_last_valid_kept(
    t: TrackerView,
    frontmost: Option<Seq<char>>,
    name: Seq<char>,
    icon: Option<Seq<char>>,
    now: u64,
)
    requires
        t.consistent(),
    ensures
        resolve(t, frontmost, now).0.consistent(),
        complete(t, name, icon, now).0.consistent(),
        t.last_valid is Some ==> resolve(t, frontmost, now).0.last_valid is Some,
        t.last_valid is Some ==> complete(t, name, icon, now).0.last_valid is Some,
        resolve(t, frontmost, now).0.own_name == t.own_name,
        complete(t, name, icon, now).0.own_name == t.own_name,
{
}

/// The remembered application is the one attributed most recently under a
/// name that is not the monitor's: every such attribution is remembered, and
/// nothing else changes what is remembered.
pub proof fn lemma_last_valid_is_most_recent(
    t: TrackerView,
    frontmost: Option<Seq<char>>,
    name: Seq<char>,
    icon: Option<Seq<char>>,
    now: u64,
)
    ensures
        resolve(t, frontmost, now).0.last_valid == if t.is_self(resolved_name(frontmost)) {
            t.last_valid
        } else {
            match resolve(t, frontmost, now).1 {
                ResolutionView::Attributed(app) => Some(app),
                ResolutionView::NeedsIcon(_) => t.last_valid,
            }
        },
        complete(t, name, icon, now).0.last_valid == if t.is_self(name) {
            t.last_valid
        } else {
            Some(complete(t, name, icon, now).1)
        },
        !t.is_self(name) ==> complete(t, name, icon, now).1 == (SourceAppView { name, icon }),
{
}

} // verus!
