//! The poll loop as a state machine.
//!
//! The monitor makes every decision of the loop and performs none of its
//! effects. The caller runs the loop: it carries out the action that the
//! monitor hands out (sleep, read the clipboard, ask the system for the
//! application in front or for its icon, publish) and hands back what came
//! of it as the next event. One action is outstanding at any time, so no two
//! resolutions or publications overlap.
//!
//! On a change the source is captured at once; the short settle delay comes
//! after the capture and before the publication.

use crate::detector::{observed, ChangeDetector};
use crate::source::{opt_text, ClipboardData, ClipboardDataView};
use crate::tracker::{
    complete, complete_frontmost_app, get_frontmost_app, resolve, Resolution, ResolutionView,
    SourceTracker, TrackerView,
};
use vstd::prelude::*;
use vstd::string::*;

verus! {

/// Time between two reads of the clipboard, in milliseconds.
pub const POLL_INTERVAL_MILLIS: u64 = 300;

/// Time between the capture of the source and the publication, in milliseconds.
pub const SETTLE_DELAY_MILLIS: u64 = 50;

/// The name under which a new clipboard text is published.
pub open spec fn event_name() -> Seq<char> {
    "clipboard-new-text"@
}

/// The name under which a new clipboard text is published.
pub fn published_event_name() -> (name: String)
    ensures
        name@ == event_name(),
{
    String::from_str("clipboard-new-text")
}

/// Where the loop stands.
pub enum Phase {
    /// Between two ticks.
    Idle,
    /// The clipboard is being read.
    Reading,
    /// `text` is new; the name of the application in front is being resolved.
    ResolvingName { text: String },
    /// `text` is new; the icon of the application `name` is being extracted.
    ResolvingIcon { text: String, name: String },
    /// The source is captured; the settle delay is running.
    Settling { data: ClipboardData },
    /// The event is being published.
    Publishing { data: ClipboardData },
}

/// What a `Phase` stands for.
pub enum PhaseView {
    Idle,
    Reading,
    ResolvingName { text: Seq<char> },
    ResolvingIcon { text: Seq<char>, name: Seq<char> },
    Settling { data: ClipboardDataView },
    Publishing { data: ClipboardDataView },
}

impl View for Phase {
    type V = PhaseView;

    open spec fn view(&self) -> PhaseView {
        match self {
            Phase::Idle => PhaseView::Idle,
            Phase::Reading => PhaseView::Reading,
            Phase::ResolvingName { text } => PhaseView::ResolvingName { text: text@ },
            Phase::ResolvingIcon { text, name } => PhaseView::ResolvingIcon {
                text: text@,
                name: name@,
            },
            Phase::Settling { data } => PhaseView::Settling { data: data@ },
            Phase::Publishing { data } => PhaseView::Publishing { data: data@ },
        }
    }
}

/// What the caller reports back to the monitor.
pub enum PollEvent {
    /// The sleep that was asked for is over.
    Woke,
    /// The clipboard was read: its text, or `None` where the read failed.
    ClipboardRead(Option<String>),
    /// The name of the application in front, or `None` where no strategy found one.
    NameResolved(Option<String>),
    /// The icon that was extracted, or `None` where no strategy found one.
    IconResolved(Option<String>),
    /// The event was handed to the sink, whether the sink took it or not.
    Published,
}

/// What a `PollEvent` stands for.
pub enum PollEventView {
    Woke,
    ClipboardRead(Option<Seq<char>>),
    NameResolved(Option<Seq<char>>),
    IconResolved(Option<Seq<char>>),
    Published,
}

impl View for PollEvent {
    type V = PollEventView;

    open spec fn view(&self) -> PollEventView {
        match self {
            PollEvent::Woke => PollEventView::Woke,
            PollEvent::ClipboardRead(text) => PollEventView::ClipboardRead(opt_text(*text)),
            PollEvent::NameResolved(name) => PollEventView::NameResolved(opt_text(*name)),
            PollEvent::IconResolved(icon) => PollEventView::IconResolved(opt_text(*icon)),
            PollEvent::Published => PollEventView::Published,
        }
    }
}

/// What the monitor asks the caller to do next.
#[derive(Debug, PartialEq, Eq)]
pub enum PollAction {
    /// Sleep for this many milliseconds, then report `Woke`.
    Sleep(u64),
    /// Read the text of the clipboard, then report `ClipboardRead`.
    ReadClipboard,
    /// Resolve the name of the application in front, then report `NameResolved`.
    ResolveName,
    /// Extract the icon of the application of this name, then report `IconResolved`.
    ResolveIcon(String),
    /// Publish this event, then report `Published`.
    Publish(ClipboardData),
}

/// What a `PollAction` stands for.
pub enum PollActionView {
    Sleep(u64),
    ReadClipboard,
    ResolveName,
    ResolveIcon(Seq<char>),
    Publish(ClipboardDataView),
}

impl View for PollAction {
    type V = PollActionView;

    open spec fn view(&self) -> PollActionView {
        match self {
            PollAction::Sleep(millis) => PollActionView::Sleep(*millis),
            PollAction::ReadClipboard => PollActionView::ReadClipboard,
            PollAction::ResolveName => PollActionView::ResolveName,
            PollAction::ResolveIcon(name) => PollActionView::ResolveIcon(name@),
            PollAction::Publish(data) => PollActionView::Publish(data@),
        }
    }
}

/// What a `Monitor` stands for.
pub struct MonitorView {
    /// The text of the last change that was detected.
    pub snapshot: Seq<char>,
    /// The state behind source attribution.
    pub tracker: TrackerView,
    /// Where the loop stands.
    pub phase: PhaseView,
}

/// The action that is outstanding in `phase`.
pub open spec fn awaited(phase: PhaseView) -> PollActionView {
    match phase {
        PhaseView::Idle => PollActionView::Sleep(POLL_INTERVAL_MILLIS),
        PhaseView::Reading => PollActionView::ReadClipboard,
        PhaseView::ResolvingName { .. } => PollActionView::ResolveName,
        PhaseView::ResolvingIcon { name, .. } => PollActionView::ResolveIcon(name),
        PhaseView::Settling { .. } => PollActionView::Sleep(SETTLE_DELAY_MILLIS),
        PhaseView::Publishing { data } => PollActionView::Publish(data),
    }
}

/// The monitor after `event` arrived at time `now`. The action to carry out
/// next is the one outstanding in its phase.
///
/// An event that does not answer the outstanding action changes nothing.
pub open spec fn after(m: MonitorView, event: PollEventView, now: u64) -> MonitorView {
    match (m.phase, event) {
        (PhaseView::Idle, PollEventView::Woke) => MonitorView { phase: PhaseView::Reading, ..m },
        (PhaseView::Reading, PollEventView::ClipboardRead(read)) => match read {
            None => MonitorView { phase: PhaseView::Idle, ..m },
            Some(current) => match observed(m.snapshot, current).1 {
                None => MonitorView { phase: PhaseView::Idle, ..m },
                Some(text) => MonitorView {
                    snapshot: observed(m.snapshot, current).0,
                    phase: PhaseView::ResolvingName { text },
                    ..m
                },
            },
        },
        (PhaseView::ResolvingName { text }, PollEventView::NameResolved(name)) => {
            let (tracker, decision) = resolve(m.tracker, name, now);
            match decision {
                ResolutionView::Attributed(source_app) => MonitorView {
                    tracker,
                    phase: PhaseView::Settling { data: ClipboardDataView { text, source_app } },
                    ..m
                },
                ResolutionView::NeedsIcon(name) => MonitorView {
                    tracker,
                    phase: PhaseView::ResolvingIcon { text, name },
                    ..m
                },
            }
        },
        (PhaseView::ResolvingIcon { text, name }, PollEventView::IconResolved(icon)) => {
            let (tracker, source_app) = complete(m.tracker, name, icon, now);
            MonitorView {
                tracker,
                phase: PhaseView::Settling { data: ClipboardDataView { text, source_app } },
                ..m
            }
        },
        (PhaseView::Settling { data }, PollEventView::Woke) => MonitorView {
            phase: PhaseView::Publishing { data },
            ..m
        },
        (PhaseView::Publishing { .. }, PollEventView::Published) => MonitorView {
            phase: PhaseView::Idle,
            ..m
        },
        _ => m,
    }
}

/// The clipboard monitor: the change detector, the source tracker and the
/// phase of the loop.
pub struct Monitor {
    detector: ChangeDetector,
    tracker: SourceTracker,
    phase: Phase,
}

impl View for Monitor {
    type V = MonitorView;

    closed spec fn view(&self) -> MonitorView {
        MonitorView { snapshot: self.detector@, tracker: self.tracker@, phase: self.phase@ }
    }
}

impl Monitor {
    /// A monitor for the application whose product name is `own_name`. It has
    /// seen no text and no application, its cache is empty, and it is idle: the
    /// loop starts by reporting `Woke`.
    pub fn new(own_name: &str) -> (monitor: Self)
        ensures
            monitor@ == (MonitorView {
                snapshot: Seq::empty(),
                tracker: TrackerView {
                    own_name: crate::text::lowercase(own_name@),
                    icons: Map::empty(),
                    last_valid: None,
                },
                phase: PhaseView::Idle,
            }),
    {
        Monitor {
            detector: ChangeDetector::new(),
            tracker: SourceTracker::new(own_name),
            phase: Phase::Idle,
        }
    }

    /// The action that is outstanding.
    pub fn pending(&self) -> (action: PollAction)
        ensures
            action@ == awaited(self@.phase),
    {
        match &self.phase {
            Phase::Idle => PollAction::Sleep(POLL_INTERVAL_MILLIS),
            Phase::Reading => PollAction::ReadClipboard,
            Phase::ResolvingName { .. } => PollAction::ResolveName,
            Phase::ResolvingIcon { name, .. } => PollAction::ResolveIcon(name.clone()),
            Phase::Settling { .. } => PollAction::Sleep(SETTLE_DELAY_MILLIS),
            Phase::Publishing { data } => PollAction::Publish(data.clone()),
        }
    }

    /// Takes the outcome of the outstanding action and returns the next one.
    /// `now` is the current time in milliseconds.
    pub fn step(&mut self, event: PollEvent, now: u64) -> (action: PollAction)
        ensures
            final(self)@ == after(old(self)@, event@, now),
            action@ == awaited(final(self)@.phase),
    {
        let mut phase = Phase::Idle;
        core::mem::swap(&mut self.phase, &mut phase);
        let next = match (phase, event) {
            (Phase::Idle, PollEvent::Woke) => Phase::Reading,
            (Phase::Reading, PollEvent::ClipboardRead(read)) => match read {
                None => Phase::Idle,
                Some(current) => match self.detector.observe(current.as_str()) {
                    None => Phase::Idle,
                    Some(text) => Phase::ResolvingName { text },
                },
            },
            (Phase::ResolvingName { text }, PollEvent::NameResolved(name)) => {
                match get_frontmost_app(&mut self.tracker, name, now) {
                    Resolution::Attributed(source_app) => Phase::Settling {
                        data: ClipboardData { text, source_app },
                    },
                    Resolution::NeedsIcon(name) => Phase::ResolvingIcon { text, name },
                }
            },
            (Phase::ResolvingIcon { text, name }, PollEvent::IconResolved(icon)) => {
                let source_app = complete_frontmost_app(&mut self.tracker, name, icon, now);
                Phase::Settling { data: ClipboardData { text, source_app } }
            },
            (Phase::Settling { data }, PollEvent::Woke) => Phase::Publishing { data },
            (Phase::Publishing { .. }, PollEvent::Published) => Phase::Idle,
            (phase, _) => phase,
        };
        self.phase = next;
        self.pending()
    }
}

impl MonitorView {
    /// The new text that is on its way to publication, if any.
    pub open spec fn in_flight(self) -> Option<Seq<char>> {
        match self.phase {
            PhaseView::Idle => None,
            PhaseView::Reading => None,
            PhaseView::ResolvingName { text } => Some(text),
            PhaseView::ResolvingIcon { text, .. } => Some(text),
            PhaseView::Settling { data } => Some(data.text),
            PhaseView::Publishing { data } => Some(data.text),
        }
    }

    /// The text on its way to publication, if any, is the snapshot and not empty.
    pub open spec fn coherent(self) -> bool {
        self.in_flight() matches Some(text) ==> text == self.snapshot && text.len() > 0
    }
}

/// What is published is the change that was detected last: from the read that
/// detects a text to its publication the text stays the snapshot, and it is
/// never empty. Between detection and publication the clipboard is not read.
pub proof fn lemma_in_flight_is_snapshot(m: MonitorView, event: PollEventView, now: u64)
    requires
        m.coherent(),
    ensures
        after(m, event, now).coherent(),
        m.in_flight() is Some ==> after(m, event, now).snapshot == m.snapshot,
        awaited(after(m, event, now).phase) is ReadClipboard ==> m.in_flight() is None,
{
}

/// A text is sent on its way exactly when a read detects a change: the read is
/// not empty and differs from the snapshot; that text becomes the snapshot.
pub proof fn lemma_change_starts_resolution(m: MonitorView, read: Option<Seq<char>>, now: u64)
    requires
        m.phase is Reading,
    ensures
        after(m, PollEventView::ClipboardRead(read), now).in_flight() == match read {
            Some(text) => if text.len() > 0 && text != m.snapshot {
                Some(text)
            } else {
                None
            },
            None => None,
        },
        after(m, PollEventView::ClipboardRead(read), now).in_flight() is None ==> after(
            m,
            PollEventView::ClipboardRead(read),
            now,
        ) == (MonitorView { phase: PhaseView::Idle, ..m }),
{
}

} // verus!
