//! Time-bounded memory of the icon found for each application name.
//!
//! Time is a count of milliseconds on a clock of the caller's choosing; it
//! only has to be the same clock for every call on one cache. An outcome
//! without an icon is remembered like any other, so that a name whose
//! extraction failed is not looked up again before the entry has expired.

use crate::source::{clone_opt, opt_text};
use vstd::hash_map::StringHashMap;
use vstd::prelude::*;

verus! {

/// How long an entry stays usable after it was captured, in milliseconds: one hour.
pub const ICON_TTL_MILLIS: u64 = 3_600_000;

/// Whether an entry captured at `captured_at` is still usable at `now`.
pub open spec fn is_fresh(captured_at: u64, now: u64) -> bool {
    now - captured_at < ICON_TTL_MILLIS
}

/// The outcome of one icon extraction and the time at which it was made.
pub struct CachedIcon {
    pub base64_icon: Option<String>,
    pub timestamp: u64,
}

/// What a `CachedIcon` stands for.
pub struct CachedIconView {
    pub icon: Option<Seq<char>>,
    pub captured_at: u64,
}

impl View for CachedIcon {
    type V = CachedIconView;

    open spec fn view(&self) -> CachedIconView {
        CachedIconView { icon: opt_text(self.base64_icon), captured_at: self.timestamp }
    }
}

/// What a lookup of `name` at time `now` yields: the remembered icon, if an entry
/// exists and is fresh; a miss otherwise.
pub open spec fn lookup(
    entries: Map<Seq<char>, CachedIconView>,
    name: Seq<char>,
    now: u64,
) -> Option<Option<Seq<char>>> {
    if entries.contains_key(name) && is_fresh(entries[name].captured_at, now) {
        Some(entries[name].icon)
    } else {
        None
    }
}

/// The entries once the outcome `icon` for `name` is stored at time `now`.
pub open spec fn stored(
    entries: Map<Seq<char>, CachedIconView>,
    name: Seq<char>,
    icon: Option<Seq<char>>,
    now: u64,
) -> Map<Seq<char>, CachedIconView> {
    entries.insert(name, CachedIconView { icon, captured_at: now })
}

/// The characters of the outcome of a lookup.
pub open spec fn hit_text(hit: Option<Option<String>>) -> Option<Option<Seq<char>>> {
    match hit {
        Some(icon) => Some(opt_text(icon)),
        None => None,
    }
}

/// Icons by application display name. Two applications that share a display
/// name share an entry.
pub struct IconCache {
    entries: StringHashMap<CachedIcon>,
}

impl View for IconCache {
    type V = Map<Seq<char>, CachedIconView>;

    closed spec fn view(&self) -> Map<Seq<char>, CachedIconView> {
        self.entries@.map_values(|e: CachedIcon| e@)
    }
}

impl IconCache {
    /// A cache without entries.
    pub fn new() -> (cache: Self)
        ensures
            cache@ == Map::<Seq<char>, CachedIconView>::empty(),
    {
        let cache = IconCache { entries: StringHashMap::new() };
        assert(cache@ =~= Map::<Seq<char>, CachedIconView>::empty());
        cache
    }

    /// The icon remembered for `name`, if there is an entry younger than the time
    /// to live at `now`. `Some(None)` is a fresh entry that records that no icon was found.
    pub fn get(&self, name: &str, now: u64) -> (hit: Option<Option<String>>)
        ensures
            hit_text(hit) == lookup(self@, name@, now),
    {
        match self.entries.get(name) {
            Some(entry) => {
                if now < entry.timestamp || now - entry.timestamp < ICON_TTL_MILLIS {
                    Some(clone_opt(&entry.base64_icon))
                } else {
                    None
                }
            },
            None => None,
        }
    }

    /// Stores the outcome `icon` for `name` as captured at `now`, in place of any
    /// earlier entry for that name.
    pub fn put(&mut self, name: String, icon: Option<String>, now: u64)
        ensures
            final(self)@ == stored(old(self)@, name@, opt_text(icon), now),
    {
        let entry = CachedIcon { base64_icon: icon, timestamp: now };
        self.entries.insert(name, entry);
        assert(self@ =~= stored(old(self)@, name@, opt_text(icon), now));
    }
}

/// A lookup right after a store of the same name, and at any time before the
/// time to live has passed since, yields what was stored.
pub proof fn lemma_get_after_put(
    entries: Map<Seq<char>, CachedIconView>,
    name: Seq<char>,
    icon: Option<Seq<char>>,
    stored_at: u64,
    now: u64,
)
    requires
        now - stored_at < ICON_TTL_MILLIS,
    ensures
        lookup(stored(entries, name, icon, stored_at), name, stored_at) == Some(icon),
        lookup(stored(entries, name, icon, stored_at), name, now) == Some(icon),
{
}

/// Once the time to live has passed since the store, a lookup of that name
/// misses, whatever was stored.
pub proof fn lemma_miss_after_ttl(
    entries: Map<Seq<char>, CachedIconView>,
    name: Seq<char>,
    icon: Option<Seq<char>>,
    stored_at: u64,
    now: u64,
)
    requires
        now - stored_at >= ICON_TTL_MILLIS,
    ensures
        lookup(stored(entries, name, icon, stored_at), name, now) is None,
{
}

/// A store under one name leaves the lookups of every other name as they were.
pub proof fn lemma_put_keeps_others(
    entries: Map<Seq<char>, CachedIconView>,
    name: Seq<char>,
    icon: Option<Seq<char>>,
    stored_at: u64,
    other: Seq<char>,
    now: u64,
)
    requires
        other != name,
    ensures
        lookup(stored(entries, name, icon, stored_at), other, now) == lookup(entries, other, now),
{
}

} // verus!
