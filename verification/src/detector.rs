//! Detection of new clipboard text.
//!
//! The detector keeps the last text for which it reported a change. A read is
//! new when it is not empty and differs from that text. An empty read, as one
//! made while another program is writing the clipboard, never changes what is
//! kept.

use crate::source::opt_text;
use vstd::prelude::*;
use vstd::string::*;

verus! {

/// What becomes of the snapshot `snapshot`, and what is reported, when `current`
/// is read from the clipboard.
pub open spec fn observed(snapshot: Seq<char>, current: Seq<char>) -> (
    Seq<char>,
    Option<Seq<char>>,
) {
    if current.len() == 0 || current == snapshot {
        (snapshot, None)
    } else {
        (current, Some(current))
    }
}

/// The snapshot after the texts `reads` were read in order, starting from `snapshot`.
pub open spec fn snapshot_after(snapshot: Seq<char>, reads: Seq<Seq<char>>) -> Seq<char>
    decreases reads.len(),
{
    if reads.len() == 0 {
        snapshot
    } else {
        observed(snapshot_after(snapshot, reads.drop_last()), reads.last()).0
    }
}

/// The texts reported as new while the texts `reads` were read in order,
/// starting from `snapshot`.
pub open spec fn reported(snapshot: Seq<char>, reads: Seq<Seq<char>>) -> Seq<Seq<char>>
    decreases reads.len(),
{
    if reads.len() == 0 {
        Seq::empty()
    } else {
        let before = reported(snapshot, reads.drop_last());
        match observed(snapshot_after(snapshot, reads.drop_last()), reads.last()).1 {
            Some(text) => before.push(text),
            None => before,
        }
    }
}

/// The last text of `texts`, or `initial` where there is none.
pub open spec fn last_or(texts: Seq<Seq<char>>, initial: Seq<char>) -> Seq<char> {
    if texts.len() == 0 {
        initial
    } else {
        texts.last()
    }
}

/// The last clipboard text that was reported as new.
pub struct ChangeDetector {
    last_text: String,
}

impl View for ChangeDetector {
    type V = Seq<char>;

    closed spec fn view(&self) -> Seq<char> {
        self.last_text@
    }
}

impl ChangeDetector {
    /// A detector that has seen nothing yet: its snapshot is empty.
    pub fn new() -> (detector: Self)
        ensures
            detector@ == Seq::<char>::empty(),
    {
        ChangeDetector { last_text: String::new() }
    }

    /// The text of the last change that was reported, empty before the first.
    pub fn snapshot(&self) -> (text: String)
        ensures
            text@ == self@,
    {
        self.last_text.clone()
    }

    /// Takes the text read on this tick and tells whether it is new.
    ///
    /// An empty text, or one equal to the snapshot, is not new and leaves the
    /// snapshot as it was. Any other text becomes the snapshot and is returned.
    /// Comparing and updating happen in this one call, on the one detector: the
    /// same transition is never reported twice.
    pub fn observe(&mut self, current_text: &str) -> (new_text: Option<String>)
        ensures
            (final(self)@, opt_text(new_text)) == observed(old(self)@, current_text@),
    {
        if current_text.unicode_len() == 0 {
            return None;
        }
        let current = String::from_str(current_text);
        if current == self.last_text {
            None
        } else {
            self.last_text = current.clone();
            Some(current)
        }
    }
}

/// After any sequence of reads the snapshot is the text that was reported last,
/// or the initial snapshot where nothing was reported.
pub proof fn lemma_snapshot_is_last_reported(snapshot: Seq<char>, reads: Seq<Seq<char>>)
    ensures
        snapshot_after(snapshot, reads) == last_or(reported(snapshot, reads), snapshot),
    decreases reads.len(),
{
    if reads.len() > 0 {
        lemma_snapshot_is_last_reported(snapshot, reads.drop_last());
    }
}

/// A read is reported if and only if it is not empty and differs from the text
/// that was reported immediately before it (from the initial snapshot, where
/// nothing was reported before). What is reported is the text that was read.
pub proof fn lemma_reported_iff_differs(snapshot: Seq<char>, reads: Seq<Seq<char>>, text: Seq<char>)
    ensures
        reported(snapshot, reads.push(text)) == if text.len() > 0 && text != last_or(
            reported(snapshot, reads),
            snapshot,
        ) {
            reported(snapshot, reads).push(text)
        } else {
            reported(snapshot, reads)
        },
{
    lemma_snapshot_is_last_reported(snapshot, reads);
    assert(reads.push(text).drop_last() == reads);
}

/// Reading the same text twice in a row reports it at most once, and an empty
/// read reports nothing and leaves the snapshot as it was.
pub proof fn lemma_repeated_and_empty_reads(snapshot: Seq<char>, text: Seq<char>)
    ensures
        observed(observed(snapshot, text).0, text).1 is None,
        observed(observed(snapshot, text).0, text).0 == observed(snapshot, text).0,
        observed(snapshot, Seq::empty()) == (snapshot, None::<Seq<char>>),
{
}

/// No two texts reported in a row are equal, and none is empty.
pub proof fn lemma_reported_texts_differ(snapshot: Seq<char>, reads: Seq<Seq<char>>)
    ensures
        forall|i: int| 0 <= i < reported(snapshot, reads).len() ==> reported(snapshot, reads)[i].len() > 0,
        forall|i: int|
            0 < i < reported(snapshot, reads).len() ==> #[trigger] reported(snapshot, reads)[i]
                != reported(snapshot, reads)[i - 1],
    decreases reads.len(),
{
    if reads.len() > 0 {
        lemma_reported_texts_differ(snapshot, reads.drop_last());
        lemma_snapshot_is_last_reported(snapshot, reads.drop_last());
    }
}

} // verus!
