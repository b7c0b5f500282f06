//! Commands that a resolver asks the caller to run, and the reading of what
//! they print.
//!
//! The caller runs a command and hands back whether it exited with success and
//! what it wrote to its standard output, as text.

use crate::source::opt_text;
use crate::text::{
    chars_of, find_char, first_line, line_end, string_of, strip_bounds, trim, trimmed, Strip,
};
use vstd::prelude::*;
use vstd::string::*;

verus! {

/// What each item of a list stands for, in order.
pub open spec fn views<T: View>(items: Seq<T>) -> Seq<T::V> {
    items.map_values(|item: T| item@)
}

/// A program and the arguments to run it with.
#[derive(Debug, PartialEq, Eq)]
pub struct Invocation {
    pub program: String,
    pub args: Vec<String>,
}

/// What an `Invocation` stands for.
pub struct InvocationView {
    pub program: Seq<char>,
    pub args: Seq<Seq<char>>,
}

impl View for Invocation {
    type V = InvocationView;

    open spec fn view(&self) -> InvocationView {
        InvocationView { program: self.program@, args: views(self.args@) }
    }
}

/// The name that a command printed: its output without the white space around
/// it, where the command succeeded and that is not empty.
pub open spec fn printed_name(success: bool, stdout: Seq<char>) -> Option<Seq<char>> {
    if success && trimmed(stdout).len() > 0 {
        Some(trimmed(stdout))
    } else {
        None
    }
}

/// Reads the output of a command that prints one name.
pub fn name_from_output(success: bool, stdout: &str) -> (name: Option<String>)
    ensures
        opt_text(name) == printed_name(success, stdout@),
{
    if !success {
        return None;
    }
    let name = trim(stdout);
    if name.as_str().unicode_len() > 0 {
        Some(name)
    } else {
        None
    }
}

/// The first line that a command printed, without the white space around it,
/// where the command succeeded and printed anything. The line may be empty.
pub open spec fn printed_line(success: bool, stdout: Seq<char>) -> Option<Seq<char>> {
    if !success {
        None
    } else {
        match first_line(stdout) {
            Some(line) => Some(trimmed(line)),
            None => None,
        }
    }
}

/// Reads the first line of the output of a command that prints one result a line.
pub fn line_from_output(success: bool, stdout: &str) -> (line: Option<String>)
    ensures
        opt_text(line) == printed_line(success, stdout@),
{
    if !success {
        return None;
    }
    let chars = chars_of(stdout);
    if chars.len() == 0 {
        return None;
    }
    assert(chars@.subrange(0, chars.len() as int) == chars@);
    let feed = find_char(&chars, 0, chars.len(), '\n');
    let end = if feed == chars.len() {
        feed
    } else {
        assert(chars@.subrange(0, feed as int) == chars@.take(feed as int));
        line_end(&chars, 0, feed)
    };
    let (a, b) = strip_bounds(&chars, 0, end, Strip::WhiteSpace);
    Some(string_of(&chars, a, b))
}

} // verus!
