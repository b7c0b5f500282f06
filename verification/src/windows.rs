//! Source resolution on Windows: the name of the application in front.
//!
//! The caller finds the window in front and the executable behind it, and asks
//! the shell for the display name of that executable. Here the name is read
//! out of the shell's buffer, and where the shell gave none it is derived from
//! the path of the executable.

use crate::source::placeholder_name;
use crate::text::{chars_of, string_of};
use vstd::prelude::*;
use vstd::string::*;

verus! {

/// The text that the UTF-16 code units `units` decode to, with the replacement
/// character in place of every unit that is not part of a valid encoding.
pub uninterp spec fn utf16_lossy(units: Seq<u16>) -> Seq<char>;

/// `String::from_utf16_lossy`: decodes UTF-16, replacing invalid data with the
/// replacement character. Nothing is claimed about the text but that the units
/// determine it.
#[verifier::external_body]
pub(crate) fn decode_utf16_lossy(units: &Vec<u16>) -> (text: String)
    ensures
        text@ == utf16_lossy(units@),
{
    String::from_utf16_lossy(units)
}

/// The position of the first zero in `units`, or the length where there is none.
pub open spec fn terminator(units: Seq<u16>) -> int
    decreases units.len(),
{
    if units.len() == 0 || units.first() == 0 {
        0
    } else {
        1 + terminator(units.drop_first())
    }
}

/// `terminator` is the least position that holds a zero, and the length where
/// none does.
pub proof fn lemma_terminator(units: Seq<u16>)
    ensures
        0 <= terminator(units) <= units.len(),
        forall|j: int| 0 <= j < terminator(units) ==> units[j] != 0,
        terminator(units) < units.len() ==> units[terminator(units)] == 0,
    decreases units.len(),
{
    if units.len() == 0 || units.first() == 0 {
    } else {
        let rest = units.drop_first();
        lemma_terminator(rest);
        assert forall|j: int| 0 <= j < terminator(units) implies units[j] != 0 by {
            if j > 0 {
                assert(units[j] == rest[j - 1]);
            }
        }
    }
}

/// A position that holds a zero, or the length, with no zero before it is the terminator.
pub proof fn lemma_terminator_is(units: Seq<u16>, at: int)
    requires
        0 <= at <= units.len(),
        forall|j: int| 0 <= j < at ==> units[j] != 0,
        at < units.len() ==> units[at] == 0,
    ensures
        terminator(units) == at,
{
    lemma_terminator(units);
    let k = terminator(units);
    if k < at {
        assert(units[k] != 0);
    } else if at < k {
        assert(units[at] != 0);
    }
}

/// The code units of the text in a zero-terminated buffer: those before the
/// first zero. A buffer without a zero holds no text.
pub open spec fn terminated(buffer: Seq<u16>) -> Option<Seq<u16>> {
    if terminator(buffer) == buffer.len() {
        None
    } else {
        Some(buffer.take(terminator(buffer)))
    }
}

/// The units of an optional buffer.
pub open spec fn opt_units(units: Option<Vec<u16>>) -> Option<Seq<u16>> {
    match units {
        Some(u) => Some(u@),
        None => None,
    }
}

/// The code units before the first zero of `buffer`, or `None` where it holds
/// no zero.
pub fn terminated_units(buffer: &Vec<u16>) -> (units: Option<Vec<u16>>)
    ensures
        opt_units(units) == terminated(buffer@),
{
    let mut units: Vec<u16> = Vec::new();
    let mut i: usize = 0;
    while i < buffer.len() && buffer[i] != 0
        invariant
            i <= buffer.len(),
            units@ == buffer@.take(i as int),
            forall|j: int| 0 <= j < i ==> buffer@[j] != 0,
        decreases buffer.len() - i,
    {
        units.push(buffer[i]);
        assert(buffer@.take(i + 1) == buffer@.take(i as int).push(buffer@[i as int]));
        i += 1;
    }
    proof {
        lemma_terminator_is(buffer@, i as int);
    }
    if i == buffer.len() {
        None
    } else {
        Some(units)
    }
}

/// The display name that the shell gave: the text in its buffer, or the empty
/// text where the shell gave no buffer or the buffer is not terminated.
pub open spec fn shell_name(buffer: Option<Seq<u16>>) -> Seq<char> {
    match buffer {
        Some(b) => match terminated(b) {
            Some(units) => utf16_lossy(units),
            None => Seq::empty(),
        },
        None => Seq::empty(),
    }
}

/// Whether `c` parts the components of a path.
pub open spec fn is_separator(c: char) -> bool {
    c == '\\' || c == '/'
}

/// The position of the last separator in `path`, or -1 where it holds none.
pub open spec fn last_separator(path: Seq<char>) -> int
    decreases path.len(),
{
    if path.len() == 0 {
        -1
    } else if is_separator(path.last()) {
        path.len() - 1
    } else {
        last_separator(path.drop_last())
    }
}

/// The position of the last dot in `name`, or -1 where it holds none.
pub open spec fn last_dot(name: Seq<char>) -> int
    decreases name.len(),
{
    if name.len() == 0 {
        -1
    } else if name.last() == '.' {
        name.len() - 1
    } else {
        last_dot(name.drop_last())
    }
}

/// The name of the file that `path` leads to: what stands after its last separator.
pub open spec fn exe_file_name(path: Seq<char>) -> Seq<char> {
    path.skip(last_separator(path) + 1)
}

/// The stem of the file that `path` leads to: its name up to the last dot, or
/// the whole name where it has no dot or its only dot comes first. There is
/// none where the name is empty, `.` or `..`.
pub open spec fn file_stem(path: Seq<char>) -> Option<Seq<char>> {
    let name = exe_file_name(path);
    if name.len() == 0 || name == "."@ || name == ".."@ {
        None
    } else if last_dot(name) <= 0 {
        Some(name)
    } else {
        Some(name.take(last_dot(name)))
    }
}

/// The name of the application whose executable is at `exe_path` and for which
/// the shell filled `buffer` with a display name, if it gave one: the shell's
/// name where it is not empty, else the stem of the executable, else the
/// placeholder name.
pub open spec fn application_name(buffer: Option<Seq<u16>>, exe_path: Seq<char>) -> Seq<char> {
    if shell_name(buffer).len() > 0 {
        shell_name(buffer)
    } else {
        match file_stem(exe_path) {
            Some(stem) => stem,
            None => placeholder_name(),
        }
    }
}

/// The stem of the file that `path` leads to.
pub fn stem_of(path: &str) -> (stem: Option<String>)
    ensures
        crate::source::opt_text(stem) == file_stem(path@),
{
    let chars = chars_of(path);
    let n = chars.len();
    let mut from: usize = n;
    assert(chars@.take(n as int) == chars@);
    while from > 0 && chars[from - 1] != '\\' && chars[from - 1] != '/'
        invariant
            from <= n,
            n == chars.len(),
            last_separator(chars@) == last_separator(chars@.take(from as int)),
        decreases from,
    {
        assert(chars@.take(from as int).drop_last() == chars@.take(from - 1));
        from -= 1;
    }
    proof {
        assert(chars@.take(n as int) == chars@);
        assert(from == last_separator(chars@) + 1) by {
            if from > 0 {
                assert(chars@.take(from as int).last() == chars@[from - 1]);
            }
        }
        reveal_strlit(".");
        reveal_strlit("..");
    }
    let ghost name = exe_file_name(path@);
    assert(name == chars@.subrange(from as int, n as int));
    if from == n {
        return None;
    }
    if n - from == 1 && chars[from] == '.' {
        assert(name =~= "."@);
        return None;
    }
    if n - from == 2 && chars[from] == '.' && chars[from + 1] == '.' {
        assert(name =~= ".."@);
        return None;
    }
    assert(name != "."@ && name != ".."@) by {
        if name == "."@ {
            assert(name.len() == 1 && name[0] == '.');
        }
        if name == ".."@ {
            assert(name.len() == 2 && name[0] == '.' && name[1] == '.');
        }
    }
    let mut dot: usize = n;
    while dot > from && chars[dot - 1] != '.'
        invariant
            from <= dot <= n,
            n == chars.len(),
            name == chars@.subrange(from as int, n as int),
            last_dot(name) == last_dot(chars@.subrange(from as int, dot as int)),
        decreases dot,
    {
        assert(chars@.subrange(from as int, dot as int).drop_last() == chars@.subrange(
            from as int,
            dot - 1,
        ));
        dot -= 1;
    }
    assert(dot - from == last_dot(name) + 1) by {
        if dot > from {
            assert(chars@.subrange(from as int, dot as int).last() == chars@[dot - 1]);
        }
    }
    if dot - from <= 1 {
        assert(name == chars@.subrange(from as int, n as int));
        Some(string_of(&chars, from, n))
    } else {
        assert(name.take(last_dot(name)) == chars@.subrange(from as int, dot - 1));
        Some(string_of(&chars, from, dot - 1))
    }
}

/// The name of the application in front.
///
/// `buffer` is the buffer that the shell filled with the display name of the
/// executable, `None` where the shell failed; `exe_path` is the path of the
/// executable.
pub fn frontmost_name(buffer: Option<&Vec<u16>>, exe_path: &str) -> (name: String)
    ensures
        name@ == application_name(
            match buffer {
                Some(b) => Some(b@),
                None => None,
            },
            exe_path@,
        ),
{
    let shell = match buffer {
        Some(b) => match terminated_units(b) {
            Some(units) => decode_utf16_lossy(&units),
            None => String::new(),
        },
        None => String::new(),
    };
    if shell.as_str().unicode_len() > 0 {
        return shell;
    }
    match stem_of(exe_path) {
        Some(stem) => stem,
        None => String::from_str("App"),
    }
}

} // verus!
