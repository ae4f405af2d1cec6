//! The lines that the player types.
//!
//! The caller reads a line from the console and hands it over as it came,
//! terminator and all, or reports that it could not, as an [`InputError`].

use vstd::prelude::*;

verus! {

/// The console could not be read from.
#[derive(Debug, Clone, Copy, PartialEq, Eq, Structural)]
pub struct InputError;

impl InputError {
    /// The name under which this error is reported.
    pub fn describe(&self) -> (text: String)
        ensures
            text@ == "InputError"@,
    {
        "InputError".to_owned()
    }
}

/// The characters of `text`, one by one.
pub fn letters_of(text: &str) -> (letters: Vec<char>)
    ensures
        letters@ == text@,
{
    let mut letters: Vec<char> = Vec::new();
    for c in it: text.chars()
        invariant
            letters@ == it.seq().take(it.index() as int),
    {
        letters.push(c);
    }
    letters
}

/// Whether `c` ends a line: a line feed or a carriage return.
pub open spec fn is_terminator(c: char) -> bool {
    c == '\n' || c == '\r'
}

/// `line` without the terminators at its end.
pub open spec fn trimmed(line: Seq<char>) -> Seq<char>
    decreases line.len(),
{
    if line.len() > 0 && is_terminator(line.last()) {
        trimmed(line.drop_last())
    } else {
        line
    }
}

/// Whether `c` ends a line.
pub fn ends_line(c: char) -> (ends: bool)
    ensures
        ends == is_terminator(c),
{
    c == '\n' || c == '\r'
}

/// Strips the terminators from the end of a line as it was read.
pub fn trim_line(raw: &str) -> (line: &str)
    ensures
        line@ == trimmed(raw@),
{
    let mut end: usize = raw.unicode_len();
    assert(raw@.take(end as int) =~= raw@);
    while end > 0 && ends_line(raw.get_char(end - 1))
        invariant
            end <= raw@.len(),
            trimmed(raw@) == trimmed(raw@.take(end as int)),
        decreases end,
    {
        assert(raw@.take(end as int).drop_last() =~= raw@.take(end - 1));
        end -= 1;
    }
    raw.substring_char(0, end)
}

/// Whether `a` and `b` hold the same characters.
pub fn same_text(a: &str, b: &str) -> (same: bool)
    ensures
        same == (a@ == b@),
{
    let left = letters_of(a);
    let right = letters_of(b);
    if left.len() != right.len() {
        return false;
    }
    let mut i: usize = 0;
    while i < left.len()
        invariant
            i <= left.len(),
            left.len() == right.len(),
            left@ == a@,
            right@ == b@,
            forall|k: int| 0 <= k < i ==> left@[k] == right@[k],
        decreases left.len() - i,
    {
        if left[i] != right[i] {
            return false;
        }
        i += 1;
    }
    assert(left@ =~= right@);
    true
}

} // verus!
