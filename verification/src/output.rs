//! The lines that the game wants written to the console.
//!
//! A `Vec<String>` stands for the console: each entry is one line, in the
//! order in which it has to appear. The caller writes the entries out, each
//! followed by a line terminator, and reports a failure to do so as an
//! [`OutputError`].

use vstd::prelude::*;

verus! {

/// The console could not be written to.
#[derive(Debug, Clone, Copy, PartialEq, Eq, Structural)]
pub struct OutputError;

impl OutputError {
    /// The name under which this error is reported.
    pub fn describe(&self) -> (text: String)
        ensures
            text@ == "OutputError"@,
    {
        "OutputError".to_owned()
    }
}

/// What the lines of `out` hold, character by character.
pub open spec fn lines(out: Seq<String>) -> Seq<Seq<char>> {
    Seq::new(out.len(), |i: int| out[i]@)
}

/// Appends `data` as one more line.
pub fn writeln(out: &mut Vec<String>, data: &str)
    ensures
        lines(final(out)@) == lines(old(out)@).push(data@),
{
    out.push(data.to_owned());
}

/// Appends an empty line.
pub fn write_empty(out: &mut Vec<String>)
    ensures
        lines(final(out)@) == lines(old(out)@).push(Seq::<char>::empty()),
{
    proof {
        reveal_strlit("");
    }
    writeln(out, "");
    assert(""@ =~= Seq::<char>::empty());
}

} // verus!
