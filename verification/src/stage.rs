//! The gallows: what is drawn for a number of mistakes, and the two status
//! lines that go with the drawing.

use vstd::prelude::*;
use crate::output::{lines, write_empty};

verus! {

/// The gallows alone.
pub const EMPTY_GALLOWS: &'static str =
    "\n                    +---+\n                    |   |\n                        |\n                        |\n                        |\n                        |\n                    =========\n                ";

/// The head.
pub const HEAD: &'static str =
    "\n                    +---+\n                    |   |\n                    O   |\n                        |\n                        |\n                        |\n                    =========\n                ";

/// Head and torso.
pub const TORSO: &'static str =
    "\n                    +---+\n                    |   |\n                    O   |\n                    |   |\n                        |\n                        |\n                    =========\n                ";

/// Head, torso and one arm.
pub const ONE_ARM: &'static str =
    "\n                    +---+\n                    |   |\n                    O   |\n                   /|   |\n                        |\n                        |\n                    =========\n                ";

/// Head, torso and both arms.
pub const BOTH_ARMS: &'static str =
    "\n                    +---+\n                    |   |\n                    O   |\n                   /|\\  |\n                        |\n                        |\n                    =========\n                ";

/// Head, torso, both arms and one leg.
pub const ONE_LEG: &'static str =
    "\n                    +---+\n                    |   |\n                    O   |\n                   /|\\  |\n                   /    |\n                        |\n                    =========\n                ";

/// The whole figure: the round is lost.
pub const BOTH_LEGS: &'static str =
    "\n                    +---+\n                    |   |\n                    O   |\n                   /|\\  |\n                   / \\  |\n                        |\n                    =========\n                ";

/// The drawing for `mistakes` wrong guesses. There is one for each count a
/// round can reach, and none beyond.
pub open spec fn frame(mistakes: nat) -> Option<Seq<char>> {
    if mistakes == 0 {
        Some(EMPTY_GALLOWS@)
    } else if mistakes == 1 {
        Some(HEAD@)
    } else if mistakes == 2 {
        Some(TORSO@)
    } else if mistakes == 3 {
        Some(ONE_ARM@)
    } else if mistakes == 4 {
        Some(BOTH_ARMS@)
    } else if mistakes == 5 {
        Some(ONE_LEG@)
    } else if mistakes == 6 {
        Some(BOTH_LEGS@)
    } else {
        None
    }
}

/// The decimal digit for `d`, which is below ten.
pub open spec fn digit(d: nat) -> char {
    if d == 0 {
        '0'
    } else if d == 1 {
        '1'
    } else if d == 2 {
        '2'
    } else if d == 3 {
        '3'
    } else if d == 4 {
        '4'
    } else if d == 5 {
        '5'
    } else if d == 6 {
        '6'
    } else if d == 7 {
        '7'
    } else if d == 8 {
        '8'
    } else {
        '9'
    }
}

/// `n` in decimal, without sign or leading zeros.
pub open spec fn decimal(n: nat) -> Seq<char>
    decreases n,
{
    if n < 10 {
        seq![digit(n)]
    } else {
        decimal(n / 10).push(digit(n % 10))
    }
}

/// How a mask is shown: the text that `{:?}` gives for a slice of
/// characters. It is a function of the characters alone.
pub uninterp spec fn mask_text(masked: Seq<char>) -> Seq<char>;

/// The lines that show one stage of a round, where `mask` is the line that
/// shows the mask: an empty line, the drawing if there is one for this count,
/// the count, and that line.
pub open spec fn stage(mask: Seq<char>, mistakes: nat) -> Seq<Seq<char>> {
    let top = match frame(mistakes) {
        Some(art) => seq![Seq::<char>::empty(), art],
        None => seq![Seq::<char>::empty()],
    };
    top.push("mistakes - "@ + decimal(mistakes)).push(mask)
}

/// The lines that show one stage of a round with the mask `masked`.
pub open spec fn stage_lines(masked: Seq<char>, mistakes: nat) -> Seq<Seq<char>> {
    stage(mask_text(masked), mistakes)
}

/// The drawing for `mistakes`, if there is one.
pub fn drawing(mistakes: usize) -> (art: Option<&'static str>)
    ensures
        match art {
            Some(text) => frame(mistakes as nat) == Some(text@),
            None => frame(mistakes as nat) is None,
        },
{
    if mistakes == 0 {
        Some(EMPTY_GALLOWS)
    } else if mistakes == 1 {
        Some(HEAD)
    } else if mistakes == 2 {
        Some(TORSO)
    } else if mistakes == 3 {
        Some(ONE_ARM)
    } else if mistakes == 4 {
        Some(BOTH_ARMS)
    } else if mistakes == 5 {
        Some(ONE_LEG)
    } else if mistakes == 6 {
        Some(BOTH_LEGS)
    } else {
        None
    }
}

/// The digit for `d` as a text of one character.
fn digit_text(d: usize) -> (text: &'static str)
    requires
        d < 10,
    ensures
        text@ == seq![digit(d as nat)],
{
    proof {
        reveal_strlit("0");
        reveal_strlit("1");
        reveal_strlit("2");
        reveal_strlit("3");
        reveal_strlit("4");
        reveal_strlit("5");
        reveal_strlit("6");
        reveal_strlit("7");
        reveal_strlit("8");
        reveal_strlit("9");
    }
    if d == 0 {
        "0"
    } else if d == 1 {
        "1"
    } else if d == 2 {
        "2"
    } else if d == 3 {
        "3"
    } else if d == 4 {
        "4"
    } else if d == 5 {
        "5"
    } else if d == 6 {
        "6"
    } else if d == 7 {
        "7"
    } else if d == 8 {
        "8"
    } else {
        "9"
    }
}

/// Writes `n` in decimal.
pub fn decimal_text(n: usize) -> (text: String)
    ensures
        text@ == decimal(n as nat),
    decreases n,
{
    if n < 10 {
        digit_text(n).to_owned()
    } else {
        decimal_text(n / 10).concat(digit_text(n % 10))
    }
}

/// Formats the mask with `{:?}`, as std's `Debug` for a slice of `char` does:
/// the result is named by [`mask_text`] and nothing more is claimed of it.
#[verifier::external_body]
fn show_mask(masked: &[char]) -> (text: String)
    ensures
        text@ == mask_text(masked@),
{
    format!("{:?}", masked)
}

/// Appends the lines that show one stage of a round, where `mask` is the
/// line that shows the mask.
pub fn write_stage(out: &mut Vec<String>, mask: &str, mistakes: usize)
    ensures
        lines(final(out)@) == lines(old(out)@) + stage(mask@, mistakes as nat),
{
    write_empty(out);
    match drawing(mistakes) {
        Some(art) => {
            crate::output::writeln(out, art);
        },
        None => {},
    }
    let count = "mistakes - ".to_owned().concat(decimal_text(mistakes).as_str());
    crate::output::writeln(out, count.as_str());
    crate::output::writeln(out, mask);
}

/// Appends the lines that show one stage of a round with the mask `masked`.
pub fn print_stage(out: &mut Vec<String>, masked: &[char], mistakes: usize)
    ensures
        lines(final(out)@) == lines(old(out)@) + stage_lines(masked@, mistakes as nat),
{
    let mask = show_mask(masked);
    write_stage(out, mask.as_str(), mistakes);
}

} // verus!
