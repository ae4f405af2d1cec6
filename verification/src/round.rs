//! One round of the game: a hidden word, the mask that the player sees, and
//! the count of wrong guesses.
//!
//! A round is a state machine. [`start`] makes the first state and shows it;
//! [`Round::guess`] takes one line that the player typed, moves to the next
//! state and shows that. The states are described by [`RoundView`], and every
//! contract in this module is stated over it.

use vstd::prelude::*;
use crate::input::letters_of;
use crate::output::lines;
use crate::stage::{print_stage, stage_lines};

verus! {

/// The placeholder that stands in the mask for a letter not yet found.
pub const MASK: char = '*';

/// The number of wrong guesses at which a round is lost.
pub const LIMIT: usize = 6;

/// How a round ended.
#[derive(Debug, Clone, Copy, PartialEq, Eq, Structural)]
pub enum Outcome {
    /// Every letter of the word was found.
    Won,
    /// The wrong guesses reached [`LIMIT`].
    Lost,
}

/// What became of one guess.
#[derive(Debug, Clone, Copy, PartialEq, Eq, Structural)]
pub enum Verdict {
    /// The round was over already: nothing was read and nothing shown.
    Ignored,
    /// The guess was not exactly one character.
    Invalid,
    /// The letter is not in the word: one more mistake.
    Miss,
    /// The letter is in the word and the mask shows it already.
    Repeated,
    /// The letter is in the word and is now shown wherever it stands.
    Hit,
}

/// `c` in lower case, where `c` is an ASCII capital; any other character is
/// left as it is.
pub open spec fn lowered(c: char) -> char {
    if 'A' <= c && c <= 'Z' {
        ((c as u32) + 32) as char
    } else {
        c
    }
}

/// Whether `a` and `b` are the same letter when ASCII case is ignored.
pub open spec fn same_letter(a: char, b: char) -> bool {
    lowered(a) == lowered(b)
}

/// Whether `letter` stands somewhere in `word`, ASCII case ignored.
pub open spec fn occurs(word: Seq<char>, letter: char) -> bool {
    exists|i: int| 0 <= i < word.len() && same_letter(#[trigger] word[i], letter)
}

/// `mask` with `letter`, in lower case, at every place where `word` has it.
pub open spec fn uncovered(word: Seq<char>, mask: Seq<char>, letter: char) -> Seq<char> {
    Seq::new(
        mask.len(),
        |i: int|
            if same_letter(word[i], letter) {
                lowered(letter)
            } else {
                mask[i]
            },
    )
}

/// The line that closes a won round.
pub open spec fn won_line(word: Seq<char>) -> Seq<char> {
    "That's right, mystery word is "@ + word
}

/// The line that closes a lost round.
pub open spec fn lost_line(word: Seq<char>) -> Seq<char> {
    "You lost, mystery word is "@ + word
}

/// What is said about a guess before the round is shown again.
pub open spec fn notice(verdict: Verdict) -> Seq<Seq<char>> {
    match verdict {
        Verdict::Invalid => seq!["wrong guess"@],
        Verdict::Repeated => seq!["letter already guessed"@],
        _ => Seq::empty(),
    }
}

/// The state of a round.
pub struct RoundView {
    /// The word to be found.
    pub word: Seq<char>,
    /// What the player sees of it.
    pub mask: Seq<char>,
    /// The wrong guesses so far.
    pub mistakes: nat,
}

impl RoundView {
    /// The state in which a round on `word` begins: nothing found, no mistake.
    pub open spec fn fresh(word: Seq<char>) -> RoundView {
        RoundView { word, mask: Seq::new(word.len(), |i: int| MASK), mistakes: 0 }
    }

    /// What holds of every state that a round can reach.
    ///
    /// The mask is as long as the word. Each place of it holds the placeholder
    /// or the word's letter there, in lower case. A letter that is shown at one
    /// place is shown at every place where it stands. The mistakes never pass
    /// [`LIMIT`], and a round that has reached it still has something hidden.
    pub open spec fn valid(self) -> bool {
        &&& self.mask.len() == self.word.len()
        &&& self.mistakes <= LIMIT
        &&& forall|i: int|
            0 <= i < self.mask.len() ==> #[trigger] self.mask[i] == MASK || self.mask[i]
                == lowered(self.word[i])
        &&& forall|i: int, j: int|
            0 <= i < self.mask.len() && 0 <= j < self.mask.len() && #[trigger] self.mask[i] != MASK
                && same_letter(self.word[i], self.word[j]) ==> #[trigger] self.mask[j] == lowered(
                self.word[j],
            )
        &&& self.mistakes == LIMIT ==> self.mask.contains(MASK)
    }

    /// How the round ended, or `None` while it goes on. It is won once the
    /// mask holds no placeholder, and lost once the mistakes reach [`LIMIT`].
    pub open spec fn outcome(self) -> Option<Outcome> {
        if !self.mask.contains(MASK) {
            Some(Outcome::Won)
        } else if self.mistakes >= LIMIT {
            Some(Outcome::Lost)
        } else {
            None
        }
    }

    /// What becomes of `guess` in this state.
    pub open spec fn verdict(self, guess: Seq<char>) -> Verdict {
        if self.outcome() is Some {
            Verdict::Ignored
        } else if guess.len() != 1 {
            Verdict::Invalid
        } else if !occurs(self.word, guess[0]) {
            Verdict::Miss
        } else if self.mask.contains(lowered(guess[0])) {
            Verdict::Repeated
        } else {
            Verdict::Hit
        }
    }

    /// The state that follows this one on `guess`.
    pub open spec fn after(self, guess: Seq<char>) -> RoundView {
        match self.verdict(guess) {
            Verdict::Miss => RoundView { mistakes: self.mistakes + 1, ..self },
            Verdict::Hit => RoundView {
                mask: uncovered(self.word, self.mask, guess[0]),
                ..self
            },
            _ => self,
        }
    }

    /// The lines that show this state: the stage while the round goes on, the
    /// closing line, which gives the word away, once it is over.
    pub open spec fn shown(self) -> Seq<Seq<char>> {
        match self.outcome() {
            None => stage_lines(self.mask, self.mistakes),
            Some(Outcome::Won) => seq![won_line(self.word)],
            Some(Outcome::Lost) => seq![lost_line(self.word)],
        }
    }

    /// The lines that answer `guess`: the notice, if the guess earns one, and
    /// the state that follows. A round that is over answers nothing.
    pub open spec fn answer(self, guess: Seq<char>) -> Seq<Seq<char>> {
        match self.verdict(guess) {
            Verdict::Ignored => Seq::empty(),
            verdict => notice(verdict) + self.after(guess).shown(),
        }
    }
}

/// `c` in lower case, where `c` is an ASCII capital.
pub fn lower(c: char) -> (low: char)
    ensures
        low == lowered(c),
{
    if 'A' <= c && c <= 'Z' {
        let code: u8 = c as u8;
        (code + 32) as char
    } else {
        c
    }
}

/// Whether `c` stands somewhere in `masked`.
fn holds(masked: &Vec<char>, c: char) -> (found: bool)
    ensures
        found == masked@.contains(c),
{
    let mut i: usize = 0;
    while i < masked.len()
        invariant
            i <= masked.len(),
            forall|k: int| 0 <= k < i ==> masked@[k] != c,
        decreases masked.len() - i,
    {
        if masked[i] == c {
            return true;
        }
        i += 1;
    }
    false
}

/// Whether `letter` stands somewhere in `letters`, ASCII case ignored.
fn has_letter(letters: &Vec<char>, letter: char) -> (found: bool)
    ensures
        found == occurs(letters@, letter),
{
    let low = lower(letter);
    let mut i: usize = 0;
    while i < letters.len()
        invariant
            i <= letters.len(),
            low == lowered(letter),
            forall|k: int| 0 <= k < i ==> !same_letter(#[trigger] letters@[k], letter),
        decreases letters.len() - i,
    {
        if lower(letters[i]) == low {
            return true;
        }
        i += 1;
    }
    false
}

/// Shows `letter`, in lower case, at every place of `masked` where `letters`
/// has it.
fn uncover(letters: &Vec<char>, masked: &mut Vec<char>, letter: char)
    requires
        old(masked).len() == letters.len(),
    ensures
        final(masked)@ == uncovered(letters@, old(masked)@, letter),
{
    let low = lower(letter);
    let mut i: usize = 0;
    while i < letters.len()
        invariant
            i <= letters.len(),
            masked.len() == letters.len(),
            old(masked).len() == letters.len(),
            low == lowered(letter),
            forall|k: int|
                0 <= k < i ==> masked@[k] == uncovered(letters@, old(masked)@, letter)[k],
            forall|k: int| i <= k < masked.len() ==> masked@[k] == old(masked)@[k],
        decreases letters.len() - i,
    {
        if lower(letters[i]) == low {
            masked.set(i, low);
        }
        i += 1;
    }
}

/// A round in play.
pub struct Round {
    word: String,
    letters: Vec<char>,
    masked: Vec<char>,
    mistakes: usize,
}

impl View for Round {
    type V = RoundView;

    closed spec fn view(&self) -> RoundView {
        RoundView { word: self.word@, mask: self.masked@, mistakes: self.mistakes as nat }
    }
}

impl Round {
    /// The letters that the round works on are those of its word.
    pub closed spec fn coherent(&self) -> bool {
        self.letters@ == self.word@
    }

    /// What holds of every round that [`start`] made and [`Round::guess`]
    /// moved on.
    pub open spec fn wf(&self) -> bool {
        self.coherent() && self@.valid()
    }

    /// The word to be found.
    pub fn word(&self) -> (word: &String)
        ensures
            word@ == self@.word,
    {
        &self.word
    }

    /// What the player sees of the word.
    pub fn masked(&self) -> (masked: &Vec<char>)
        ensures
            masked@ == self@.mask,
    {
        &self.masked
    }

    /// The wrong guesses so far.
    pub fn mistakes(&self) -> (mistakes: usize)
        ensures
            mistakes == self@.mistakes,
    {
        self.mistakes
    }

    /// How the round ended, or `None` while it goes on.
    pub fn outcome(&self) -> (outcome: Option<Outcome>)
        ensures
            outcome == self@.outcome(),
    {
        if !holds(&self.masked, MASK) {
            Some(Outcome::Won)
        } else if self.mistakes >= LIMIT {
            Some(Outcome::Lost)
        } else {
            None
        }
    }

    /// Appends the lines that show the round as it stands.
    fn show(&self, out: &mut Vec<String>)
        ensures
            lines(final(out)@) == lines(old(out)@) + self@.shown(),
    {
        match self.outcome() {
            None => {
                print_stage(out, self.masked.as_slice(), self.mistakes);
            },
            Some(Outcome::Won) => {
                let line = "That's right, mystery word is ".to_owned().concat(self.word.as_str());
                crate::output::writeln(out, line.as_str());
            },
            Some(Outcome::Lost) => {
                let line = "You lost, mystery word is ".to_owned().concat(self.word.as_str());
                crate::output::writeln(out, line.as_str());
            },
        }
    }

    /// Takes one line that the player typed, moves the round on and appends
    /// to `out` what the player is to see next.
    ///
    /// A guess of anything but one character changes nothing. A letter that
    /// the word does not hold costs one mistake, each time it is guessed. A
    /// letter that the mask shows already changes nothing. Any other letter of
    /// the word is shown, in lower case, wherever the word has it.
    pub fn guess(&mut self, out: &mut Vec<String>, guess: &str) -> (verdict: Verdict)
        requires
            old(self).wf(),
        ensures
            final(self).wf(),
            verdict == old(self)@.verdict(guess@),
            final(self)@ == old(self)@.after(guess@),
            lines(final(out)@) == lines(old(out)@) + old(self)@.answer(guess@),
    {
        if self.outcome().is_some() {
            return Verdict::Ignored;
        }
        let verdict = if guess.unicode_len() != 1 {
            crate::output::writeln(out, "wrong guess");
            Verdict::Invalid
        } else {
            let letter = guess.get_char(0);
            if !has_letter(&self.letters, letter) {
                self.mistakes += 1;
                Verdict::Miss
            } else if holds(&self.masked, lower(letter)) {
                crate::output::writeln(out, "letter already guessed");
                Verdict::Repeated
            } else {
                uncover(&self.letters, &mut self.masked, letter);
                Verdict::Hit
            }
        };
        proof {
            lemma_after_valid(old(self)@, guess@);
        }
        self.show(out);
        verdict
    }
}

/// Begins a round on `word`: nothing is found yet and no mistake made. The
/// first stage is appended to `out`, or the closing line where the word has
/// no letter to find.
pub fn start(out: &mut Vec<String>, word: String) -> (round: Round)
    ensures
        round.wf(),
        round@ == RoundView::fresh(word@),
        lines(final(out)@) == lines(old(out)@) + round@.shown(),
{
    let letters = letters_of(word.as_str());
    let mut masked: Vec<char> = Vec::new();
    let mut i: usize = 0;
    while i < letters.len()
        invariant
            i <= letters.len(),
            masked.len() == i,
            forall|k: int| 0 <= k < i ==> masked@[k] == MASK,
        decreases letters.len() - i,
    {
        masked.push(MASK);
        i += 1;
    }
    assert(masked@ =~= RoundView::fresh(word@).mask);
    let round = Round { word, letters, masked, mistakes: 0 };
    proof {
        lemma_fresh_valid(round@.word);
    }
    round.show(out);
    round
}

/// A round begins in a state that is valid.
pub proof fn lemma_fresh_valid(word: Seq<char>)
    ensures
        RoundView::fresh(word).valid(),
{
    let s = RoundView::fresh(word);
    if s.mistakes == LIMIT {
    }
}

/// A guess leads from a valid state to a valid state, with a mask of the
/// same length.
pub proof fn lemma_after_valid(s: RoundView, guess: Seq<char>)
    requires
        s.valid(),
    ensures
        s.after(guess).valid(),
        s.after(guess).word == s.word,
        s.after(guess).mask.len() == s.word.len(),
{
    let t = s.after(guess);
    if s.verdict(guess) == Verdict::Hit {
        assert forall|i: int, j: int|
            0 <= i < t.mask.len() && 0 <= j < t.mask.len() && #[trigger] t.mask[i] != MASK
                && same_letter(t.word[i], t.word[j]) implies #[trigger] t.mask[j] == lowered(
            t.word[j],
        ) by {
            if !same_letter(s.word[i], guess[0]) {
                assert(s.mask[i] != MASK);
            }
        }
    }
}

} // verus!
