//! Whole rounds: what a sequence of guesses leads to, and what is certain of
//! it before a single guess is made.

use vstd::prelude::*;
use crate::round::{
    lemma_after_valid, lemma_fresh_valid, lowered, occurs, same_letter, Outcome, RoundView,
    Verdict, LIMIT, MASK,
};

verus! {

/// The state that `guesses`, taken in order, lead to from `s`. Guesses that
/// come after the round is over change nothing.
pub open spec fn play(s: RoundView, guesses: Seq<Seq<char>>) -> RoundView
    decreases guesses.len(),
{
    if guesses.len() == 0 {
        s
    } else {
        play(s.after(guesses[0]), guesses.drop_first())
    }
}

/// Whether `guess` is one character that `word` does not hold.
pub open spec fn is_miss(word: Seq<char>, guess: Seq<char>) -> bool {
    guess.len() == 1 && !occurs(word, guess[0])
}

/// How many of `guesses` are one character that `word` does not hold. A
/// letter guessed twice counts twice.
pub open spec fn misses(word: Seq<char>, guesses: Seq<Seq<char>>) -> nat
    decreases guesses.len(),
{
    if guesses.len() == 0 {
        0
    } else if is_miss(word, guesses[0]) {
        1 + misses(word, guesses.drop_first())
    } else {
        misses(word, guesses.drop_first())
    }
}

/// Whether one of `guesses` is the single letter `letter`, ASCII case
/// ignored.
pub open spec fn guessed(guesses: Seq<Seq<char>>, letter: char) -> bool {
    exists|k: int|
        0 <= k < guesses.len() && (#[trigger] guesses[k]).len() == 1 && same_letter(
            letter,
            guesses[k][0],
        )
}

/// Lowering the case neither makes nor unmakes the placeholder.
proof fn lemma_lowered_mask(c: char)
    ensures
        lowered(c) == MASK <==> c == MASK,
{
}

/// A letter that is among the guesses, and is not the first of them, is
/// among the rest.
proof fn lemma_guessed_later(guesses: Seq<Seq<char>>, letter: char)
    requires
        guesses.len() > 0,
        guessed(guesses, letter),
        !(guesses[0].len() == 1 && same_letter(letter, guesses[0][0])),
    ensures
        guessed(guesses.drop_first(), letter),
{
    let k = choose|k: int|
        0 <= k < guesses.len() && (#[trigger] guesses[k]).len() == 1 && same_letter(
            letter,
            guesses[k][0],
        );
    let rest = guesses.drop_first();
    assert(rest[k - 1] == guesses[k]);
}

/// Every state that a sequence of guesses leads to is valid, for the same
/// word, with a mask as long as the word.
pub proof fn lemma_play_valid(s: RoundView, guesses: Seq<Seq<char>>)
    requires
        s.valid(),
    ensures
        play(s, guesses).valid(),
        play(s, guesses).word == s.word,
        play(s, guesses).mask.len() == s.word.len(),
    decreases guesses.len(),
{
    if guesses.len() > 0 {
        lemma_after_valid(s, guesses[0]);
        lemma_play_valid(s.after(guesses[0]), guesses.drop_first());
    }
}

/// From any state of a round on a word without the placeholder: the round
/// is won when every letter still hidden is among the guesses to come and
/// the misses to come leave the mistakes below the limit.
proof fn lemma_found_letters_win(s: RoundView, guesses: Seq<Seq<char>>)
    requires
        s.valid(),
        !s.word.contains(MASK),
        s.mistakes + misses(s.word, guesses) < LIMIT,
        forall|i: int|
            0 <= i < s.mask.len() && #[trigger] s.mask[i] == MASK ==> guessed(guesses, s.word[i]),
    ensures
        play(s, guesses).outcome() == Some(Outcome::Won),
        play(s, guesses).word == s.word,
    decreases guesses.len(),
{
    if guesses.len() > 0 {
        let first = guesses[0];
        let rest = guesses.drop_first();
        let t = s.after(first);
        lemma_after_valid(s, first);
        assert forall|i: int| 0 <= i < t.mask.len() && #[trigger] t.mask[i] == MASK implies guessed(
            rest,
            t.word[i],
        ) by {
            lemma_lowered_mask(s.word[i]);
            if s.verdict(first) == Verdict::Hit {
                lemma_lowered_mask(first[0]);
            }
            lemma_guessed_later(guesses, s.word[i]);
        }
        lemma_found_letters_win(t, rest);
    }
}

/// From any state with something hidden: misses that fill the mistakes up to
/// the limit lose the round and uncover nothing.
proof fn lemma_misses_lose(s: RoundView, guesses: Seq<Seq<char>>)
    requires
        s.valid(),
        s.mask.contains(MASK),
        s.mistakes + guesses.len() == LIMIT,
        forall|k: int| 0 <= k < guesses.len() ==> is_miss(s.word, #[trigger] guesses[k]),
    ensures
        play(s, guesses) == (RoundView { mistakes: LIMIT as nat, ..s }),
        play(s, guesses).outcome() == Some(Outcome::Lost),
    decreases guesses.len(),
{
    if guesses.len() > 0 {
        let rest = guesses.drop_first();
        let t = s.after(guesses[0]);
        lemma_after_valid(s, guesses[0]);
        assert forall|k: int| 0 <= k < rest.len() implies is_miss(t.word, #[trigger] rest[k]) by {
            assert(rest[k] == guesses[k + 1]);
        }
        lemma_misses_lose(t, rest);
    }
}

/// A round is won, and ends on the word it began with, whenever every letter
/// of the word is among the guesses and fewer than [`LIMIT`] of the guesses
/// are misses. The order of the guesses does not matter, nor does their case,
/// nor what else is guessed in between.
///
/// A word that holds the placeholder itself is left out: its mask never loses
/// the placeholder, so such a round cannot be won.
pub proof fn law_found_letters_win(word: Seq<char>, guesses: Seq<Seq<char>>)
    requires
        !word.contains(MASK),
        forall|i: int| 0 <= i < word.len() ==> guessed(guesses, #[trigger] word[i]),
        misses(word, guesses) < LIMIT,
    ensures
        play(RoundView::fresh(word), guesses).outcome() == Some(Outcome::Won),
        play(RoundView::fresh(word), guesses).word == word,
{
    lemma_fresh_valid(word);
    lemma_found_letters_win(RoundView::fresh(word), guesses);
}

/// Six guesses of letters that the word does not hold lose the round, with
/// six mistakes and nothing uncovered, whether the six letters differ or not.
///
/// The empty word is left out: a round on it is won before the first guess.
pub proof fn law_six_misses_lose(word: Seq<char>, guesses: Seq<Seq<char>>)
    requires
        word.len() > 0,
        guesses.len() == LIMIT,
        forall|k: int| 0 <= k < guesses.len() ==> is_miss(word, #[trigger] guesses[k]),
    ensures
        play(RoundView::fresh(word), guesses).outcome() == Some(Outcome::Lost),
        play(RoundView::fresh(word), guesses).mistakes == LIMIT,
        play(RoundView::fresh(word), guesses).mask == RoundView::fresh(word).mask,
{
    let s = RoundView::fresh(word);
    lemma_fresh_valid(word);
    assert(s.mask[0] == MASK);
    lemma_misses_lose(s, guesses);
}

/// A round ends in one way only. It is won exactly when nothing is hidden
/// any more, lost exactly when the mistakes have reached [`LIMIT`], and the
/// two never hold together.
pub proof fn law_one_outcome(s: RoundView)
    requires
        s.valid(),
    ensures
        s.outcome() == Some(Outcome::Won) <==> !s.mask.contains(MASK),
        s.outcome() == Some(Outcome::Lost) <==> s.mistakes == LIMIT,
        !(!s.mask.contains(MASK) && s.mistakes == LIMIT),
{
}

/// Whatever is guessed, the mask stays as long as the word.
pub proof fn law_mask_keeps_length(word: Seq<char>, guesses: Seq<Seq<char>>)
    ensures
        play(RoundView::fresh(word), guesses).mask.len() == word.len(),
        play(RoundView::fresh(word), guesses).valid(),
{
    lemma_fresh_valid(word);
    lemma_play_valid(RoundView::fresh(word), guesses);
}

/// A letter of the word that is guessed again right away changes nothing the
/// second time, and, if the round still goes on, is answered with the notice
/// for a letter guessed already.
pub proof fn law_second_hit_changes_nothing(s: RoundView, letter: char)
    requires
        s.valid(),
        occurs(s.word, letter),
    ensures
        ({
            let guess = seq![letter];
            let t = s.after(guess);
            &&& t.after(guess) == t
            &&& t.outcome() is None ==> t.verdict(guess) == Verdict::Repeated
        }),
{
    let guess = seq![letter];
    let t = s.after(guess);
    if t.outcome() is None {
        if s.verdict(guess) == Verdict::Hit {
            let i = choose|i: int| 0 <= i < s.word.len() && same_letter(#[trigger] s.word[i], letter);
            assert(t.mask[i] == lowered(letter));
        }
    }
}

/// A letter that the word does not hold costs a mistake each time it is
/// guessed: guessed twice in a row, it costs two.
///
/// This is said of a round that goes on and has room for two mistakes. With
/// five mistakes made, the first of the two guesses ends the round and the
/// second is not taken.
pub proof fn law_second_miss_counts(s: RoundView, letter: char)
    requires
        s.valid(),
        s.outcome() is None,
        s.mistakes + 2 <= LIMIT,
        !occurs(s.word, letter),
    ensures
        ({
            let guess = seq![letter];
            &&& s.after(guess).mistakes == s.mistakes + 1
            &&& s.after(guess).after(guess).mistakes == s.mistakes + 2
            &&& s.after(guess).after(guess).mask == s.mask
        }),
{
}

} // verus!
