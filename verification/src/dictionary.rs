//! The dictionary: a count on the first line, then one word on each line,
//! and the choice of one of the words at random.
//!
//! The caller reads the file line by line and hands over, as a [`Source`],
//! the lines as they came. Every function here is a function of that value,
//! but for the one draw of a random number.

use rand::Rng;
use vstd::prelude::*;
use crate::input::{letters_of, trim_line, trimmed};

verus! {

/// Why no word could be taken from the dictionary.
#[derive(Debug, Clone, Copy, PartialEq, Eq, Structural)]
pub enum DictionaryError {
    /// The dictionary could not be opened.
    NotFound,
    /// The first line is not a count of at least one word.
    WrongFormat,
    /// A line that was needed could not be read.
    ReadError,
}

impl DictionaryError {
    /// The name under which this error is reported.
    pub fn describe(&self) -> (text: String)
        ensures
            text@ == match *self {
                DictionaryError::NotFound => "DictionaryNotFound"@,
                DictionaryError::WrongFormat => "WrongDictionaryFormat"@,
                DictionaryError::ReadError => "ReadDictionaryError"@,
            },
    {
        match self {
            DictionaryError::NotFound => "DictionaryNotFound".to_owned(),
            DictionaryError::WrongFormat => "WrongDictionaryFormat".to_owned(),
            DictionaryError::ReadError => "ReadDictionaryError".to_owned(),
        }
    }
}

/// What reading the dictionary gave.
pub enum Source {
    /// It could not be opened.
    Missing,
    /// These lines, each as it was read, and then the end of the file.
    Lines(Vec<String>),
    /// These lines, each as it was read, and then a failure to read on.
    Broken(Vec<String>),
}

impl Source {
    /// What reading line `n`, counted from zero, gives: the line without its
    /// terminators. Past the end of the file every line is empty; past a
    /// failure there is none.
    pub open spec fn line(&self, n: int) -> Result<Seq<char>, DictionaryError> {
        match self {
            Source::Missing => Err(DictionaryError::NotFound),
            Source::Lines(lines) => if 0 <= n < lines.len() {
                Ok(trimmed(lines[n]@))
            } else {
                Ok(Seq::empty())
            },
            Source::Broken(lines) => if 0 <= n < lines.len() {
                Ok(trimmed(lines[n]@))
            } else {
                Err(DictionaryError::ReadError)
            },
        }
    }

    /// The count that the first line gives.
    pub open spec fn words(&self) -> Result<int, DictionaryError> {
        match self.line(0) {
            Err(e) => Err(e),
            Ok(line) => match count(line) {
                Some(n) => Ok(n),
                None => Err(DictionaryError::WrongFormat),
            },
        }
    }

    /// The word at `index`, counted from zero, among the lines that follow
    /// the count.
    pub open spec fn word(&self, index: int) -> Result<Seq<char>, DictionaryError> {
        self.line(index + 1)
    }

    /// Reads line `n`, counted from zero.
    pub fn read(&self, n: usize) -> (line: Result<&str, DictionaryError>)
        ensures
            match line {
                Ok(text) => self.line(n as int) == Ok::<Seq<char>, DictionaryError>(text@),
                Err(e) => self.line(n as int) == Err::<Seq<char>, DictionaryError>(e),
            },
    {
        match self {
            Source::Missing => Err(DictionaryError::NotFound),
            Source::Lines(lines) => {
                if n < lines.len() {
                    Ok(trim_line(lines[n].as_str()))
                } else {
                    proof {
                        reveal_strlit("");
                    }
                    assert(""@ =~= Seq::<char>::empty());
                    Ok("")
                }
            },
            Source::Broken(lines) => {
                if n < lines.len() {
                    Ok(trim_line(lines[n].as_str()))
                } else {
                    Err(DictionaryError::ReadError)
                }
            },
        }
    }
}

/// Whether `c` is a decimal digit.
pub open spec fn is_digit(c: char) -> bool {
    '0' <= c && c <= '9'
}

/// Whether `digits` holds decimal digits only.
pub open spec fn all_digits(digits: Seq<char>) -> bool {
    forall|i: int| 0 <= i < digits.len() ==> is_digit(#[trigger] digits[i])
}

/// The number that a sequence of decimal digits stands for.
pub open spec fn number(digits: Seq<char>) -> int
    decreases digits.len(),
{
    if digits.len() == 0 {
        0
    } else {
        number(digits.drop_last()) * 10 + (digits.last() as int - '0' as int)
    }
}

/// The part of `line` that has to be digits: all of it, but for a `+` at its
/// start.
pub open spec fn unsigned(line: Seq<char>) -> Seq<char> {
    if line.len() > 0 && line[0] == '+' {
        line.drop_first()
    } else {
        line
    }
}

/// The count that `line` states: one or more decimal digits, with or without
/// a `+` before them, that stand for a number from 1 to `i32::MAX`. Any
/// other line states none.
pub open spec fn count(line: Seq<char>) -> Option<int> {
    let digits = unsigned(line);
    if digits.len() > 0 && all_digits(digits) && 0 < number(digits) <= i32::MAX {
        Some(number(digits))
    } else {
        None
    }
}

/// The number of a prefix of digits is not above the number of them all.
proof fn lemma_number_grows(digits: Seq<char>, k: int)
    requires
        0 <= k <= digits.len(),
        all_digits(digits),
    ensures
        0 <= number(digits.take(k)) <= number(digits),
    decreases digits.len() - k,
{
    lemma_number_not_negative(digits.take(k));
    if k < digits.len() {
        assert(digits.take(k + 1).drop_last() =~= digits.take(k));
        lemma_number_grows(digits, k + 1);
    } else {
        assert(digits.take(k) =~= digits);
    }
}

/// Digits stand for a number that is not negative.
proof fn lemma_number_not_negative(digits: Seq<char>)
    requires
        all_digits(digits),
    ensures
        0 <= number(digits),
    decreases digits.len(),
{
    if digits.len() > 0 {
        lemma_number_not_negative(digits.drop_last());
    }
}

/// Reads the count that `line` states, if it states one.
pub fn parse_count(line: &str) -> (words: Option<i32>)
    ensures
        match words {
            Some(n) => count(line@) == Some(n as int),
            None => count(line@) is None,
        },
{
    let letters = letters_of(line);
    let start: usize = if letters.len() > 0 && letters[0] == '+' {
        1
    } else {
        0
    };
    let ghost digits = unsigned(line@);
    assert(digits =~= letters@.skip(start as int));
    if start == letters.len() {
        return None;
    }
    let mut total: u64 = 0;
    let mut i: usize = start;
    while i < letters.len()
        invariant
            start <= i <= letters.len(),
            digits == unsigned(line@),
            digits == letters@.skip(start as int),
            forall|k: int| 0 <= k < i - start ==> is_digit(#[trigger] digits[k]),
            total == number(digits.take(i - start)),
            total <= i32::MAX,
        decreases letters.len() - i,
    {
        let c = letters[i];
        assert(c == digits[i - start]);
        if c < '0' || c > '9' {
            return None;
        }
        assert(digits.take(i - start + 1).drop_last() =~= digits.take(i - start));
        total = total * 10 + ((c as u8) - 48) as u64;
        if total > 2147483647 {
            proof {
                if all_digits(digits) {
                    lemma_number_grows(digits, i - start + 1);
                }
            }
            return None;
        }
        i += 1;
    }
    assert(digits.take(i - start) =~= digits);
    if total == 0 {
        None
    } else {
        Some(total as i32)
    }
}

/// Reads the count of words from the first line.
///
/// The count is owed whenever the first line was read and states one. The
/// error is `NotFound` for a dictionary that could not be opened, `ReadError`
/// where not even the first line could be read, and `WrongFormat` for a first
/// line that states no count of at least one word.
pub fn word_count(source: &Source) -> (words: Result<i32, DictionaryError>)
    ensures
        match words {
            Ok(n) => source.words() == Ok::<int, DictionaryError>(n as int) && n > 0,
            Err(e) => source.words() == Err::<int, DictionaryError>(e),
        },
{
    match source.read(0) {
        Err(e) => Err(e),
        Ok(line) => match parse_count(line) {
            Some(n) => Ok(n),
            None => Err(DictionaryError::WrongFormat),
        },
    }
}

/// Takes the word at `index`, counted from zero, among the lines that follow
/// the count.
///
/// A line past the end of the file gives the empty word. A line that could
/// not be read gives `ReadError`, and a dictionary that could not be opened
/// `NotFound`.
pub fn pick(source: &Source, index: usize) -> (word: Result<String, DictionaryError>)
    ensures
        gives(word, source.word(index as int)),
{
    let line = if index < usize::MAX {
        source.read(index + 1)
    } else {
        source.read(index)
    };
    match line {
        Ok(text) => Ok(text.to_owned()),
        Err(e) => Err(e),
    }
}

/// Whether `word` is what `expected` describes.
pub open spec fn gives(
    word: Result<String, DictionaryError>,
    expected: Result<Seq<char>, DictionaryError>,
) -> bool {
    match word {
        Ok(text) => expected == Ok::<Seq<char>, DictionaryError>(text@),
        Err(e) => expected == Err::<Seq<char>, DictionaryError>(e),
    }
}

/// Draws a number with `rand::thread_rng` and `Rng::gen_range` on the range
/// `0..words`. Of the number drawn only its bounds are claimed: it is at
/// least 0 and below `words`. The range must not be empty, since `gen_range`
/// panics on an empty one. `thread_rng` panics where the system gives it no
/// seed, which no argument decides.
#[verifier::external_body]
fn choose_number(words: i32) -> (chosen: i32)
    requires
        0 < words,
    ensures
        0 <= chosen < words,
{
    let mut rng = rand::thread_rng();
    rng.gen_range(0..words)
}

/// Takes a word from the dictionary at random.
///
/// Where the first line gives a count, one of the words at the indices below
/// that count is taken, and which one is left to chance. Where it gives none,
/// the error is that of [`word_count`], and nothing is drawn.
pub fn next_word(source: &Source) -> (word: Result<String, DictionaryError>)
    ensures
        match source.words() {
            Ok(n) => exists|index: int| 0 <= index < n && gives(word, #[trigger] source.word(index)),
            Err(e) => word == Err::<String, DictionaryError>(e),
        },
{
    match word_count(source) {
        Err(e) => Err(e),
        Ok(words) => {
            let chosen = choose_number(words);
            pick(source, chosen as usize)
        },
    }
}

} // verus!
