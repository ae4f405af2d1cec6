//! The one error type of the game: whatever ends a session early.

use vstd::prelude::*;
use crate::dictionary::DictionaryError;
use crate::input::InputError;
use crate::output::OutputError;

verus! {

/// What ended the session. No error is retried: each one ends it at once.
#[derive(Debug, Clone, Copy, PartialEq, Eq, Structural)]
pub enum GameError {
    /// No word could be taken from the dictionary.
    Dictionary(DictionaryError),
    /// The console could not be read from.
    Input(InputError),
    /// The console could not be written to.
    Output(OutputError),
}

impl GameError {
    /// The name under which this error is reported: that of the error it
    /// holds.
    pub fn describe(&self) -> (text: String)
        ensures
            text@ == match *self {
                GameError::Dictionary(DictionaryError::NotFound) => "DictionaryNotFound"@,
                GameError::Dictionary(DictionaryError::WrongFormat) => "WrongDictionaryFormat"@,
                GameError::Dictionary(DictionaryError::ReadError) => "ReadDictionaryError"@,
                GameError::Input(_) => "InputError"@,
                GameError::Output(_) => "OutputError"@,
            },
    {
        match self {
            GameError::Dictionary(e) => e.describe(),
            GameError::Input(e) => e.describe(),
            GameError::Output(e) => e.describe(),
        }
    }
}

} // verus!
