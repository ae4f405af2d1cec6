//! A word-guessing game: the rules, the rendering and the word selection,
//! with every function proved against its contract.
//!
//! The library never touches the console or the file system. Everything it
//! wants shown is appended, line by line, to a `Vec<String>` that the caller
//! writes out; everything it needs read is handed to it as a plain value.

pub mod output;
pub mod stage;
pub mod round;
pub mod play;
pub mod input;
pub mod dictionary;
pub mod error;
pub mod menu;
pub mod hangman;
