//! The menu: from it the player starts rounds, one after another, or leaves.
//!
//! The menu is a state machine that spans the whole session. It says what it
//! waits for, a line from the console or a word from the dictionary; the
//! caller fetches that and hands it over, and the menu moves on and appends
//! to the output what is to be shown before the next thing is fetched.

use vstd::prelude::*;
use crate::error::GameError;
use crate::input::{same_text, trim_line, trimmed};
use crate::output::lines;
use crate::round::{Round, RoundView};

verus! {

/// The command that starts a round.
pub const START: &'static str = "S";

/// The command that leaves the menu.
pub const EXIT: &'static str = "E";

/// What a line typed at the menu asks for.
#[derive(Debug, Clone, Copy, PartialEq, Eq, Structural)]
pub enum Command {
    /// To start a round.
    Start,
    /// To leave.
    Exit,
    /// Nothing: the line is no command.
    Other,
}

/// What the menu waits for.
#[derive(Debug, Clone, Copy, PartialEq, Eq, Structural)]
pub enum Request {
    /// A line from the console: hand it to [`Menu::line`].
    Line,
    /// A word from the dictionary: hand it to [`Menu::word`].
    Word,
    /// Nothing more: the session is over.
    Nothing,
}

/// The command that `line` stands for. Commands are told apart exactly, case
/// and all.
pub open spec fn command(line: Seq<char>) -> Command {
    if line == START@ {
        Command::Start
    } else if line == EXIT@ {
        Command::Exit
    } else {
        Command::Other
    }
}

/// The lines that list the commands.
pub open spec fn options() -> Seq<Seq<char>> {
    seq![
        Seq::<char>::empty(),
        "Menu options:"@,
        "   ["@ + START@ + "] - to start new round"@,
        "   ["@ + EXIT@ + "] - to exit from menu"@,
    ]
}

/// The state of the menu.
pub enum MenuView {
    /// It waits for a command.
    Prompt,
    /// A round was asked for and its word is awaited.
    Loading,
    /// A round is on and a guess is awaited.
    Playing(RoundView),
    /// The player has left.
    Closed,
    /// An error has ended the session.
    Failed(GameError),
}

impl MenuView {
    /// What holds of every state that the menu can reach: a round that it
    /// holds is valid and not yet over.
    pub open spec fn valid(self) -> bool {
        match self {
            MenuView::Playing(round) => round.valid() && round.outcome() is None,
            _ => true,
        }
    }

    /// What the menu waits for in this state.
    pub open spec fn awaits(self) -> Request {
        match self {
            MenuView::Prompt | MenuView::Playing(_) => Request::Line,
            MenuView::Loading => Request::Word,
            MenuView::Closed | MenuView::Failed(_) => Request::Nothing,
        }
    }

    /// How the session ended, or `None` while it goes on.
    pub open spec fn result(self) -> Option<Result<(), GameError>> {
        match self {
            MenuView::Closed => Some(Ok(())),
            MenuView::Failed(error) => Some(Err(error)),
            _ => None,
        }
    }

    /// The state in which a round leaves the menu: in the round while it
    /// goes on, back at the prompt once it is over.
    pub open spec fn resumed(round: RoundView) -> MenuView {
        if round.outcome() is Some {
            MenuView::Prompt
        } else {
            MenuView::Playing(round)
        }
    }

    /// What is shown on the way there: the commands, once the round is over.
    pub open spec fn resumed_lines(round: RoundView) -> Seq<Seq<char>> {
        if round.outcome() is Some {
            options()
        } else {
            Seq::empty()
        }
    }

    /// The state that follows this one when the line `raw` was read. At the
    /// prompt the line is a command; in a round it is a guess. Its
    /// terminators do not count. A state that waits for no line stays.
    pub open spec fn on_line(self, raw: Seq<char>) -> MenuView {
        match self {
            MenuView::Prompt => match command(trimmed(raw)) {
                Command::Start => MenuView::Loading,
                Command::Exit => MenuView::Closed,
                Command::Other => MenuView::Prompt,
            },
            MenuView::Playing(round) => MenuView::resumed(round.after(trimmed(raw))),
            _ => self,
        }
    }

    /// The lines that answer the line `raw`.
    pub open spec fn line_output(self, raw: Seq<char>) -> Seq<Seq<char>> {
        match self {
            MenuView::Prompt => match command(trimmed(raw)) {
                Command::Start => seq!["Starting new round.."@],
                Command::Exit => seq!["Exiting from menu.."@],
                Command::Other => options(),
            },
            MenuView::Playing(round) => round.answer(trimmed(raw)) + MenuView::resumed_lines(
                round.after(trimmed(raw)),
            ),
            _ => Seq::empty(),
        }
    }

    /// The state that follows this one when `word` was drawn: a round on
    /// that word begins. A state that waits for no word stays.
    pub open spec fn on_word(self, word: Seq<char>) -> MenuView {
        match self {
            MenuView::Loading => MenuView::resumed(RoundView::fresh(word)),
            _ => self,
        }
    }

    /// The lines that answer the word drawn.
    pub open spec fn word_output(self, word: Seq<char>) -> Seq<Seq<char>> {
        match self {
            MenuView::Loading => RoundView::fresh(word).shown() + MenuView::resumed_lines(
                RoundView::fresh(word),
            ),
            _ => Seq::empty(),
        }
    }

    /// The state that follows this one when `error` occurred: the session
    /// ends on it, unless an earlier error has ended it already. A menu that
    /// the player has left fails too: the error came while the goodbye was
    /// written.
    pub open spec fn on_failure(self, error: GameError) -> MenuView {
        match self {
            MenuView::Failed(_) => self,
            _ => MenuView::Failed(error),
        }
    }
}

/// Tells which command `line` is.
pub fn read_command(line: &str) -> (asked: Command)
    ensures
        asked == command(line@),
{
    if same_text(line, START) {
        Command::Start
    } else if same_text(line, EXIT) {
        Command::Exit
    } else {
        Command::Other
    }
}

/// Appends the lines that list the commands.
pub fn print_options(out: &mut Vec<String>)
    ensures
        lines(final(out)@) == lines(old(out)@) + options(),
{
    crate::output::write_empty(out);
    crate::output::writeln(out, "Menu options:");
    let start = "   [".to_owned().concat(START).concat("] - to start new round");
    crate::output::writeln(out, start.as_str());
    let exit = "   [".to_owned().concat(EXIT).concat("] - to exit from menu");
    crate::output::writeln(out, exit.as_str());
}

/// The menu, and with it the session.
pub enum Menu {
    /// It waits for a command.
    Prompt,
    /// A round was asked for and its word is awaited.
    Loading,
    /// A round is on and a guess is awaited.
    Playing(Round),
    /// The player has left.
    Closed,
    /// An error has ended the session.
    Failed(GameError),
}

impl View for Menu {
    type V = MenuView;

    open spec fn view(&self) -> MenuView {
        match self {
            Menu::Prompt => MenuView::Prompt,
            Menu::Loading => MenuView::Loading,
            Menu::Playing(round) => MenuView::Playing(round@),
            Menu::Closed => MenuView::Closed,
            Menu::Failed(error) => MenuView::Failed(*error),
        }
    }
}

/// Opens the menu: the commands are listed and the first one is awaited.
pub fn open(out: &mut Vec<String>) -> (menu: Menu)
    ensures
        menu.wf(),
        menu@ == MenuView::Prompt,
        lines(final(out)@) == lines(old(out)@) + options(),
{
    print_options(out);
    Menu::Prompt
}

/// Goes on with `round` while it lasts, and back to the prompt, with the
/// commands listed, once it is over.
fn resume(out: &mut Vec<String>, round: Round) -> (menu: Menu)
    requires
        round.wf(),
    ensures
        menu.wf(),
        menu@ == MenuView::resumed(round@),
        lines(final(out)@) == lines(old(out)@) + MenuView::resumed_lines(round@),
{
    if round.outcome().is_some() {
        print_options(out);
        Menu::Prompt
    } else {
        Menu::Playing(round)
    }
}

impl Menu {
    /// What holds of every menu that [`open`] made and its own methods moved
    /// on.
    pub open spec fn wf(&self) -> bool {
        &&& self@.valid()
        &&& match self {
            Menu::Playing(round) => round.wf(),
            _ => true,
        }
    }

    /// What the menu waits for.
    pub fn awaits(&self) -> (request: Request)
        ensures
            request == self@.awaits(),
    {
        match self {
            Menu::Prompt => Request::Line,
            Menu::Playing(_) => Request::Line,
            Menu::Loading => Request::Word,
            Menu::Closed => Request::Nothing,
            Menu::Failed(_) => Request::Nothing,
        }
    }

    /// How the session ended, or `None` while it goes on.
    pub fn result(&self) -> (result: Option<Result<(), GameError>>)
        ensures
            result == self@.result(),
    {
        match self {
            Menu::Closed => Some(Ok(())),
            Menu::Failed(error) => Some(Err(*error)),
            _ => None,
        }
    }

    /// Takes a line as it was read from the console.
    ///
    /// At the prompt, `S` announces a round and makes the menu wait for its
    /// word, `E` says goodbye and closes the menu, and anything else lists
    /// the commands again. In a round the line is the player's guess; when
    /// the guess ends the round, the commands are listed again.
    pub fn line(self, out: &mut Vec<String>, raw: &str) -> (menu: Menu)
        requires
            self.wf(),
        ensures
            menu.wf(),
            menu@ == self@.on_line(raw@),
            lines(final(out)@) == lines(old(out)@) + self@.line_output(raw@),
    {
        match self {
            Menu::Prompt => match read_command(trim_line(raw)) {
                Command::Start => {
                    crate::output::writeln(out, "Starting new round..");
                    Menu::Loading
                },
                Command::Exit => {
                    crate::output::writeln(out, "Exiting from menu..");
                    Menu::Closed
                },
                Command::Other => {
                    print_options(out);
                    Menu::Prompt
                },
            },
            Menu::Playing(round) => {
                let mut round = round;
                round.guess(out, trim_line(raw));
                resume(out, round)
            },
            other => other,
        }
    }

    /// Takes the word that was drawn from the dictionary and begins a round
    /// on it. Where the word has no letter to find, the round is over at once
    /// and the commands are listed again.
    pub fn word(self, out: &mut Vec<String>, word: String) -> (menu: Menu)
        requires
            self.wf(),
        ensures
            menu.wf(),
            menu@ == self@.on_word(word@),
            lines(final(out)@) == lines(old(out)@) + self@.word_output(word@),
    {
        match self {
            Menu::Loading => {
                let round = crate::round::start(out, word);
                resume(out, round)
            },
            other => other,
        }
    }

    /// Takes an error that occurred while the caller read or wrote: the
    /// session ends on it. Of several errors the first one stays.
    pub fn fail(self, error: GameError) -> (menu: Menu)
        requires
            self.wf(),
        ensures
            menu.wf(),
            menu@ == self@.on_failure(error),
    {
        match self {
            Menu::Failed(first) => Menu::Failed(first),
            _ => Menu::Failed(error),
        }
    }
}

} // verus!
