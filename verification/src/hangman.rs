//! The session: a welcome, and then the menu.

use vstd::prelude::*;
use crate::menu::{open, options, Menu, MenuView};
use crate::output::lines;

verus! {

/// The lines that every session begins with.
pub open spec fn welcome() -> Seq<Seq<char>> {
    seq!["Welcome to hangman game!"@, "Opening menu.."@]
}

/// Begins a session: the player is welcomed and the menu opened.
pub fn start(out: &mut Vec<String>) -> (menu: Menu)
    ensures
        menu.wf(),
        menu@ == MenuView::Prompt,
        lines(final(out)@) == lines(old(out)@) + welcome() + options(),
{
    crate::output::writeln(out, "Welcome to hangman game!");
    crate::output::writeln(out, "Opening menu..");
    open(out)
}

} // verus!
