//! Key presses and what they ask of the session.

use crate::app::{next_index, previous_index, App};
use vstd::prelude::*;

verus! {

/// A key press, as far as the session tells keys apart.
#[derive(Debug, Clone, Copy, PartialEq, Eq, Structural)]
pub enum Key {
    /// A key that writes a character.
    Char(char),
    Esc,
    Down,
    Up,
    Enter,
    /// Any other key.
    Other,
}

/// What a key press asks of the session.
#[derive(Debug, Clone, Copy, PartialEq, Eq, Structural)]
pub enum Command {
    Quit,
    Next,
    Previous,
    Download,
    Nothing,
}

/// The command that a key stands for: `q` or escape ends the session, `j`
/// or down and `k` or up move the selection, `d` or enter asks for a
/// download, and every other key does nothing.
pub open spec fn command_of(key: Key) -> Command {
    match key {
        Key::Char(c) => if c == 'q' {
            Command::Quit
        } else if c == 'j' {
            Command::Next
        } else if c == 'k' {
            Command::Previous
        } else if c == 'd' {
            Command::Download
        } else {
            Command::Nothing
        },
        Key::Esc => Command::Quit,
        Key::Down => Command::Next,
        Key::Up => Command::Previous,
        Key::Enter => Command::Download,
        Key::Other => Command::Nothing,
    }
}

/// Reads a key press as a command.
pub fn command_for(key: Key) -> (command: Command)
    ensures
        command == command_of(key),
{
    match key {
        Key::Char(c) => if c == 'q' {
            Command::Quit
        } else if c == 'j' {
            Command::Next
        } else if c == 'k' {
            Command::Previous
        } else if c == 'd' {
            Command::Download
        } else {
            Command::Nothing
        },
        Key::Esc => Command::Quit,
        Key::Down => Command::Next,
        Key::Up => Command::Previous,
        Key::Enter => Command::Download,
        Key::Other => Command::Nothing,
    }
}

/// Applies a key press to the session.
///
/// A request to quit raises `should_quit`. A move changes the selection,
/// with wraparound. A request for a download raises `should_download`, but
/// only where an entry is selected. Nothing else changes.
pub fn handle_key_event(app: &mut App, key: Key)
    ensures
        final(app).challenges == old(app).challenges,
        final(app).status_message == old(app).status_message,
        final(app).scroll_offset == old(app).scroll_offset,
        final(app).should_quit == (old(app).should_quit || command_of(key) == Command::Quit),
        final(app).should_download == (old(app).should_download || (command_of(key)
            == Command::Download && old(app).has_selection())),
        final(app).selected_index == match command_of(key) {
            Command::Next => next_index(
                old(app).selected_index as int,
                old(app).challenges.len() as int,
            ),
            Command::Previous => previous_index(
                old(app).selected_index as int,
                old(app).challenges.len() as int,
            ),
            _ => old(app).selected_index as int,
        },
        old(app).wf() ==> final(app).wf(),
{
    match command_for(key) {
        Command::Quit => {
            app.quit();
        },
        Command::Next => {
            app.next_challenge();
        },
        Command::Previous => {
            app.previous_challenge();
        },
        Command::Download => {
            if app.get_selected_challenge().is_some() {
                app.trigger_download();
            }
        },
        Command::Nothing => {},
    }
}

} // verus!
