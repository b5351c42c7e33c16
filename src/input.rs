//! The keys the viewer understands and what each one asks for.

use vstd::prelude::*;

verus! {

/// A key press, without modifiers.
#[derive(Clone, Copy, Debug, PartialEq, Eq, Structural)]
pub enum Key {
    Char(char),
    Up,
    Down,
    Other,
}

/// What a key press asks the viewer to do.
#[derive(Clone, Copy, Debug, PartialEq, Eq, Structural)]
pub enum Command {
    ScrollDown(usize),
    ScrollUp(usize),
    Quit,
    Ignore,
}

/// The step of one key press, in lines.
pub const SCROLL_STEP: usize = 1;

/// `j` and Down scroll down one line, `k` and Up scroll up one line, `q`
/// quits, and every other key is ignored.
pub open spec fn key_command(key: Key) -> Command {
    match key {
        Key::Char('j') | Key::Down => Command::ScrollDown(SCROLL_STEP),
        Key::Char('k') | Key::Up => Command::ScrollUp(SCROLL_STEP),
        Key::Char('q') => Command::Quit,
        _ => Command::Ignore,
    }
}

/// Looks up the command for a key press.
pub fn map_key(key: Key) -> (r: Command)
    ensures
        r == key_command(key),
{
    match key {
        Key::Char('j') | Key::Down => Command::ScrollDown(SCROLL_STEP),
        Key::Char('k') | Key::Up => Command::ScrollUp(SCROLL_STEP),
        Key::Char('q') => Command::Quit,
        _ => Command::Ignore,
    }
}

} // verus!
