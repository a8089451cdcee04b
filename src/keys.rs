use vstd::prelude::*;

use crate::viewport::Motion;

verus! {

/// A key as the controller sees it.
#[derive(Clone, Copy, Debug, PartialEq, Eq, Structural)]
pub enum Key {
    Char(char),
    Up,
    Down,
    Enter,
    Esc,
    Backspace,
    Other,
}

/// A key press, with whether Control was held.
#[derive(Clone, Copy, Debug, PartialEq, Eq, Structural)]
pub struct KeyInput {
    pub key: Key,
    pub ctrl: bool,
}

/// What a key press asks the controller to do.
#[derive(Clone, Copy, Debug, PartialEq, Eq, Structural)]
pub enum Command {
    Move(Motion),
    ViewEmail,
    BackToList,
    DetailDown,
    DetailUp,
    Quit,
}

/// The list-mode motion bound to Control and `c`.
pub open spec fn ctrl_list_motion(c: char) -> Option<Motion> {
    if c == 'n' {
        Some(Motion::Next)
    } else if c == 'p' {
        Some(Motion::Previous)
    } else if c == 'f' {
        Some(Motion::PageForward)
    } else if c == 'b' {
        Some(Motion::PageBackward)
    } else if c == 'd' {
        Some(Motion::HalfPageForward)
    } else if c == 'u' {
        Some(Motion::HalfPageBackward)
    } else if c == 'e' {
        Some(Motion::LineForward)
    } else if c == 'y' {
        Some(Motion::LineBackward)
    } else {
        None
    }
}

/// The key bindings of list mode.
pub open spec fn list_command(input: KeyInput) -> Option<Command> {
    match input.key {
        Key::Down => Some(Command::Move(Motion::Next)),
        Key::Up => Some(Command::Move(Motion::Previous)),
        Key::Enter => Some(Command::ViewEmail),
        Key::Esc => Some(Command::Quit),
        Key::Char(c) => {
            if c == 'j' {
                Some(Command::Move(Motion::Next))
            } else if c == 'k' {
                Some(Command::Move(Motion::Previous))
            } else if c == 'H' {
                Some(Command::Move(Motion::PageTop))
            } else if c == 'M' {
                Some(Command::Move(Motion::PageMiddle))
            } else if c == 'L' {
                Some(Command::Move(Motion::PageBottom))
            } else if c == 'q' {
                Some(Command::Quit)
            } else if input.ctrl && ctrl_list_motion(c) is Some {
                Some(Command::Move(ctrl_list_motion(c)->0))
            } else {
                None
            }
        },
        _ => None,
    }
}

/// The key bindings of detail mode.
pub open spec fn detail_command(input: KeyInput) -> Option<Command> {
    match input.key {
        Key::Down => Some(Command::DetailDown),
        Key::Up => Some(Command::DetailUp),
        Key::Esc | Key::Backspace => Some(Command::BackToList),
        Key::Char(c) => {
            if c == 'j' || (input.ctrl && (c == 'n' || c == 'e')) {
                Some(Command::DetailDown)
            } else if c == 'k' || (input.ctrl && (c == 'p' || c == 'y')) {
                Some(Command::DetailUp)
            } else if c == 'q' {
                Some(Command::BackToList)
            } else {
                None
            }
        },
        _ => None,
    }
}

fn ctrl_motion(c: char) -> (r: Option<Motion>)
    ensures
        r == ctrl_list_motion(c),
{
    if c == 'n' {
        Some(Motion::Next)
    } else if c == 'p' {
        Some(Motion::Previous)
    } else if c == 'f' {
        Some(Motion::PageForward)
    } else if c == 'b' {
        Some(Motion::PageBackward)
    } else if c == 'd' {
        Some(Motion::HalfPageForward)
    } else if c == 'u' {
        Some(Motion::HalfPageBackward)
    } else if c == 'e' {
        Some(Motion::LineForward)
    } else if c == 'y' {
        Some(Motion::LineBackward)
    } else {
        None
    }
}

/// The command that `input` is bound to in list mode, if any.
pub fn list_command_for(input: KeyInput) -> (r: Option<Command>)
    ensures
        r == list_command(input),
{
    match input.key {
        Key::Down => Some(Command::Move(Motion::Next)),
        Key::Up => Some(Command::Move(Motion::Previous)),
        Key::Enter => Some(Command::ViewEmail),
        Key::Esc => Some(Command::Quit),
        Key::Char(c) => {
            if c == 'j' {
                Some(Command::Move(Motion::Next))
            } else if c == 'k' {
                Some(Command::Move(Motion::Previous))
            } else if c == 'H' {
                Some(Command::Move(Motion::PageTop))
            } else if c == 'M' {
                Some(Command::Move(Motion::PageMiddle))
            } else if c == 'L' {
                Some(Command::Move(Motion::PageBottom))
            } else if c == 'q' {
                Some(Command::Quit)
            } else if input.ctrl {
                match ctrl_motion(c) {
                    Some(m) => Some(Command::Move(m)),
                    None => None,
                }
            } else {
                None
            }
        },
        _ => None,
    }
}

/// The command that `input` is bound to in detail mode, if any.
pub fn detail_command_for(input: KeyInput) -> (r: Option<Command>)
    ensures
        r == detail_command(input),
{
    match input.key {
        Key::Down => Some(Command::DetailDown),
        Key::Up => Some(Command::DetailUp),
        Key::Esc | Key::Backspace => Some(Command::BackToList),
        Key::Char(c) => {
            if c == 'j' || (input.ctrl && (c == 'n' || c == 'e')) {
                Some(Command::DetailDown)
            } else if c == 'k' || (input.ctrl && (c == 'p' || c == 'y')) {
                Some(Command::DetailUp)
            } else if c == 'q' {
                Some(Command::BackToList)
            } else {
                None
            }
        },
        _ => None,
    }
}

} // verus!
