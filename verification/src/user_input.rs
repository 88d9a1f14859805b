//! The controller's translation of terminal events into input events.

use crate::common::{Dir, InputEvent};
use vstd::prelude::*;

verus! {

/// A key as the terminal reports it.
#[derive(Clone, Copy, Debug, PartialEq, Eq, Structural)]
pub enum Key {
    Backspace,
    Enter,
    Left,
    Right,
    Up,
    Down,
    Home,
    End,
    PageUp,
    PageDown,
    Tab,
    BackTab,
    Delete,
    Insert,
    /// A function key, by its number.
    F(u8),
    /// A character key.
    Char(char),
    Null,
    Esc,
}

/// The bit of the modifiers that stands for the shift key.
pub const SHIFT: u8 = 0b0000_0001;

/// The bit of the modifiers that stands for the control key.
pub const CONTROL: u8 = 0b0000_0010;

/// The bit of the modifiers that stands for the alt key.
pub const ALT: u8 = 0b0000_0100;

/// The modifiers with no bit set.
pub const NONE: u8 = 0b0000_0000;

/// What the terminal reports: a key with the modifiers held beside it, one bit
/// each; something the mouse did; or the terminal's new size in columns and
/// rows.
#[derive(Clone, Copy, Debug, PartialEq, Eq, Structural)]
pub enum TermEvent {
    Key { code: Key, modifiers: u8 },
    Mouse,
    Resize(u16, u16),
}

/// What a key means when no modifier changes it. The arrow keys and `h`, `j`,
/// `k`, `l` move in the four main directions; `w`, `e`, `d`, `c`, `s`, `z`,
/// `a`, `q` move in all eight, clockwise from north.
pub open spec fn key_meaning(code: Key) -> InputEvent {
    match code {
        Key::Backspace => InputEvent::Delete,
        Key::Delete => InputEvent::Delete,
        Key::Enter => InputEvent::Confirm,
        Key::Esc => InputEvent::Cancel,
        Key::Tab => InputEvent::Tab,
        Key::BackTab => InputEvent::BackTab,
        Key::F(_) => InputEvent::Menu,
        Key::Left => InputEvent::Hjkl(Dir::W),
        Key::Right => InputEvent::Hjkl(Dir::E),
        Key::Up => InputEvent::Hjkl(Dir::N),
        Key::Down => InputEvent::Hjkl(Dir::S),
        Key::Char(c) => if c == 'w' {
            InputEvent::Wasd(Dir::N)
        } else if c == 'e' {
            InputEvent::Wasd(Dir::NE)
        } else if c == 'd' {
            InputEvent::Wasd(Dir::E)
        } else if c == 'c' {
            InputEvent::Wasd(Dir::SE)
        } else if c == 's' {
            InputEvent::Wasd(Dir::S)
        } else if c == 'z' {
            InputEvent::Wasd(Dir::SW)
        } else if c == 'a' {
            InputEvent::Wasd(Dir::W)
        } else if c == 'q' {
            InputEvent::Wasd(Dir::NW)
        } else if c == 'h' {
            InputEvent::Hjkl(Dir::W)
        } else if c == 'j' {
            InputEvent::Hjkl(Dir::S)
        } else if c == 'k' {
            InputEvent::Hjkl(Dir::N)
        } else if c == 'l' {
            InputEvent::Hjkl(Dir::E)
        } else {
            InputEvent::Null
        },
        _ => InputEvent::Null,
    }
}

/// What a terminal event means. Control and `c`, with no other modifier, ends
/// the program. Any other key means what it means alone. The mouse and a
/// change of size mean nothing.
pub open spec fn meaning(event: TermEvent) -> InputEvent {
    match event {
        TermEvent::Key { code, modifiers } => if modifiers == CONTROL && code == Key::Char('c') {
            InputEvent::Exit
        } else {
            key_meaning(code)
        },
        _ => InputEvent::Null,
    }
}

/// The source of the controller's input.
#[derive(Debug)]
pub struct UserInput {}

impl UserInput {
    /// Translates what the terminal reported into an input event.
    pub fn translate(event: TermEvent) -> (msg: InputEvent)
        ensures
            msg == meaning(event),
    {
        let mut msg = InputEvent::Null;
        match event {
            TermEvent::Key { code, modifiers } => {
                match code {
                    Key::Backspace => {
                        msg = InputEvent::Delete
                    },
                    Key::Enter => {
                        msg = InputEvent::Confirm
                    },
                    Key::Left => {
                        msg = InputEvent::Hjkl(Dir::W)
                    },
                    Key::Right => {
                        msg = InputEvent::Hjkl(Dir::E)
                    },
                    Key::Up => {
                        msg = InputEvent::Hjkl(Dir::N)
                    },
                    Key::Down => {
                        msg = InputEvent::Hjkl(Dir::S)
                    },
                    Key::Home => {},
                    Key::End => {},
                    Key::PageUp => {},
                    Key::PageDown => {},
                    Key::Tab => {
                        msg = InputEvent::Tab
                    },
                    Key::BackTab => {
                        msg = InputEvent::BackTab
                    },
                    Key::Delete => {
                        msg = InputEvent::Delete
                    },
                    Key::Insert => {},
                    Key::F(_) => {
                        msg = InputEvent::Menu
                    },
                    Key::Char(c) => {
                        match c {
                            // Wasd
                            'w' => {
                                msg = InputEvent::Wasd(Dir::N)
                            },
                            'e' => {
                                msg = InputEvent::Wasd(Dir::NE)
                            },
                            'd' => {
                                msg = InputEvent::Wasd(Dir::E)
                            },
                            'c' => {
                                msg = InputEvent::Wasd(Dir::SE)
                            },
                            's' => {
                                msg = InputEvent::Wasd(Dir::S)
                            },
                            'z' => {
                                msg = InputEvent::Wasd(Dir::SW)
                            },
                            'a' => {
                                msg = InputEvent::Wasd(Dir::W)
                            },
                            'q' => {
                                msg = InputEvent::Wasd(Dir::NW)
                            },
                            // Hjkl
                            'h' => {
                                msg = InputEvent::Hjkl(Dir::W)
                            },
                            'j' => {
                                msg = InputEvent::Hjkl(Dir::S)
                            },
                            'k' => {
                                msg = InputEvent::Hjkl(Dir::N)
                            },
                            'l' => {
                                msg = InputEvent::Hjkl(Dir::E)
                            },
                            _ => {},
                        }
                    },
                    Key::Null => {},
                    Key::Esc => {
                        msg = InputEvent::Cancel;
                    },
                }
                if modifiers == CONTROL {
                    match code {
                        Key::Char(c) => {
                            if c == 'c' {
                                msg = InputEvent::Exit;
                            }
                        },
                        _ => {},
                    }
                }
            },
            TermEvent::Mouse => {},
            TermEvent::Resize(_x, _y) => {},
        };
        msg
    }
}

} // verus!
