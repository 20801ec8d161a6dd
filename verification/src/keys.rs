//! Key presses of the local terminal and the bytes they stand for on the
//! wire.

use vstd::prelude::*;

verus! {

/// A key of the local terminal.
#[derive(Clone, Copy, Debug, PartialEq, Eq, Structural)]
pub enum Key {
    Char(char),
    Enter,
    Backspace,
    Tab,
    Up,
    Down,
    Left,
    Right,
    Home,
    End,
    Delete,
    Esc,
    /// Any key that has no meaning on the wire.
    Other,
}

/// One key press: the key and whether Ctrl was held.
#[derive(Clone, Copy, Debug, PartialEq, Eq, Structural)]
pub struct KeyPress {
    pub key: Key,
    pub ctrl: bool,
}

/// What a key press asks for.
#[derive(Debug, PartialEq, Eq)]
pub enum KeyAction {
    /// Leave the interactive loop.
    Exit,
    /// Write these bytes to the device.
    Send(Vec<u8>),
    /// Nothing.
    Ignore,
}

/// The lowest eight bits of a character's code point.
pub open spec fn low_byte(c: char) -> u8 {
    ((c as u32) & 0xff) as u8
}

/// The key press that leaves the interactive loop: Ctrl with `x` or `X`.
pub open spec fn is_exit(press: KeyPress) -> bool {
    press.ctrl && (press.key == Key::Char('x') || press.key == Key::Char('X'))
}

/// The bytes that a key press puts on the wire, if any.
///
/// A plain character goes as the low byte of its code point. With Ctrl it
/// goes as its control byte: the low five bits, so that Ctrl+A is `0x01`,
/// Ctrl+C `0x03`, Ctrl+D `0x04`. Navigation keys go as ANSI escape sequences;
/// Left and Right with Ctrl as the word-wise forms `ESC [ 1 ; 5 D` and
/// `ESC [ 1 ; 5 C`.
pub open spec fn key_bytes(press: KeyPress) -> Option<Seq<u8>> {
    if is_exit(press) {
        None
    } else {
        match press.key {
            Key::Char(c) => if press.ctrl {
                Some(seq![low_byte(c) & 0x1f])
            } else {
                Some(seq![low_byte(c)])
            },
            Key::Enter => Some(seq![0x0du8]),
            Key::Backspace => Some(seq![0x7fu8]),
            Key::Tab => Some(seq![0x09u8]),
            Key::Up => Some(seq![0x1bu8, 0x5bu8, 0x41u8]),
            Key::Down => Some(seq![0x1bu8, 0x5bu8, 0x42u8]),
            Key::Right => if press.ctrl {
                Some(seq![0x1bu8, 0x5bu8, 0x31u8, 0x3bu8, 0x35u8, 0x43u8])
            } else {
                Some(seq![0x1bu8, 0x5bu8, 0x43u8])
            },
            Key::Left => if press.ctrl {
                Some(seq![0x1bu8, 0x5bu8, 0x31u8, 0x3bu8, 0x35u8, 0x44u8])
            } else {
                Some(seq![0x1bu8, 0x5bu8, 0x44u8])
            },
            Key::Home => Some(seq![0x1bu8, 0x5bu8, 0x48u8]),
            Key::End => Some(seq![0x1bu8, 0x5bu8, 0x46u8]),
            Key::Delete => Some(seq![0x1bu8, 0x5bu8, 0x33u8, 0x7eu8]),
            Key::Esc => Some(seq![0x1bu8]),
            Key::Other => None,
        }
    }
}

/// The lowest eight bits of a character's code point.
fn low_byte_of(c: char) -> (b: u8)
    ensures
        b == low_byte(c),
{
    let n: u32 = c as u32;
    assert(n & 0xff < 256) by (bit_vector);
    (n & 0xff) as u8
}

/// What a key press asks for: to leave the loop, to send bytes, or nothing.
pub fn map_key(press: KeyPress) -> (action: KeyAction)
    ensures
        match action {
            KeyAction::Exit => is_exit(press),
            KeyAction::Send(bytes) => !is_exit(press) && key_bytes(press) == Some(bytes@),
            KeyAction::Ignore => !is_exit(press) && key_bytes(press) is None,
        },
{
    match press.key {
        Key::Char(c) => {
            if press.ctrl && (c == 'x' || c == 'X') {
                KeyAction::Exit
            } else if press.ctrl {
                KeyAction::Send(vec![low_byte_of(c) & 0x1f])
            } else {
                KeyAction::Send(vec![low_byte_of(c)])
            }
        },
        Key::Enter => KeyAction::Send(vec![0x0d]),
        Key::Backspace => KeyAction::Send(vec![0x7f]),
        Key::Tab => KeyAction::Send(vec![0x09]),
        Key::Up => KeyAction::Send(vec![0x1b, 0x5b, 0x41]),
        Key::Down => KeyAction::Send(vec![0x1b, 0x5b, 0x42]),
        Key::Right => {
            if press.ctrl {
                KeyAction::Send(vec![0x1b, 0x5b, 0x31, 0x3b, 0x35, 0x43])
            } else {
                KeyAction::Send(vec![0x1b, 0x5b, 0x43])
            }
        },
        Key::Left => {
            if press.ctrl {
                KeyAction::Send(vec![0x1b, 0x5b, 0x31, 0x3b, 0x35, 0x44])
            } else {
                KeyAction::Send(vec![0x1b, 0x5b, 0x44])
            }
        },
        Key::Home => KeyAction::Send(vec![0x1b, 0x5b, 0x48]),
        Key::End => KeyAction::Send(vec![0x1b, 0x5b, 0x46]),
        Key::Delete => KeyAction::Send(vec![0x1b, 0x5b, 0x33, 0x7e]),
        Key::Esc => KeyAction::Send(vec![0x1b]),
        Key::Other => KeyAction::Ignore,
    }
}

} // verus!
