//! Catching typed digits and backspace before the screen's own handling.
//!
//! While the wait is being edited, a key press that names a number, or whose
//! text starts with a digit, becomes a digit for the editor, and backspace
//! becomes a backspace; every other key press, and every key press while not
//! editing, passes through to the screen.

use vstd::prelude::*;
use crate::digits::{digit_of, digit_value, field_of, is_digit};

verus! {

/// A key press, as far as the interception looks at it.
#[derive(Debug)]
pub enum Key {
    Backspace,
    /// A key that names a character string.
    Character(String),
    /// Any other named key.
    Other,
}

#[derive(Clone, Copy, Debug, PartialEq, Eq, Structural)]
pub enum Interception {
    /// Hand this number to the editor.
    Digit(u32),
    /// Hand a backspace to the editor.
    Backspace,
    /// Let the screen handle the key press.
    PassThrough,
}

/// `str::parse::<u32>` on `s`: an optional `+`, then decimal digits whose
/// value fits in a `u32`.
pub open spec fn u32_of(s: Seq<char>) -> Option<u32> {
    if s.len() > 0 && s[0] == '+' {
        field_of(s.drop_first())
    } else {
        field_of(s)
    }
}

pub open spec fn text_view(text: Option<&str>) -> Option<Seq<char>> {
    match text {
        Some(t) => Some(t@),
        None => None,
    }
}

/// A digit at the start of a key press's text, if there is one.
pub open spec fn leading_digit(text: Option<Seq<char>>) -> Interception {
    match text {
        Some(t) => if t.len() > 0 && is_digit(t[0]) {
            Interception::Digit(digit_value(t[0]) as u32)
        } else {
            Interception::PassThrough
        },
        None => Interception::PassThrough,
    }
}

pub open spec fn intercepted(capturing: bool, key: Key, text: Option<Seq<char>>) -> Interception {
    if !capturing {
        Interception::PassThrough
    } else {
        match key {
            Key::Backspace => Interception::Backspace,
            Key::Character(c) => match u32_of(c@) {
                Some(n) => Interception::Digit(n),
                None => leading_digit(text),
            },
            Key::Other => leading_digit(text),
        }
    }
}

/// Relies on `str::parse::<u32>` (`u32::from_str`): it accepts an optional
/// `+` followed by at least one ASCII digit, and nothing else, and fails on a
/// value past `u32::MAX`.
#[verifier::external_body]
fn parse_u32(s: &str) -> (r: Option<u32>)
    ensures
        r == u32_of(s@),
{
    s.parse::<u32>().ok()
}

/// What becomes of a key press with the given `text`: `capturing` is on while
/// the wait is being edited.
pub fn intercept_key(capturing: bool, key: &Key, text: Option<&str>) -> (r: Interception)
    ensures
        r == intercepted(capturing, *key, text_view(text)),
{
    if !capturing {
        return Interception::PassThrough;
    }
    match key {
        Key::Backspace => {
            return Interception::Backspace;
        },
        Key::Character(c) => {
            if let Some(n) = parse_u32(c.as_str()) {
                return Interception::Digit(n);
            }
        },
        Key::Other => {},
    }
    // A control character is never a digit, so only digits need be looked for.
    if let Some(t) = text {
        if t.unicode_len() > 0 {
            if let Some(d) = digit_of(t.get_char(0)) {
                return Interception::Digit(d);
            }
        }
    }
    Interception::PassThrough
}

} // verus!
