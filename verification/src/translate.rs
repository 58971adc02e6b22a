//! The event translator: a deterministic mapping from one raw driver
//! notification to at most one normalized [`Event`].
//!
//! A [`RawEvent`] holds, as plain values, exactly what the translation rules
//! read out of a driver notification. Notifications the translator does not
//! recognize are represented by the `Other` variants and yield no event.

use crate::event::{Event, KeyEvent, KeyModifier, MouseButton, MouseEvent, MouseEventKind};
use crate::util::Point;
use vstd::prelude::*;

verus! {

/// The driver's control bit inside a raw modifier byte. Mirrors the
/// modifier bitflags of the terminal driver, where control is the second
/// bit. A raw key notification counts as control-modified exactly when its
/// modifier byte equals this value and nothing else is set.
pub const CONTROL_MODIFIER: u8 = 0b10;

/// What a raw key notification names, before normalization.
#[derive(Clone, Copy, Debug, PartialEq, Eq, Structural)]
pub enum RawKeyCode {
    Backspace,
    Enter,
    Left,
    Right,
    Up,
    Down,
    Tab,
    Char(char),
    F(u8),
    Esc,
    /// Any key code the translation rules do not mention.
    Other,
}

/// What a raw mouse notification reports the pointer did.
#[derive(Clone, Copy, Debug, PartialEq, Eq, Structural)]
pub enum RawMouseKind {
    Moved,
    Drag(MouseButton),
    Down(MouseButton),
    Up(MouseButton),
    ScrollUp,
    ScrollDown,
    /// Any pointer action the translation rules do not mention.
    Other,
}

/// One raw driver notification, reduced to the plain values the
/// translation rules read.
#[derive(Clone, Copy, Debug, PartialEq, Eq, Structural)]
pub enum RawEvent {
    Key { code: RawKeyCode, modifiers: u8 },
    Mouse { kind: RawMouseKind, column: u16, row: u16 },
    Resize { width: u16, height: u16 },
    /// Any notification the translation rules do not mention.
    Other,
}

/// The priority-ordered key rules: first match wins. The character `'w'`
/// with the control modifier is deliberately remapped to control-backspace;
/// `Up`, `Down`, `Tab`, `Esc` and `Enter` have no modifier slot.
pub open spec fn spec_translate_key(code: RawKeyCode, modifiers: u8) -> Option<KeyEvent> {
    match code {
        RawKeyCode::Tab => Some(KeyEvent::Tab),
        RawKeyCode::Char(c) => if c == 'w' && modifiers == CONTROL_MODIFIER {
            Some(KeyEvent::Backspace(Some(KeyModifier::Control)))
        } else if modifiers == CONTROL_MODIFIER {
            Some(KeyEvent::Char(c, Some(KeyModifier::Control)))
        } else {
            Some(KeyEvent::Char(c, None))
        },
        RawKeyCode::Esc => Some(KeyEvent::Esc),
        RawKeyCode::Backspace => Some(KeyEvent::Backspace(None)),
        RawKeyCode::Left => if modifiers == CONTROL_MODIFIER {
            Some(KeyEvent::Left(Some(KeyModifier::Control)))
        } else {
            Some(KeyEvent::Left(None))
        },
        RawKeyCode::Right => if modifiers == CONTROL_MODIFIER {
            Some(KeyEvent::Right(Some(KeyModifier::Control)))
        } else {
            Some(KeyEvent::Right(None))
        },
        RawKeyCode::Up => Some(KeyEvent::Up),
        RawKeyCode::Down => Some(KeyEvent::Down),
        RawKeyCode::Enter => Some(KeyEvent::Enter),
        RawKeyCode::F(number) => Some(KeyEvent::F(number)),
        RawKeyCode::Other => None,
    }
}

/// The mouse rules: each recognized pointer action maps to the matching
/// normalized kind, carrying the raw column and row as the cell; button
/// identity is preserved verbatim.
pub open spec fn spec_translate_mouse(kind: RawMouseKind, column: u16, row: u16) -> Option<
    MouseEvent,
> {
    let point = Point { x: column, y: row };
    match kind {
        RawMouseKind::Moved => Some(MouseEvent { kind: MouseEventKind::Move, point }),
        RawMouseKind::Drag(button) => Some(MouseEvent { kind: MouseEventKind::Drag(button), point }),
        RawMouseKind::Down(button) => Some(
            MouseEvent { kind: MouseEventKind::Press(button), point },
        ),
        RawMouseKind::Up(button) => Some(
            MouseEvent { kind: MouseEventKind::Release(button), point },
        ),
        RawMouseKind::ScrollUp => Some(MouseEvent { kind: MouseEventKind::ScrollUp, point }),
        RawMouseKind::ScrollDown => Some(MouseEvent { kind: MouseEventKind::ScrollDown, point }),
        RawMouseKind::Other => None,
    }
}

/// The whole translation: a pure function from one raw notification to at
/// most one normalized event. A resize notification always yields
/// [`Event::Resize`] with no payload; unrecognized notifications yield
/// nothing.
pub open spec fn spec_translate(raw: RawEvent) -> Option<Event> {
    match raw {
        RawEvent::Key { code, modifiers } => match spec_translate_key(code, modifiers) {
            Some(key) => Some(Event::Key(key)),
            None => None,
        },
        RawEvent::Mouse { kind, column, row } => match spec_translate_mouse(kind, column, row) {
            Some(mouse) => Some(Event::Mouse(mouse)),
            None => None,
        },
        RawEvent::Resize { .. } => Some(Event::Resize),
        RawEvent::Other => None,
    }
}

/// Translates one raw notification.
///
/// Translation is deterministic: the result is a function of the
/// notification alone, as the contract states.
pub fn translate_notification(raw: &RawEvent) -> (r: Option<Event>)
    ensures
        r == spec_translate(*raw),
{
    match *raw {
        RawEvent::Key { code, modifiers } => match translate_key(code, modifiers) {
            Some(key) => Some(Event::Key(key)),
            None => None,
        },
        RawEvent::Mouse { kind, column, row } => match translate_mouse(kind, column, row) {
            Some(mouse) => Some(Event::Mouse(mouse)),
            None => None,
        },
        RawEvent::Resize { .. } => Some(Event::Resize),
        RawEvent::Other => None,
    }
}

fn translate_key(code: RawKeyCode, modifiers: u8) -> (r: Option<KeyEvent>)
    ensures
        r == spec_translate_key(code, modifiers),
{
    match code {
        RawKeyCode::Tab => Some(KeyEvent::Tab),
        RawKeyCode::Char(c) => if c == 'w' && modifiers == CONTROL_MODIFIER {
            Some(KeyEvent::Backspace(Some(KeyModifier::Control)))
        } else if modifiers == CONTROL_MODIFIER {
            Some(KeyEvent::Char(c, Some(KeyModifier::Control)))
        } else {
            Some(KeyEvent::Char(c, None))
        },
        RawKeyCode::Esc => Some(KeyEvent::Esc),
        RawKeyCode::Backspace => Some(KeyEvent::Backspace(None)),
        RawKeyCode::Left => if modifiers == CONTROL_MODIFIER {
            Some(KeyEvent::Left(Some(KeyModifier::Control)))
        } else {
            Some(KeyEvent::Left(None))
        },
        RawKeyCode::Right => if modifiers == CONTROL_MODIFIER {
            Some(KeyEvent::Right(Some(KeyModifier::Control)))
        } else {
            Some(KeyEvent::Right(None))
        },
        RawKeyCode::Up => Some(KeyEvent::Up),
        RawKeyCode::Down => Some(KeyEvent::Down),
        RawKeyCode::Enter => Some(KeyEvent::Enter),
        RawKeyCode::F(number) => Some(KeyEvent::F(number)),
        RawKeyCode::Other => None,
    }
}

fn translate_mouse(kind: RawMouseKind, column: u16, row: u16) -> (r: Option<MouseEvent>)
    ensures
        r == spec_translate_mouse(kind, column, row),
{
    let point = Point { x: column, y: row };
    match kind {
        RawMouseKind::Moved => Some(MouseEvent { kind: MouseEventKind::Move, point }),
        RawMouseKind::Drag(button) => Some(MouseEvent { kind: MouseEventKind::Drag(button), point }),
        RawMouseKind::Down(button) => Some(
            MouseEvent { kind: MouseEventKind::Press(button), point },
        ),
        RawMouseKind::Up(button) => Some(
            MouseEvent { kind: MouseEventKind::Release(button), point },
        ),
        RawMouseKind::ScrollUp => Some(MouseEvent { kind: MouseEventKind::ScrollUp, point }),
        RawMouseKind::ScrollDown => Some(MouseEvent { kind: MouseEventKind::ScrollDown, point }),
        RawMouseKind::Other => None,
    }
}

} // verus!
