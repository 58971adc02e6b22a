//! The normalized event model: the closed set of input events that
//! application code consumes, independent of the terminal driver's own
//! vocabulary.

use crate::util::Point;
use vstd::prelude::*;

verus! {

/// A mouse button, preserved verbatim from the raw notification.
#[derive(Clone, Copy, Debug, PartialEq, Eq, Structural)]
pub enum MouseButton {
    Left,
    Middle,
    Right,
}

/// What the pointer did.
#[derive(Clone, Copy, Debug, PartialEq, Eq, Structural)]
pub enum MouseEventKind {
    ScrollUp,
    ScrollDown,
    Move,
    Drag(MouseButton),
    Press(MouseButton),
    Release(MouseButton),
}

/// A normalized mouse event: the kind of action and the cell the pointer
/// occupies at the moment of the event.
#[derive(Clone, Copy, Debug, PartialEq, Eq, Structural)]
pub struct MouseEvent {
    pub kind: MouseEventKind,
    pub point: Point,
}

/// The only modifier the translator recognizes — a placeholder for richer
/// modifier tracking. Shift and alt are not distinguished from the
/// unmodified case; extending this is an open question, not to be done
/// without a new requirement.
#[derive(Clone, Copy, Debug, PartialEq, Eq, Structural)]
pub enum KeyModifier {
    Control,
}

/// A normalized key event.
///
/// `Up` and `Down` never carry a modifier slot while `Left`, `Right` and
/// `Backspace` do; this asymmetry is deliberate and must be preserved.
#[derive(Clone, Copy, Debug, PartialEq, Eq, Structural)]
pub enum KeyEvent {
    Up,
    Down,
    Left(Option<KeyModifier>),
    Right(Option<KeyModifier>),
    Char(char, Option<KeyModifier>),
    Tab,
    Esc,
    Backspace(Option<KeyModifier>),
    Enter,
    F(u8),
}

/// The top-level event union.
#[derive(Clone, Copy, Debug, PartialEq, Eq, Structural)]
pub enum Event {
    Key(KeyEvent),
    Mouse(MouseEvent),
    /// Carries no payload: the current dimensions are always read back from
    /// the session's cached size, so that there is exactly one source of
    /// truth for terminal geometry. Call [`crate::Terminal::size`] or read
    /// the session's cached size instead.
    Resize,
}

} // verus!
