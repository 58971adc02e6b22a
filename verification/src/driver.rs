//! The driver adapter: every call into the terminal driver lives here,
//! behind trusted wrappers. The session's logic is verified against the
//! contracts of these wrappers; the wrappers themselves only convert plain
//! values and make the one driver call each is named after.
//!
//! Nothing here promises anything about the terminal the process is
//! attached to: whether the output is a teletype, what size it reports and
//! which notifications arrive all depend on the environment, so the
//! wrappers state nothing of their results. Failures of the driver calls
//! that write, flush or enter a terminal mode abort the process with a
//! diagnostic, since a terminal that cannot be written to or restored
//! cannot safely continue the session. The four commands that restore the
//! terminal — showing the cursor and leaving mouse capture, raw mode and
//! the alternate screen — instead ignore a per-step failure, so that one
//! failing step never short-circuits the rest of a restoration.

use crate::translate::{RawEvent, RawKeyCode, RawMouseKind};
use crate::event::MouseButton;
use crate::util::Size;
use crossterm::event::Event as CtEvent;
use crossterm::event::KeyCode as CtKeyCode;
use crossterm::event::KeyEvent as CtKeyEvent;
use crossterm::event::KeyEventKind as CtKeyEventKind;
use crossterm::event::MouseButton as CtMouseButton;
use crossterm::event::MouseEventKind as CtMouseEventKind;
use crossterm::tty::IsTty;
use crossterm::QueueableCommand;
use std::io::Write;
use vstd::prelude::*;

verus! {

#[verifier::external_type_specification]
#[verifier::external_body]
pub struct ExStdout(std::io::Stdout);

#[verifier::external_type_specification]
#[verifier::external_body]
pub struct ExCtEvent(CtEvent);

#[verifier::external_type_specification]
#[verifier::external_body]
pub struct ExCtKeyEvent(CtKeyEvent);

#[verifier::external_type_specification]
#[verifier::external_body]
pub struct ExCtKeyCode(CtKeyCode);

#[verifier::external_type_specification]
#[verifier::external_body]
pub struct ExCtMouseEventKind(CtMouseEventKind);

#[verifier::external_type_specification]
#[verifier::external_body]
pub struct ExCtMouseButton(CtMouseButton);

/// Relies on crossterm's `tty::IsTty::is_tty`: true exactly when the handle
/// is attached to a terminal teletype. The answer depends on how the
/// process was started, so nothing is stated of it.
#[verifier::external_body]
pub(crate) fn output_is_terminal(out: &std::io::Stdout) -> bool {
    out.is_tty()
}

/// Relies on `crossterm::terminal::size`, which queries the driver for the
/// current dimensions in cells. The result depends on the terminal, so
/// nothing is stated of it; a query failure aborts with a diagnostic.
#[verifier::external_body]
pub(crate) fn query_size() -> Size {
    let size = crossterm::terminal::size().expect("retrieving terminal size failed");
    Size { width: size.0, height: size.1 }
}

/// Relies on `crossterm::event::read`, which blocks until one raw
/// notification is available. Which notification arrives depends on the
/// environment, so nothing is stated of the result.
#[verifier::external_body]
pub(crate) fn read_raw() -> RawEvent {
    convert_event(crossterm::event::read().expect("reading an event failed"))
}

/// Relies on `crossterm::event::poll`: it returns `Ok(true)` if a
/// notification is available within the timeout (immediately for a
/// zero-length timeout) and `Ok(false)` when the timeout elapses first. A
/// poll failure counts as no notification, as does a timeout.
#[verifier::external_body]
pub(crate) fn poll_ready(timeout: std::time::Duration) -> bool {
    matches!(crossterm::event::poll(timeout), Ok(true))
}

/// Converts one notification of `crossterm::event::Event` into the plain
/// values the translation rules read; every variant the rules do not
/// mention becomes `Other`.
#[verifier::external_body]
fn convert_event(raw: CtEvent) -> RawEvent {
    match raw {
        CtEvent::Key(key) => convert_key(key),
        CtEvent::Mouse(mouse) => RawEvent::Mouse {
            kind: convert_mouse_kind(mouse.kind),
            column: mouse.column,
            row: mouse.row,
        },
        CtEvent::Resize(width, height) => RawEvent::Resize { width, height },
        _ => RawEvent::Other,
    }
}

/// Converts a `crossterm::event::KeyEvent`. Only key-press notifications
/// are recognized; the repeat and release notifications of newer driver
/// protocols become unrecognized raw notifications, which the translator
/// drops.
#[verifier::external_body]
fn convert_key(key: CtKeyEvent) -> RawEvent {
    match key.kind {
        CtKeyEventKind::Press => RawEvent::Key {
            code: convert_key_code(key.code),
            modifiers: key.modifiers.bits(),
        },
        _ => RawEvent::Other,
    }
}

/// Converts a `crossterm::event::KeyCode` variant to the raw key
/// vocabulary, one arm per recognized variant.
#[verifier::external_body]
fn convert_key_code(code: CtKeyCode) -> RawKeyCode {
    match code {
        CtKeyCode::Backspace => RawKeyCode::Backspace,
        CtKeyCode::Enter => RawKeyCode::Enter,
        CtKeyCode::Left => RawKeyCode::Left,
        CtKeyCode::Right => RawKeyCode::Right,
        CtKeyCode::Up => RawKeyCode::Up,
        CtKeyCode::Down => RawKeyCode::Down,
        CtKeyCode::Tab => RawKeyCode::Tab,
        CtKeyCode::Char(c) => RawKeyCode::Char(c),
        CtKeyCode::F(number) => RawKeyCode::F(number),
        CtKeyCode::Esc => RawKeyCode::Esc,
        _ => RawKeyCode::Other,
    }
}

/// Converts a `crossterm::event::MouseEventKind` variant to the raw mouse
/// vocabulary, one arm per recognized variant.
#[verifier::external_body]
fn convert_mouse_kind(kind: CtMouseEventKind) -> RawMouseKind {
    match kind {
        CtMouseEventKind::Moved => RawMouseKind::Moved,
        CtMouseEventKind::Drag(b) => RawMouseKind::Drag(convert_button(b)),
        CtMouseEventKind::Down(b) => RawMouseKind::Down(convert_button(b)),
        CtMouseEventKind::Up(b) => RawMouseKind::Up(convert_button(b)),
        CtMouseEventKind::ScrollUp => RawMouseKind::ScrollUp,
        CtMouseEventKind::ScrollDown => RawMouseKind::ScrollDown,
        _ => RawMouseKind::Other,
    }
}

/// Converts a `crossterm::event::MouseButton`, one arm per variant.
#[verifier::external_body]
fn convert_button(button: CtMouseButton) -> MouseButton {
    match button {
        CtMouseButton::Left => MouseButton::Left,
        CtMouseButton::Middle => MouseButton::Middle,
        CtMouseButton::Right => MouseButton::Right,
    }
}

/// Relies on queueing `crossterm::terminal::EnterAlternateScreen`.
#[verifier::external_body]
pub(crate) fn queue_enter_alternate_screen(out: &mut std::io::Stdout) {
    out.queue(crossterm::terminal::EnterAlternateScreen).expect("queueing a command failed");
}

/// Relies on queueing `crossterm::terminal::LeaveAlternateScreen`. A
/// failure is ignored: this command restores the terminal, and one
/// failing step must not short-circuit the rest of a restoration.
#[verifier::external_body]
pub(crate) fn queue_leave_alternate_screen(out: &mut std::io::Stdout) {
    let _ = out.queue(crossterm::terminal::LeaveAlternateScreen);
}

/// Relies on `crossterm::terminal::enable_raw_mode`, which switches the
/// driver to non-canonical, non-echoing input.
#[verifier::external_body]
pub(crate) fn raw_mode_on() {
    crossterm::terminal::enable_raw_mode().expect("enabling raw mode failed");
}

/// Relies on `crossterm::terminal::disable_raw_mode`. A failure is
/// ignored: this call restores the terminal, and one failing step must
/// not short-circuit the rest of a restoration.
#[verifier::external_body]
pub(crate) fn raw_mode_off() {
    let _ = crossterm::terminal::disable_raw_mode();
}

/// Relies on queueing `crossterm::event::EnableMouseCapture`.
#[verifier::external_body]
pub(crate) fn queue_enable_mouse_capture(out: &mut std::io::Stdout) {
    out.queue(crossterm::event::EnableMouseCapture).expect("queueing a command failed");
}

/// Relies on queueing `crossterm::event::DisableMouseCapture`. A failure
/// is ignored: this command restores the terminal, and one failing step
/// must not short-circuit the rest of a restoration.
#[verifier::external_body]
pub(crate) fn queue_disable_mouse_capture(out: &mut std::io::Stdout) {
    let _ = out.queue(crossterm::event::DisableMouseCapture);
}

/// Relies on queueing `crossterm::cursor::Show`. A failure is ignored:
/// this command restores the terminal, and one failing step must not
/// short-circuit the rest of a restoration.
#[verifier::external_body]
pub(crate) fn queue_show_cursor(out: &mut std::io::Stdout) {
    let _ = out.queue(crossterm::cursor::Show);
}

/// Relies on queueing `crossterm::cursor::Hide`.
#[verifier::external_body]
pub(crate) fn queue_hide_cursor(out: &mut std::io::Stdout) {
    out.queue(crossterm::cursor::Hide).expect("queueing a command failed");
}

/// Relies on queueing `crossterm::terminal::SetTitle` with the given text.
#[verifier::external_body]
pub(crate) fn queue_set_title(out: &mut std::io::Stdout, title: &str) {
    out.queue(crossterm::terminal::SetTitle(title)).expect("queueing a command failed");
}

/// Relies on queueing `crossterm::cursor::MoveTo` with the given column
/// and row.
#[verifier::external_body]
pub(crate) fn queue_move_to(out: &mut std::io::Stdout, x: u16, y: u16) {
    out.queue(crossterm::cursor::MoveTo(x, y)).expect("queueing a command failed");
}

/// Relies on queueing `crossterm::cursor::MoveLeft`.
#[verifier::external_body]
pub(crate) fn queue_move_left(out: &mut std::io::Stdout, cells: u16) {
    out.queue(crossterm::cursor::MoveLeft(cells)).expect("queueing a command failed");
}

/// Relies on queueing `crossterm::cursor::MoveRight`.
#[verifier::external_body]
pub(crate) fn queue_move_right(out: &mut std::io::Stdout, cells: u16) {
    out.queue(crossterm::cursor::MoveRight(cells)).expect("queueing a command failed");
}

/// Relies on queueing `crossterm::cursor::MoveUp`.
#[verifier::external_body]
pub(crate) fn queue_move_up(out: &mut std::io::Stdout, cells: u16) {
    out.queue(crossterm::cursor::MoveUp(cells)).expect("queueing a command failed");
}

/// Relies on queueing `crossterm::cursor::MoveDown`.
#[verifier::external_body]
pub(crate) fn queue_move_down(out: &mut std::io::Stdout, cells: u16) {
    out.queue(crossterm::cursor::MoveDown(cells)).expect("queueing a command failed");
}

/// Relies on queueing `crossterm::cursor::SavePosition`.
#[verifier::external_body]
pub(crate) fn queue_save_position(out: &mut std::io::Stdout) {
    out.queue(crossterm::cursor::SavePosition).expect("queueing a command failed");
}

/// Relies on queueing `crossterm::cursor::RestorePosition`.
#[verifier::external_body]
pub(crate) fn queue_restore_position(out: &mut std::io::Stdout) {
    out.queue(crossterm::cursor::RestorePosition).expect("queueing a command failed");
}

/// Relies on queueing `crossterm::style::SetForegroundColor` with
/// `Color::AnsiValue`, an index into the 256-color palette whose first
/// sixteen entries are the named ANSI colors.
#[verifier::external_body]
pub(crate) fn queue_foreground_ansi(out: &mut std::io::Stdout, value: u8) {
    out.queue(crossterm::style::SetForegroundColor(crossterm::style::Color::AnsiValue(value)))
        .expect("queueing a command failed");
}

/// Relies on queueing `crossterm::style::SetForegroundColor` with
/// `Color::Rgb`.
#[verifier::external_body]
pub(crate) fn queue_foreground_rgb(out: &mut std::io::Stdout, r: u8, g: u8, b: u8) {
    out.queue(crossterm::style::SetForegroundColor(crossterm::style::Color::Rgb { r, g, b }))
        .expect("queueing a command failed");
}

/// Relies on queueing `crossterm::style::SetBackgroundColor` with
/// `Color::AnsiValue`.
#[verifier::external_body]
pub(crate) fn queue_background_ansi(out: &mut std::io::Stdout, value: u8) {
    out.queue(crossterm::style::SetBackgroundColor(crossterm::style::Color::AnsiValue(value)))
        .expect("queueing a command failed");
}

/// Relies on queueing `crossterm::style::SetBackgroundColor` with
/// `Color::Rgb`.
#[verifier::external_body]
pub(crate) fn queue_background_rgb(out: &mut std::io::Stdout, r: u8, g: u8, b: u8) {
    out.queue(crossterm::style::SetBackgroundColor(crossterm::style::Color::Rgb { r, g, b }))
        .expect("queueing a command failed");
}

/// Relies on `crossterm::style::Attribute::Italic` printing its escape
/// sequence through its `Display` implementation.
#[verifier::external_body]
pub(crate) fn write_italic_on(out: &mut std::io::Stdout) {
    write!(out, "{}", crossterm::style::Attribute::Italic).expect("write to stdout failed");
}

/// Relies on `crossterm::style::Attribute::NoItalic` printing its escape
/// sequence through its `Display` implementation.
#[verifier::external_body]
pub(crate) fn write_italic_off(out: &mut std::io::Stdout) {
    write!(out, "{}", crossterm::style::Attribute::NoItalic).expect("write to stdout failed");
}

/// Relies on queueing `crossterm::style::ResetColor`.
#[verifier::external_body]
pub(crate) fn queue_reset_colors(out: &mut std::io::Stdout) {
    out.queue(crossterm::style::ResetColor).expect("queueing a command failed");
}

/// Relies on queueing `crossterm::terminal::Clear` over all cells.
#[verifier::external_body]
pub(crate) fn queue_clear_all(out: &mut std::io::Stdout) {
    out.queue(crossterm::terminal::Clear(crossterm::terminal::ClearType::All))
        .expect("queueing a command failed");
}

/// Relies on queueing `crossterm::terminal::Clear` from the cursor
/// position to the end of the screen (`ClearType::FromCursorDown`).
#[verifier::external_body]
pub(crate) fn queue_clear_to_end(out: &mut std::io::Stdout) {
    out.queue(crossterm::terminal::Clear(crossterm::terminal::ClearType::FromCursorDown))
        .expect("queueing a command failed");
}

/// Relies on `std::io::Write::write_all` on the standard output handle.
#[verifier::external_body]
pub(crate) fn write_bytes_out(out: &mut std::io::Stdout, bytes: &[u8]) {
    out.write_all(bytes).expect("write to stdout failed");
}

/// Relies on `std::io::Write::flush` on the standard output handle.
#[verifier::external_body]
pub(crate) fn flush_out(out: &mut std::io::Stdout) {
    out.flush().expect("flushing failed");
}

} // verus!
