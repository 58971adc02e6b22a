//! The one-command operations of the session: each issues exactly one
//! buffered command to the driver adapter and performs no other state
//! change.

use crate::command::{Command, CommandModel};
use crate::util::{Color, DriverColor, Point};
use crate::Terminal;
use vstd::prelude::*;

verus! {

/// The total mapping from the normalized color model to the driver's
/// representation: each named ANSI color maps to its index among the first
/// sixteen entries of the 256-color palette, a palette byte maps to
/// itself, and an RGB triple is passed through. Every normalized variant
/// maps to exactly one driver variant; there is no fallback.
pub open spec fn spec_convert_color(color: Color) -> DriverColor {
    match color {
        Color::Black => DriverColor::Ansi(0),
        Color::DarkRed => DriverColor::Ansi(1),
        Color::DarkGreen => DriverColor::Ansi(2),
        Color::DarkYellow => DriverColor::Ansi(3),
        Color::DarkBlue => DriverColor::Ansi(4),
        Color::DarkMagenta => DriverColor::Ansi(5),
        Color::DarkCyan => DriverColor::Ansi(6),
        Color::Gray => DriverColor::Ansi(7),
        Color::DarkGray => DriverColor::Ansi(8),
        Color::Red => DriverColor::Ansi(9),
        Color::Green => DriverColor::Ansi(10),
        Color::Yellow => DriverColor::Ansi(11),
        Color::Blue => DriverColor::Ansi(12),
        Color::Magenta => DriverColor::Ansi(13),
        Color::Cyan => DriverColor::Ansi(14),
        Color::White => DriverColor::Ansi(15),
        Color::Rgb { r, g, b } => DriverColor::Rgb(r, g, b),
        Color::Byte(value) => DriverColor::Ansi(value),
    }
}

impl Terminal {
    /// Translates a normalized color to the driver's representation.
    pub fn convert_color(color: Color) -> (r: DriverColor)
        ensures
            r == spec_convert_color(color),
    {
        match color {
            Color::Black => DriverColor::Ansi(0),
            Color::DarkRed => DriverColor::Ansi(1),
            Color::DarkGreen => DriverColor::Ansi(2),
            Color::DarkYellow => DriverColor::Ansi(3),
            Color::DarkBlue => DriverColor::Ansi(4),
            Color::DarkMagenta => DriverColor::Ansi(5),
            Color::DarkCyan => DriverColor::Ansi(6),
            Color::Gray => DriverColor::Ansi(7),
            Color::DarkGray => DriverColor::Ansi(8),
            Color::Red => DriverColor::Ansi(9),
            Color::Green => DriverColor::Ansi(10),
            Color::Yellow => DriverColor::Ansi(11),
            Color::Blue => DriverColor::Ansi(12),
            Color::Magenta => DriverColor::Ansi(13),
            Color::Cyan => DriverColor::Ansi(14),
            Color::White => DriverColor::Ansi(15),
            Color::Rgb { r, g, b } => DriverColor::Rgb(r, g, b),
            Color::Byte(value) => DriverColor::Ansi(value),
        }
    }

    /// Buffers the command that enters the alternate screen buffer.
    pub fn enter_alternate_dimension(&mut self)
        ensures
            Terminal::queue_step(*old(self), *final(self), CommandModel::EnterAlternateScreen),
    {
        self.queue(Command::EnterAlternateScreen);
    }

    /// Buffers the command that leaves the alternate screen buffer.
    pub fn exit_alternate_dimension(&mut self)
        ensures
            Terminal::queue_step(*old(self), *final(self), CommandModel::LeaveAlternateScreen),
    {
        self.queue(Command::LeaveAlternateScreen);
    }

    /// Buffers the command that sets the terminal title.
    pub fn set_title(&mut self, title: &str)
        ensures
            Terminal::queue_step(*old(self), *final(self), CommandModel::SetTitle(title@)),
    {
        self.queue(Command::SetTitle(title.to_owned()));
    }

    /// Buffers the command that enables raw (non-canonical, non-echoing)
    /// input mode.
    pub fn enable_raw_mode(&mut self)
        ensures
            Terminal::queue_step(*old(self), *final(self), CommandModel::EnableRawMode),
    {
        self.queue(Command::EnableRawMode);
    }

    /// Buffers the command that disables raw input mode.
    pub fn disable_raw_mode(&mut self)
        ensures
            Terminal::queue_step(*old(self), *final(self), CommandModel::DisableRawMode),
    {
        self.queue(Command::DisableRawMode);
    }

    /// Buffers the command that enables mouse-event reporting.
    pub fn enable_mouse_capture(&mut self)
        ensures
            Terminal::queue_step(*old(self), *final(self), CommandModel::EnableMouseCapture),
    {
        self.queue(Command::EnableMouseCapture);
    }

    /// Buffers the command that disables mouse-event reporting.
    pub fn disable_mouse_capture(&mut self)
        ensures
            Terminal::queue_step(*old(self), *final(self), CommandModel::DisableMouseCapture),
    {
        self.queue(Command::DisableMouseCapture);
    }

    /// Buffers the command that shows the cursor.
    pub fn show_cursor(&mut self)
        ensures
            Terminal::queue_step(*old(self), *final(self), CommandModel::ShowCursor),
    {
        self.queue(Command::ShowCursor);
    }

    /// Buffers the command that hides the cursor.
    pub fn hide_cursor(&mut self)
        ensures
            Terminal::queue_step(*old(self), *final(self), CommandModel::HideCursor),
    {
        self.queue(Command::HideCursor);
    }

    /// Buffers the command that moves the cursor to the given cell.
    pub fn set_cursor(&mut self, point: Point)
        ensures
            Terminal::queue_step(*old(self), *final(self), CommandModel::SetCursor(point)),
    {
        self.queue(Command::SetCursor(point));
    }

    /// Buffers the command that moves the cursor left by the given number
    /// of cells.
    pub fn move_cursor_left(&mut self, cells: u16)
        ensures
            Terminal::queue_step(*old(self), *final(self), CommandModel::MoveLeft(cells)),
    {
        self.queue(Command::MoveLeft(cells));
    }

    /// Buffers the command that moves the cursor right by the given number
    /// of cells.
    pub fn move_cursor_right(&mut self, cells: u16)
        ensures
            Terminal::queue_step(*old(self), *final(self), CommandModel::MoveRight(cells)),
    {
        self.queue(Command::MoveRight(cells));
    }

    /// Buffers the command that moves the cursor up by the given number of
    /// cells.
    pub fn move_cursor_up(&mut self, cells: u16)
        ensures
            Terminal::queue_step(*old(self), *final(self), CommandModel::MoveUp(cells)),
    {
        self.queue(Command::MoveUp(cells));
    }

    /// Buffers the command that moves the cursor down by the given number
    /// of cells.
    pub fn move_cursor_down(&mut self, cells: u16)
        ensures
            Terminal::queue_step(*old(self), *final(self), CommandModel::MoveDown(cells)),
    {
        self.queue(Command::MoveDown(cells));
    }

    /// Buffers the command that saves the cursor position.
    pub fn save_cursor_point(&mut self)
        ensures
            Terminal::queue_step(*old(self), *final(self), CommandModel::SavePosition),
    {
        self.queue(Command::SavePosition);
    }

    /// Buffers the command that restores the saved cursor position.
    pub fn restore_cursor_point(&mut self)
        ensures
            Terminal::queue_step(*old(self), *final(self), CommandModel::RestorePosition),
    {
        self.queue(Command::RestorePosition);
    }

    /// Buffers the command that sets the foreground color.
    pub fn set_foreground_color(&mut self, color: Color)
        ensures
            Terminal::queue_step(*old(self), *final(self), CommandModel::SetForegroundColor(color)),
    {
        self.queue(Command::SetForegroundColor(color));
    }

    /// Buffers the command that sets the background color.
    pub fn set_background_color(&mut self, color: Color)
        ensures
            Terminal::queue_step(*old(self), *final(self), CommandModel::SetBackgroundColor(color)),
    {
        self.queue(Command::SetBackgroundColor(color));
    }

    /// Buffers the command that enables the italic attribute.
    pub fn enable_italic(&mut self)
        ensures
            Terminal::queue_step(*old(self), *final(self), CommandModel::EnableItalic),
    {
        self.queue(Command::EnableItalic);
    }

    /// Buffers the command that disables the italic attribute.
    pub fn disable_italic(&mut self)
        ensures
            Terminal::queue_step(*old(self), *final(self), CommandModel::DisableItalic),
    {
        self.queue(Command::DisableItalic);
    }

    /// Buffers the command that resets foreground and background colors.
    pub fn reset_colors(&mut self)
        ensures
            Terminal::queue_step(*old(self), *final(self), CommandModel::ResetColors),
    {
        self.queue(Command::ResetColors);
    }

    /// Buffers the command that clears the whole screen.
    pub fn clear(&mut self)
        ensures
            Terminal::queue_step(*old(self), *final(self), CommandModel::Clear),
    {
        self.queue(Command::Clear);
    }

    /// Buffers the command that clears from the cursor position to the
    /// end of the screen.
    pub fn clear_from_cursor_to_end(&mut self)
        ensures
            Terminal::queue_step(*old(self), *final(self), CommandModel::ClearFromCursorToEnd),
    {
        self.queue(Command::ClearFromCursorToEnd);
    }
}

} // verus!
