//! The buffered command vocabulary of the terminal session.
//!
//! Every operation of the session that affects the terminal issues exactly
//! one [`Command`] into the session's output buffer; nothing reaches the
//! driver until `flush` performs the buffered commands in order.
//! [`CommandModel`] is the mathematical view of a command, with strings and
//! byte buffers abstracted to sequences.

use crate::util::{Color, Point};
use vstd::prelude::*;

verus! {

/// One buffered command to the terminal driver.
#[derive(Debug, PartialEq, Eq)]
pub enum Command {
    EnterAlternateScreen,
    LeaveAlternateScreen,
    EnableRawMode,
    DisableRawMode,
    EnableMouseCapture,
    DisableMouseCapture,
    ShowCursor,
    HideCursor,
    SetTitle(String),
    SetCursor(Point),
    MoveLeft(u16),
    MoveRight(u16),
    MoveUp(u16),
    MoveDown(u16),
    SavePosition,
    RestorePosition,
    SetForegroundColor(Color),
    SetBackgroundColor(Color),
    EnableItalic,
    DisableItalic,
    ResetColors,
    Clear,
    ClearFromCursorToEnd,
    Write(String),
    WriteBytes(Vec<u8>),
}

/// The mathematical view of a [`Command`].
pub enum CommandModel {
    EnterAlternateScreen,
    LeaveAlternateScreen,
    EnableRawMode,
    DisableRawMode,
    EnableMouseCapture,
    DisableMouseCapture,
    ShowCursor,
    HideCursor,
    SetTitle(Seq<char>),
    SetCursor(Point),
    MoveLeft(u16),
    MoveRight(u16),
    MoveUp(u16),
    MoveDown(u16),
    SavePosition,
    RestorePosition,
    SetForegroundColor(Color),
    SetBackgroundColor(Color),
    EnableItalic,
    DisableItalic,
    ResetColors,
    Clear,
    ClearFromCursorToEnd,
    Write(Seq<char>),
    WriteBytes(Seq<u8>),
}

impl View for Command {
    type V = CommandModel;

    open spec fn view(&self) -> CommandModel {
        match self {
            Command::EnterAlternateScreen => CommandModel::EnterAlternateScreen,
            Command::LeaveAlternateScreen => CommandModel::LeaveAlternateScreen,
            Command::EnableRawMode => CommandModel::EnableRawMode,
            Command::DisableRawMode => CommandModel::DisableRawMode,
            Command::EnableMouseCapture => CommandModel::EnableMouseCapture,
            Command::DisableMouseCapture => CommandModel::DisableMouseCapture,
            Command::ShowCursor => CommandModel::ShowCursor,
            Command::HideCursor => CommandModel::HideCursor,
            Command::SetTitle(title) => CommandModel::SetTitle(title@),
            Command::SetCursor(point) => CommandModel::SetCursor(*point),
            Command::MoveLeft(cells) => CommandModel::MoveLeft(*cells),
            Command::MoveRight(cells) => CommandModel::MoveRight(*cells),
            Command::MoveUp(cells) => CommandModel::MoveUp(*cells),
            Command::MoveDown(cells) => CommandModel::MoveDown(*cells),
            Command::SavePosition => CommandModel::SavePosition,
            Command::RestorePosition => CommandModel::RestorePosition,
            Command::SetForegroundColor(color) => CommandModel::SetForegroundColor(*color),
            Command::SetBackgroundColor(color) => CommandModel::SetBackgroundColor(*color),
            Command::EnableItalic => CommandModel::EnableItalic,
            Command::DisableItalic => CommandModel::DisableItalic,
            Command::ResetColors => CommandModel::ResetColors,
            Command::Clear => CommandModel::Clear,
            Command::ClearFromCursorToEnd => CommandModel::ClearFromCursorToEnd,
            Command::Write(text) => CommandModel::Write(text@),
            Command::WriteBytes(bytes) => CommandModel::WriteBytes(bytes@),
        }
    }
}

impl DeepView for Command {
    type V = CommandModel;

    open spec fn deep_view(&self) -> CommandModel {
        self.view()
    }
}

} // verus!
