//! What the display asks of the terminal, as values: the renderer returns
//! them and the caller carries them out, in order.

use vstd::prelude::*;
use crate::color::Color;

verus! {

/// How a piece of text is shown.
#[derive(Clone, Copy, Debug, PartialEq, Eq, Structural)]
pub enum Style {
    /// As the terminal shows text by default.
    Plain,
    /// In bold.
    Bold,
    /// In italics.
    Italic,
    /// In the given foreground colour.
    Colored(Color),
}

/// One request to the terminal.
#[derive(Debug, PartialEq, Eq)]
pub enum TermOp {
    /// Clear the whole screen.
    ClearAll,
    /// Clear the line the cursor is on.
    ClearLine,
    /// Move the cursor to a column and a row, both counted from zero.
    MoveTo(u16, u16),
    /// Move the cursor to a column of its row.
    MoveToColumn(u16),
    /// Move the cursor up by some rows.
    MoveUp(u16),
    /// Move the cursor down by some rows.
    MoveDown(u16),
    /// Show text at the cursor, in a style.
    Print(Style, String),
    /// Send text to the terminal as it is: an escape sequence.
    Write(String),
    /// End the line, as printing an empty line does.
    NewLine,
    /// Hide the cursor.
    HideCursor,
    /// Show the cursor.
    ShowCursor,
    /// Switch to the alternate screen.
    EnterAlternateScreen,
    /// Switch back from the alternate screen.
    LeaveAlternateScreen,
    /// Hand every key to the program as it is pressed.
    EnableRawMode,
    /// Give the terminal its line discipline back.
    DisableRawMode,
}

/// A [`TermOp`] with its text as a sequence of characters.
pub enum Op {
    ClearAll,
    ClearLine,
    MoveTo(u16, u16),
    MoveToColumn(u16),
    MoveUp(u16),
    MoveDown(u16),
    Print(Style, Seq<char>),
    Write(Seq<char>),
    NewLine,
    HideCursor,
    ShowCursor,
    EnterAlternateScreen,
    LeaveAlternateScreen,
    EnableRawMode,
    DisableRawMode,
}

impl View for TermOp {
    type V = Op;

    open spec fn view(&self) -> Op {
        match *self {
            TermOp::ClearAll => Op::ClearAll,
            TermOp::ClearLine => Op::ClearLine,
            TermOp::MoveTo(col, row) => Op::MoveTo(col, row),
            TermOp::MoveToColumn(col) => Op::MoveToColumn(col),
            TermOp::MoveUp(rows) => Op::MoveUp(rows),
            TermOp::MoveDown(rows) => Op::MoveDown(rows),
            TermOp::Print(style, text) => Op::Print(style, text@),
            TermOp::Write(text) => Op::Write(text@),
            TermOp::NewLine => Op::NewLine,
            TermOp::HideCursor => Op::HideCursor,
            TermOp::ShowCursor => Op::ShowCursor,
            TermOp::EnterAlternateScreen => Op::EnterAlternateScreen,
            TermOp::LeaveAlternateScreen => Op::LeaveAlternateScreen,
            TermOp::EnableRawMode => Op::EnableRawMode,
            TermOp::DisableRawMode => Op::DisableRawMode,
        }
    }
}

/// The requests in `ops`, each by its view.
pub open spec fn ops_view(ops: Seq<TermOp>) -> Seq<Op> {
    ops.map_values(|op: TermOp| op@)
}

/// Adds one request to the end of `out`.
pub fn emit(out: &mut Vec<TermOp>, op: TermOp)
    ensures
        ops_view(final(out)@) == ops_view(old(out)@).push(op@),
{
    out.push(op);
}

/// Adds a request to show `text` in `style` to the end of `out`.
pub fn emit_text(out: &mut Vec<TermOp>, style: Style, text: &str)
    ensures
        ops_view(final(out)@) == ops_view(old(out)@).push(Op::Print(style, text@)),
{
    emit(out, TermOp::Print(style, String::from_str(text)));
}

} // verus!
