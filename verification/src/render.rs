//! The drawing commands that the library hands to a terminal renderer.

use vstd::prelude::*;

verus! {

/// One command for the renderer. A frame is a sequence of them, carried out
/// in order.
#[derive(Debug, PartialEq, Eq)]
pub enum DrawOp {
    /// Move the write position to an absolute coordinate.
    MoveTo { column: usize, row: usize },
    /// Clear the screen from the write position down.
    ClearBelow,
    /// Write `text` at the write position, on a highlighted background if
    /// `highlighted`, then advance the write position by one column pitch.
    Label { text: String, highlighted: bool },
    /// Move the write position to the start of the next line.
    NextLine,
    /// Write `text` at an absolute coordinate and return to the write
    /// position held before.
    LabelAt { column: usize, row: usize, text: String, highlighted: bool },
    /// Send everything written so far to the terminal.
    Flush,
}

/// A drawing command with its text as a sequence of characters.
pub enum DrawOpView {
    MoveTo { column: nat, row: nat },
    ClearBelow,
    Label { text: Seq<char>, highlighted: bool },
    NextLine,
    LabelAt { column: nat, row: nat, text: Seq<char>, highlighted: bool },
    Flush,
}

impl View for DrawOp {
    type V = DrawOpView;

    open spec fn view(&self) -> DrawOpView {
        match *self {
            DrawOp::MoveTo { column, row } => DrawOpView::MoveTo {
                column: column as nat,
                row: row as nat,
            },
            DrawOp::ClearBelow => DrawOpView::ClearBelow,
            DrawOp::Label { text, highlighted } => DrawOpView::Label { text: text@, highlighted },
            DrawOp::NextLine => DrawOpView::NextLine,
            DrawOp::LabelAt { column, row, text, highlighted } => DrawOpView::LabelAt {
                column: column as nat,
                row: row as nat,
                text: text@,
                highlighted,
            },
            DrawOp::Flush => DrawOpView::Flush,
        }
    }
}

/// Whether the command writes a highlighted label.
pub open spec fn is_highlighted(op: DrawOpView) -> bool {
    match op {
        DrawOpView::Label { highlighted, .. } => highlighted,
        DrawOpView::LabelAt { highlighted, .. } => highlighted,
        _ => false,
    }
}

/// The views of a sequence of drawing commands.
pub open spec fn views(ops: Seq<DrawOp>) -> Seq<DrawOpView> {
    ops.map_values(|op: DrawOp| op@)
}

} // verus!
