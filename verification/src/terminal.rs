//! What the engine knows of the terminal: the size of its viewport and how
//! the terminal counts its cells.

use vstd::prelude::*;

use crate::editor::Position;

verus! {

/// The size of the viewport, in character cells.
#[derive(Debug, Clone, Copy, PartialEq, Eq, Structural)]
pub struct Size {
    pub width: u16,
    pub height: u16,
}

/// The number by which the terminal knows column or line `n` of the
/// viewport: it counts from one, in sixteen bits.
pub open spec fn cell_number(n: usize) -> u16 {
    if n < usize::MAX {
        ((n + 1) % 0x1_0000) as u16
    } else {
        (n % 0x1_0000) as u16
    }
}

impl Size {
    /// The viewport of a terminal that has `columns` columns and `lines`
    /// lines, with the status bar and the message bar below it: as wide as
    /// the terminal, and two lines lower, as far as there are lines.
    pub fn viewport(columns: u16, lines: u16) -> (size: Size)
        ensures
            size.width == columns,
            size.height == if lines > 2 {
                lines - 2
            } else {
                0
            },
    {
        let above_messages = Size::of_terminal(columns, lines);
        Size { width: columns, height: above_messages.height.saturating_sub(1) }
    }

    /// What a terminal that has `columns` columns and `lines` lines shows
    /// above its last line, which is left to messages: as wide as the
    /// terminal, and one line lower, if there is one.
    pub fn of_terminal(columns: u16, lines: u16) -> (size: Size)
        ensures
            size.width == columns,
            size.height == if lines > 0 {
                lines - 1
            } else {
                0
            },
    {
        Size { width: columns, height: lines.saturating_sub(1) }
    }
}

/// The column and line by which the terminal knows `position` of the
/// viewport; see [`cell_number`].
pub fn cell(position: &Position) -> (at: (u16, u16))
    ensures
        at.0 == cell_number(position.x),
        at.1 == cell_number(position.y),
{
    let x = position.x.saturating_add(1) % 0x1_0000;
    let y = position.y.saturating_add(1) % 0x1_0000;
    (x as u16, y as u16)
}

} // verus!
