//! The selected text.
use crate::screen::ScrollbackOrVisibleRowIndex;
use std::ops::Range;
use vstd::prelude::*;

verus! {

/// A cell of the screen or its scrollback.
#[derive(Debug, Clone, Copy, PartialEq, Eq, Structural)]
pub struct SelectionCoordinate {
    pub x: usize,
    pub y: ScrollbackOrVisibleRowIndex,
}

/// A selection from where it was started to where it was dragged, which may be
/// above its start.
#[derive(Debug, Clone, Copy, PartialEq, Eq, Structural)]
pub struct SelectionRange {
    pub start: SelectionCoordinate,
    pub end: SelectionCoordinate,
}

impl SelectionRange {
    /// The selection with its upper row first.
    pub open spec fn normal(self) -> SelectionRange {
        if self.start.y <= self.end.y {
            self
        } else {
            SelectionRange { start: self.end, end: self.start }
        }
    }

    /// The first of the selected rows.
    pub open spec fn first_row(self) -> int {
        self.normal().start.y as int
    }

    /// The last of the selected rows.
    pub open spec fn last_row(self) -> int {
        self.normal().end.y as int
    }

    /// The column after `x`, or the last that can be told.
    pub open spec fn after(x: usize) -> usize {
        if x < usize::MAX {
            (x + 1) as usize
        } else {
            x
        }
    }

    /// The columns that are selected in a row: the first, and the one after the
    /// last. A row that the selection leaves at its end is selected up to the
    /// greatest column there is.
    pub open spec fn selected(self, row: int) -> (usize, usize) {
        let n = self.normal();
        if row < n.start.y || row > n.end.y {
            (0, 0)
        } else if n.start.y == n.end.y {
            if n.start.x <= n.end.x {
                (n.start.x, Self::after(n.end.x))
            } else {
                (n.end.x, Self::after(n.start.x))
            }
        } else if row == n.end.y {
            (0, Self::after(n.end.x))
        } else if row == n.start.y {
            (n.start.x, usize::MAX)
        } else {
            (0, usize::MAX)
        }
    }

    /// A selection of one cell.
    pub fn start(start: SelectionCoordinate) -> (range: SelectionRange)
        ensures
            range == (SelectionRange { start, end: start }),
    {
        SelectionRange { start, end: start }
    }

    /// The selection dragged to `end`.
    pub fn extend(&self, end: SelectionCoordinate) -> (range: SelectionRange)
        ensures
            range == (SelectionRange { start: self.start, end }),
    {
        SelectionRange { start: self.start, end }
    }

    /// The selection with its upper row first.
    pub fn normalize(&self) -> (range: SelectionRange)
        ensures
            range == self.normal(),
    {
        if self.start.y <= self.end.y {
            *self
        } else {
            SelectionRange { start: self.end, end: self.start }
        }
    }

    /// The selected rows.
    pub fn rows(&self) -> (rows: Range<ScrollbackOrVisibleRowIndex>)
        requires
            self.last_row() < i64::MAX,
        ensures
            rows.start == self.first_row(),
            rows.end == self.last_row() + 1,
    {
        let n = self.normalize();
        n.start.y..n.end.y + 1
    }

    /// The columns that are selected in a row.
    pub fn cols_for_row(&self, row: ScrollbackOrVisibleRowIndex) -> (cols: Range<usize>)
        ensures
            (cols.start, cols.end) == self.selected(row as int),
    {
        let n = self.normalize();
        if row < n.start.y || row > n.end.y {
            0..0
        } else if n.start.y == n.end.y {
            if n.start.x <= n.end.x {
                n.start.x..next_column(n.end.x)
            } else {
                n.end.x..next_column(n.start.x)
            }
        } else if row == n.end.y {
            0..next_column(n.end.x)
        } else if row == n.start.y {
            n.start.x..usize::MAX
        } else {
            0..usize::MAX
        }
    }
}

fn next_column(x: usize) -> (next: usize)
    ensures
        next == SelectionRange::after(x),
{
    if x < usize::MAX {
        x + 1
    } else {
        x
    }
}

/// What is selected does not depend on the direction of the drag, and normalizing
/// a selection does not change what is selected.
pub proof fn law_selection_direction(a: SelectionCoordinate, b: SelectionCoordinate, row: int)
    ensures
        (SelectionRange { start: a, end: b }).selected(row) == (SelectionRange {
            start: b,
            end: a,
        }).selected(row),
        (SelectionRange { start: a, end: b }).normal().selected(row) == (SelectionRange {
            start: a,
            end: b,
        }).selected(row),
{
}

/// Whether a cell comes before another in the order of reading, or is that cell.
pub open spec fn reads_up_to(x: int, y: int, other_x: int, other_y: int) -> bool {
    y < other_y || (y == other_y && x <= other_x)
}

/// A cell is selected where it stands between the two ends of the selection in the order
/// of reading, ends included, whichever of them comes first.
pub proof fn law_selected_cells(sel: SelectionRange, x: int, y: int)
    requires
        0 <= x < usize::MAX,
    ensures
        sel.selected(y).0 <= x < sel.selected(y).1 <==> {
            ||| reads_up_to(sel.start.x as int, sel.start.y as int, x, y) && reads_up_to(
                x,
                y,
                sel.end.x as int,
                sel.end.y as int,
            )
            ||| reads_up_to(sel.end.x as int, sel.end.y as int, x, y) && reads_up_to(
                x,
                y,
                sel.start.x as int,
                sel.start.y as int,
            )
        },
{
}

/// The selected rows are those from the upper to the lower end of the selection.
pub proof fn law_selected_rows(sel: SelectionRange, y: int)
    ensures
        sel.first_row() <= y <= sel.last_row() <==> (sel.start.y <= y <= sel.end.y || sel.end.y <= y
            <= sel.start.y),
{
}

} // verus!
