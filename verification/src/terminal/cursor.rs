//! Moving the cursor, scrolling, erasing and drawing.
use super::model::{column_number, no_column, resolve, row_floor, Place};
use super::TerminalState;
use crate::cell::{columns, Cell, CellModel};
use crate::escape::{EraseInDisplay, Position};
use vstd::prelude::*;

verus! {

/// Where a position is on an axis on which the cursor is at `from`.
fn resolve_position(position: &Position, from: i64) -> (place: i64)
    requires
        *position matches Position::Relative(distance) ==> i64::MIN <= from + distance <= i64::MAX,
    ensures
        place == resolve(*position, from as int),
{
    match *position {
        Position::Relative(distance) => {
            let place: i64 = from + distance;
            if place > 0 {
                place
            } else {
                0
            }
        },
        Position::Absolute(place) => place,
    }
}

/// The number that a column is where a distance is added to it.
fn number_of_column(x: usize) -> (number: i64)
    requires
        x <= i64::MAX || x == no_column(),
    ensures
        number == column_number(x as int),
{
    if x as u64 == u64::MAX {
        -1
    } else {
        x as i64
    }
}

impl TerminalState {
    /// Sets the cursor position. x and y are 0-based and relative to the
    /// top left of the visible screen.
    pub(super) fn set_cursor_pos(&mut self, x: &Position, y: &Position)
        requires
            old(self)@.wf_core(),
            *x matches Position::Absolute(place) ==> place >= -1,
            *y matches Position::Absolute(place) ==> place >= row_floor(),
            *x matches Position::Relative(distance) ==> -u32::MAX <= distance <= u32::MAX,
            *y matches Position::Relative(distance) ==> -u32::MAX <= distance <= u32::MAX,
        ensures
            final(self)@ == old(self)@.set_cursor_pos(*x, *y),
            final(self)@.wf_core(),
            !(*x matches Position::Absolute(place) && place < 0) && !(
            *y matches Position::Absolute(place) && place < 0) ==> final(self)@.cursor_on_screen(),
            old(self)@.wf() ==> final(self)@.wf(),
    {
        let to_x: i64 = resolve_position(x, number_of_column(self.cursor.x));
        let to_y: i64 = resolve_position(y, self.cursor.y);
        self.cursor_to(to_x, to_y);
    }

    /// Moves the cursor to a cell, or to the cell of the screen that is nearest to it
    /// to the left and above. It can go before the first column and above the first row.
    #[verifier::rlimit(30)]
    fn cursor_to(&mut self, x: i64, y: i64)
        requires
            old(self)@.wf_core(),
            x >= -1,
            y >= row_floor(),
        ensures
            final(self)@ == old(self)@.cursor_to(x as int, y as int),
            final(self)@.wf_core(),
            x >= 0 && y >= 0 ==> final(self)@.cursor_on_screen(),
            old(self)@.wf() ==> final(self)@.wf(),
    {
        let screen = self.screen();
        let rows: i64 = screen.physical_rows as i64;
        let cols: i64 = screen.physical_cols as i64;
        let new_y: i64 = if y < rows - 1 {
            y
        } else {
            rows - 1
        };
        let new_x: usize = if x < 0 {
            usize::MAX
        } else if x < cols - 1 {
            x as usize
        } else {
            (cols - 1) as usize
        };
        self.dirty_row(self.cursor.y);
        self.dirty_row(new_y);
        self.cursor_at(new_x, new_y);
    }

    fn cursor_at(&mut self, x: usize, y: i64)
        requires
            old(self)@.wf_core(),
            x < old(self)@.cols() || x == no_column(),
            row_floor() <= y < old(self)@.rows(),
        ensures
            final(self)@ == old(self)@.cursor_at(Place { x: x as int, y: y as int }),
            final(self)@.wf_core(),
            x < old(self)@.cols() && y >= 0 ==> final(self)@.cursor_on_screen(),
            old(self)@.wf() ==> final(self)@.wf(),
    {
        self.cursor.x = x;
        self.cursor.y = y;
        self.wrap_next = false;
    }

    fn dirty_row(&mut self, y: i64)
        requires
            old(self)@.wf_core(),
        ensures
            final(self)@ == old(self)@.dirty_row(y as int),
            final(self)@.rows() == old(self)@.rows(),
            final(self)@.cols() == old(self)@.cols(),
            final(self)@.wf_core(),
            old(self)@.wf() ==> final(self)@.wf(),
    {
        self.screen_mut().dirty_line(y);
    }

    pub(super) fn save_cursor(&mut self)
        requires
            old(self)@.wf_core(),
        ensures
            final(self)@ == old(self)@.save_cursor(),
            final(self)@.wf_core(),
            old(self)@.wf() ==> final(self)@.wf(),
    {
        self.saved_cursor = self.cursor;
    }

    pub(super) fn restore_cursor(&mut self)
        requires
            old(self)@.wf_core(),
        ensures
            final(self)@ == old(self)@.restore_cursor(),
            final(self)@.wf_core(),
            old(self)@.saved_in_view() ==> final(self)@.cursor_on_screen(),
            old(self)@.wf() ==> final(self)@.wf(),
    {
        let x: i64 = number_of_column(self.saved_cursor.x);
        let y: i64 = self.saved_cursor.y;
        self.set_cursor_pos(&Position::Absolute(x), &Position::Absolute(y));
    }

    /// The first row of the screen in the scroll region.
    fn region_top(&self) -> (row: i64)
        ensures
            row == self@.region_top(),
    {
        if self.scroll_region.start > 0 {
            self.scroll_region.start
        } else {
            0
        }
    }

    pub(super) fn scroll_up(&mut self, num_rows: usize)
        requires
            old(self)@.wf(),
        ensures
            final(self)@ == old(self)@.scroll_up(num_rows as int),
            final(self)@.wf(),
    {
        self.clear_selection();
        let region = self.region_top()..self.scroll_region.end;
        self.screen_mut().scroll_up(&region, num_rows);
    }

    pub(super) fn scroll_down(&mut self, num_rows: usize)
        requires
            old(self)@.wf(),
        ensures
            final(self)@ == old(self)@.scroll_down(num_rows as int),
            final(self)@.wf(),
    {
        self.clear_selection();
        let region = self.region_top()..self.scroll_region.end;
        self.screen_mut().scroll_down(&region, num_rows);
    }

    pub(super) fn new_line(&mut self, move_to_first_column: bool)
        requires
            old(self)@.wf(),
        ensures
            final(self)@ == old(self)@.new_line(move_to_first_column),
            final(self)@.wf(),
            old(self)@.cursor_on_screen() ==> final(self)@.cursor_on_screen(),
            move_to_first_column ==> final(self)@.has_column(),
    {
        let x: i64 = if move_to_first_column {
            0
        } else {
            number_of_column(self.cursor.x)
        };
        let y: i64 = self.cursor.y;
        let y: i64 = if y == self.scroll_region.end - 1 {
            self.scroll_up(1);
            y
        } else {
            y + 1
        };
        self.set_cursor_pos(&Position::Absolute(x), &Position::Absolute(y));
    }

    /// Moves the cursor down one line in the same column.
    /// If the cursor is at the bottom margin, the page scrolls up.
    pub(super) fn c1_index(&mut self)
        requires
            old(self)@.wf(),
        ensures
            final(self)@ == old(self)@.c1_index(),
            final(self)@.wf(),
            old(self)@.cursor_on_screen() ==> final(self)@.cursor_on_screen(),
    {
        let y: i64 = self.cursor.y;
        let y: i64 = if y == self.scroll_region.end - 1 {
            self.scroll_up(1);
            y
        } else {
            y + 1
        };
        self.set_cursor_pos(&Position::Relative(0), &Position::Absolute(y));
    }

    /// Moves the cursor to the first position on the next line.
    /// If the cursor is at the bottom margin, the page scrolls up.
    pub(super) fn c1_nel(&mut self)
        requires
            old(self)@.wf(),
        ensures
            final(self)@ == old(self)@.new_line(true),
            final(self)@.wf(),
            old(self)@.cursor_on_screen() ==> final(self)@.cursor_on_screen(),
    {
        self.new_line(true);
    }

    /// Sets a horizontal tab stop at the column where the cursor is.
    pub(super) fn c1_hts(&mut self)
        requires
            old(self)@.wf(),
            old(self)@.has_column(),
        ensures
            final(self)@ == old(self)@.c1_hts(),
            final(self)@.wf(),
    {
        self.tabs.set_tab_stop(self.cursor.x);
    }

    /// Moves the cursor to the next tab stop. If there are no more tab stops,
    /// the cursor moves to the right margin. HT does not cause text to auto
    /// wrap.
    pub(super) fn c0_horizontal_tab(&mut self)
        requires
            old(self)@.wf(),
            old(self)@.has_column(),
        ensures
            final(self)@ == old(self)@.horizontal_tab(),
            final(self)@.wf(),
            final(self)@.cursor_on_screen(),
    {
        let x: usize = match self.tabs.find_next_tab_stop(self.cursor.x) {
            Some(x) => x,
            None => self.screen().physical_cols - 1,
        };
        self.set_cursor_pos(&Position::Absolute(x as i64), &Position::Relative(0));
    }

    /// Move the cursor up 1 line.  If the position is at the top scroll margin,
    /// scroll the region down.
    pub(super) fn c1_reverse_index(&mut self)
        requires
            old(self)@.wf(),
            old(self)@.cursor.y > row_floor(),
        ensures
            final(self)@ == old(self)@.c1_reverse_index(),
            final(self)@.wf(),
            old(self)@.cursor_on_screen() && (old(self)@.cursor.y > 0 || old(self)@.region_start
                == 0) ==> final(self)@.cursor_on_screen(),
    {
        let y: i64 = self.cursor.y;
        let y: i64 = if y == self.scroll_region.start {
            self.scroll_down(1);
            y
        } else {
            y - 1
        };
        self.set_cursor_pos(&Position::Relative(0), &Position::Absolute(y));
    }

    #[verifier::rlimit(30)]
    pub(super) fn erase_in_display(&mut self, erase: EraseInDisplay)
        requires
            old(self)@.wf_core(),
        ensures
            final(self)@ == old(self)@.erase_in_display(erase),
            final(self)@.wf_core(),
            old(self)@.wf() ==> final(self)@.wf(),
    {
        let ghost before = self@;
        let ghost cell = CellModel::space(before.pen.sgr_only());
        let cy: i64 = self.cursor.y;
        let pen = self.pen.clone_sgr_only();
        let cols: usize = self.screen().physical_cols;
        let rows: i64 = self.screen().physical_rows as i64;
        let first: i64 = match erase {
            EraseInDisplay::EraseToEndOfDisplay => cy,
            _ => 0,
        };
        let last: i64 = match erase {
            EraseInDisplay::EraseToEndOfDisplay => rows,
            EraseInDisplay::EraseToStartOfDisplay => cy,
            EraseInDisplay::EraseDisplay => rows,
            EraseInDisplay::EraseScrollback => 0,
        };
        let mut y: i64 = first;
        assert(self@.active().lines =~= before.active().fill_rows(
            first as int,
            y as int,
            0,
            cols as int,
            cell,
        ).lines);
        while y < last
            invariant
                first <= y,
                y <= last || y == first,
                before.wf_core(),
                cols == before.cols(),
                cell == CellModel::space(pen@),
                self@ == before.with_active(
                    before.active().fill_rows(first as int, y as int, 0, cols as int, cell),
                ),
            decreases last - y,
        {
            let ghost now = self@.active();
            self.screen_mut().clear_line(y, 0..cols, &pen);
            y += 1;
            assert(self@.active().lines =~= before.active().fill_rows(
                first as int,
                y as int,
                0,
                cols as int,
                cell,
            ).lines);
        }
        let ghost erased = self@;
        assert(erased.active().lines =~= before.active().fill_rows(
            first as int,
            last as int,
            0,
            cols as int,
            cell,
        ).lines);
        let mut y: i64 = first;
        while y < last
            invariant_except_break
                self@ == erased,
                forall|j: int| first <= j < y ==> !#[trigger] before.selects(0, cols as int, j),
            invariant
                first <= y,
                erased.wf_core(),
                erased.selection_range == before.selection_range,
                cols == before.cols(),
            ensures
                self@ == (if exists|j: int|
                    first <= j < last && #[trigger] before.selects(0, cols as int, j) {
                    erased.without_selection()
                } else {
                    erased
                }),
            decreases last - y,
        {
            let gone = self.clear_selection_if_intersects(0..cols, y);
            assert(before.selects(0, cols as int, y as int) == erased.selects(
                0,
                cols as int,
                y as int,
            ));
            if gone {
                break;
            }
            y += 1;
        }
    }

    /// Puts a character that takes `width` columns into the cell where the cursor is.
    fn draw(&mut self, c: char, width: usize)
        requires
            old(self)@.wf(),
            old(self)@.has_column(),
            width <= 3,
        ensures
            final(self)@ == old(self)@.draw(c, width as int),
            final(self)@.wf(),
    {
        let x: usize = self.cursor.x;
        let y: i64 = self.cursor.y;
        let pen = self.pen.duplicate();
        self.screen_mut().set_wide_cell(x, y, c, width, &pen);
    }

    /// Moves the cursor over a character that was drawn.
    fn advance(&mut self, width: usize)
        requires
            old(self)@.wf(),
            old(self)@.has_column(),
            width <= 3,
        ensures
            final(self)@ == old(self)@.advance(width as int),
            final(self)@.wf(),
            old(self)@.cursor_on_screen() ==> final(self)@.cursor_on_screen(),
    {
        if self.cursor.x + width < self.screen().physical_cols {
            self.cursor.x = self.cursor.x + width;
            self.wrap_next = false;
        } else {
            self.wrap_next = true;
        }
    }

    /// Draws a character that takes `width` columns.
    pub fn print_wide(&mut self, c: char, width: usize)
        requires
            old(self)@.wf(),
            old(self)@.wrap_next || old(self)@.has_column(),
            width <= 3,
        ensures
            final(self)@ == old(self)@.print_wide(c, width as int),
            final(self)@.wf(),
            old(self)@.cursor_on_screen() ==> final(self)@.cursor_on_screen(),
    {
        if self.wrap_next {
            self.new_line(true);
        }
        let x: usize = self.cursor.x;
        let y: i64 = self.cursor.y;
        self.draw(c, width);
        let _ = self.clear_selection_if_intersects(x..x + width, y);
        self.advance(width);
    }

    /// Draws a character.
    pub(super) fn print(&mut self, c: char)
        requires
            old(self)@.wf(),
            old(self)@.wrap_next || old(self)@.has_column(),
        ensures
            final(self)@ == old(self)@.print(c),
            ' ' <= c <= '~' ==> final(self)@ == old(self)@.print_wide(c, 1),
            final(self)@.wf(),
            old(self)@.cursor_on_screen() ==> final(self)@.cursor_on_screen(),
    {
        let cell = Cell::new(c, self.pen.duplicate());
        let width: usize = cell.width();
        self.print_wide(c, width);
    }
}

} // verus!
