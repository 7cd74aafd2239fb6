//! The terminal as a mathematical value, and what each operation makes of it.
use crate::attributes::{AttrModel, LinkModel};
use crate::cell::{columns, CellModel};
use crate::escape::{EraseInDisplay, Position};
use crate::hyperlink::Rule;
use crate::input::{LastMouseClick, MouseButton};
use crate::line::{cell_at, LineModel};
use crate::range::meets;
use crate::screen::{at_least, at_most, size_limit, ScreenModel};
use crate::selection::{SelectionCoordinate, SelectionRange};
use crate::tabs::TabModel;
use crate::text::trimmed_end;
use vstd::prelude::*;

verus! {

/// A cell of the visible screen.
#[verifier::ext_equal]
pub struct Place {
    pub x: int,
    pub y: int,
}

/// The state of a terminal.
pub struct TerminalModel {
    pub screen: ScreenModel,
    pub alt_screen: ScreenModel,
    pub alt_screen_is_active: bool,
    pub pen: AttrModel,
    pub cursor: Place,
    pub saved_cursor: Place,
    pub wrap_next: bool,
    /// The first row of the scroll region.
    pub region_start: int,
    /// The row after the last of the scroll region.
    pub region_end: int,
    pub application_cursor_keys: bool,
    pub application_keypad: bool,
    pub bracketed_paste: bool,
    pub sgr_mouse: bool,
    pub button_event_mouse: bool,
    pub current_mouse_button: MouseButton,
    pub mouse_position: Place,
    pub cursor_visible: bool,
    pub current_highlight: Option<LinkModel>,
    pub last_mouse_click: Option<LastMouseClick>,
    /// How many lines of the scrollback the viewport shows.
    pub viewport: int,
    pub selection_start: Option<SelectionCoordinate>,
    pub selection_range: Option<SelectionRange>,
    pub tabs: TabModel,
    pub hyperlink_rules: Seq<Rule>,
    pub title: Seq<char>,
}

/// Where a position is on an axis on which the cursor is at `from`.
pub open spec fn resolve(position: Position, from: int) -> int {
    match position {
        Position::Relative(distance) => at_least(from + distance, 0),
        Position::Absolute(place) => place as int,
    }
}

/// The column of a cursor that was sent before the first column.
pub open spec fn no_column() -> int {
    usize::MAX as int
}

/// The number that a column is where a distance is added to it. The number before the
/// first column is the greatest that 64 bits hold.
pub open spec fn column_number(x: int) -> int {
    if x == u64::MAX {
        -1
    } else {
        x
    }
}

/// The furthest that a cursor can be above the screen.
pub open spec fn row_floor() -> int {
    -0x4000_0000_0000_0000
}

/// Whether a cursor is in a column of a screen for which there are so many tab stops,
/// or before the first column, and not too far above or below the screen.
pub open spec fn cursor_fits(cursor: Place, tab_stops: nat) -> bool {
    &&& 0 <= cursor.x < tab_stops || cursor.x == no_column()
    &&& row_floor() <= cursor.y <= size_limit()
}

impl TerminalModel {
    /// The screen that is shown.
    pub open spec fn active(self) -> ScreenModel {
        if self.alt_screen_is_active {
            self.alt_screen
        } else {
            self.screen
        }
    }

    pub open spec fn with_active(self, screen: ScreenModel) -> TerminalModel {
        if self.alt_screen_is_active {
            TerminalModel { alt_screen: screen, ..self }
        } else {
            TerminalModel { screen, ..self }
        }
    }

    pub open spec fn rows(self) -> int {
        self.screen.rows
    }

    pub open spec fn cols(self) -> int {
        self.screen.cols
    }

    /// What holds of every terminal, whatever it shows and whatever is selected.
    pub open spec fn wf_core(self) -> bool {
        &&& self.screen.wf()
        &&& self.alt_screen.wf()
        &&& self.alt_screen.rows == self.screen.rows
        &&& self.alt_screen.cols == self.screen.cols
        &&& self.alt_screen.scrollback == 0
        &&& -1 <= self.region_start < self.region_end <= self.rows()
        &&& cursor_fits(self.cursor, self.tabs.stops.len())
        &&& cursor_fits(self.saved_cursor, self.tabs.stops.len())
        &&& self.cols() <= self.tabs.stops.len() <= size_limit()
        &&& self.tabs.width > 0
        &&& i64::MIN <= self.mouse_position.y <= size_limit()
        &&& 0 <= self.mouse_position.x <= usize::MAX
        &&& self.selection_range matches Some(sel) ==> sel.last_row() < size_limit()
        &&& self.selection_start matches Some(c) ==> c.y < size_limit()
        &&& 0 <= self.viewport <= size_limit()
    }

    /// The viewport shows lines that are there.
    pub open spec fn viewport_fits(self) -> bool {
        0 <= self.viewport <= self.active().top()
    }

    /// No row below the screen is selected.
    pub open spec fn selection_fits(self) -> bool {
        &&& self.selection_range matches Some(sel) ==> sel.last_row() < self.rows()
        &&& self.selection_start matches Some(c) ==> c.y < self.rows()
    }

    pub open spec fn wf(self) -> bool {
        self.wf_core() && self.viewport_fits() && self.selection_fits()
    }

    /// The cursor is over a cell of the visible screen.
    pub open spec fn cursor_on_screen(self) -> bool {
        0 <= self.cursor.x < self.cols() && 0 <= self.cursor.y < self.rows()
    }

    /// The cursor is in a column.
    pub open spec fn has_column(self) -> bool {
        self.cursor.x != no_column()
    }

    /// The saved cursor is in a column, and not above the screen.
    pub open spec fn saved_in_view(self) -> bool {
        self.saved_cursor.x != no_column() && self.saved_cursor.y >= 0
    }

    /// The saved cursor is over a cell of the visible screen.
    pub open spec fn saved_on_screen(self) -> bool {
        0 <= self.saved_cursor.x < self.cols() && 0 <= self.saved_cursor.y < self.rows()
    }

    /// The first row of the screen in the scroll region.
    pub open spec fn region_top(self) -> int {
        at_least(self.region_start, 0)
    }

    /// The cell in a column of a row of the visible screen; the columns after the
    /// last cell of the row are blank.
    pub open spec fn cell(self, x: int, y: int) -> CellModel {
        cell_at(self.active().row(y).cells, x)
    }

    /// The place of the line at the top of the viewport.
    pub open spec fn viewport_top(self) -> int {
        self.active().top() - self.viewport
    }

    // Selection

    /// The terminal with the selected lines dirty.
    pub open spec fn dirty_selection(self) -> TerminalModel {
        match self.selection_range {
            Some(sel) => {
                let screen = self.active();
                self.with_active(
                    screen.dirty_places(
                        screen.phys_or_first(sel.first_row()),
                        at_most(
                            screen.phys_or_first(sel.last_row() + 1),
                            screen.lines.len() as int,
                        ),
                    ),
                )
            },
            None => self,
        }
    }

    /// The terminal with nothing selected, and no line dirty on that account.
    pub open spec fn without_selection(self) -> TerminalModel {
        TerminalModel { selection_range: None, selection_start: None, ..self }
    }

    /// The terminal with nothing selected; the lines that were are dirty.
    pub open spec fn clear_selection(self) -> TerminalModel {
        self.dirty_selection().without_selection()
    }

    /// Whether one of the columns from `start` up to `end` of `row` is selected.
    pub open spec fn selects(self, start: int, end: int, row: int) -> bool {
        match self.selection_range {
            Some(sel) => meets(
                start,
                end,
                sel.selected(row).0 as int,
                sel.selected(row).1 as int,
            ),
            None => false,
        }
    }

    /// The terminal without its selection where that has one of the columns from
    /// `start` up to `end` of `row`.
    pub open spec fn deselect_cols(self, start: int, end: int, row: int) -> TerminalModel {
        if self.selects(start, end, row) {
            self.without_selection()
        } else {
            self
        }
    }

    /// Whether one of the rows from `first` up to `last` is selected.
    pub open spec fn selects_rows(self, first: int, last: int) -> bool {
        match self.selection_range {
            Some(sel) => meets(first, last, sel.first_row(), sel.last_row() + 1),
            None => false,
        }
    }

    /// The terminal without its selection where that has one of the rows from
    /// `first` up to `last`.
    pub open spec fn deselect_rows(self, first: int, last: int) -> TerminalModel {
        if self.selects_rows(first, last) {
            self.without_selection()
        } else {
            self
        }
    }

    /// What is selected of a row, without the white space at its end.
    pub open spec fn selected_row_text(self, sel: SelectionRange, row: int) -> Seq<char> {
        let cols = sel.selected(row);
        trimmed_end(
            self.active().lines[self.active().phys_or_first(row)].text_of(
                cols.0 as int,
                cols.1 as int,
            ),
        )
    }

    /// What is selected of the `count` rows from the first selected row on, one
    /// line for each; the lines before the first that is not empty are left out.
    pub open spec fn selected_rows_text(self, sel: SelectionRange, count: nat) -> Seq<char>
        decreases count,
    {
        if count == 0 {
            Seq::empty()
        } else {
            let above = self.selected_rows_text(sel, (count - 1) as nat);
            let row = self.selected_row_text(sel, sel.first_row() + count - 1);
            if above.len() > 0 {
                above.push('\n') + row
            } else {
                row
            }
        }
    }

    /// The selected text.
    pub open spec fn selection_text(self) -> Seq<char> {
        match self.selection_range {
            Some(sel) => self.selected_rows_text(
                sel,
                (sel.last_row() - sel.first_row() + 1) as nat,
            ),
            None => Seq::empty(),
        }
    }

    // Viewport and highlight

    /// The terminal with the link under the mouse highlighted.
    pub open spec fn recompute_highlight(self) -> TerminalModel {
        let place = self.active().phys_or_first(self.mouse_position.y - self.viewport);
        let screen = self.active().links_found(place, self.hyperlink_rules);
        TerminalModel {
            current_highlight: screen.link_at(self.mouse_position.x, place),
            ..self.with_active(screen.links_dirty())
        }
    }

    /// The position nearest to the given one that the viewport can have.
    pub open spec fn viewport_near(self, position: int) -> int {
        at_most(at_least(position, 0), self.active().top())
    }

    /// The terminal with its viewport at a position, and the lines in view dirty.
    pub open spec fn show_viewport(self, viewport: int) -> TerminalModel {
        let top = self.active().top() - viewport;
        TerminalModel {
            viewport,
            ..self.with_active(self.active().dirty_places(top, top + self.rows()))
        }
    }

    /// The terminal with its viewport at a position, or as near to it as there are
    /// lines. The lines in view are dirty, and nothing is selected.
    pub open spec fn set_scroll_viewport(self, position: int) -> TerminalModel {
        self.clear_selection().show_viewport(self.viewport_near(position)).recompute_highlight()
    }

    pub open spec fn scroll_viewport(self, delta: int) -> TerminalModel {
        self.set_scroll_viewport(self.viewport - delta)
    }

    // Cursor

    /// The terminal with its cursor at a cell, and nothing to wrap.
    pub open spec fn cursor_at(self, to: Place) -> TerminalModel {
        TerminalModel { cursor: to, wrap_next: false, ..self }
    }

    /// The terminal with a visible row dirty.
    pub open spec fn dirty_row(self, y: int) -> TerminalModel {
        self.with_active(self.active().dirty_line(y))
    }

    /// The terminal with its cursor at a cell, or at the cell of the screen that is
    /// nearest to it to the left and above. The rows that the cursor leaves and
    /// comes to are dirty. A cursor can be sent before the first column and above the
    /// first row.
    pub open spec fn cursor_to(self, x: int, y: int) -> TerminalModel {
        let to = Place {
            x: if x < 0 {
                no_column()
            } else {
                at_most(x, self.cols() - 1)
            },
            y: at_most(y, self.rows() - 1),
        };
        self.dirty_row(self.cursor.y).dirty_row(to.y).cursor_at(to)
    }

    pub open spec fn set_cursor_pos(self, x: Position, y: Position) -> TerminalModel {
        self.cursor_to(resolve(x, column_number(self.cursor.x)), resolve(y, self.cursor.y))
    }

    pub open spec fn save_cursor(self) -> TerminalModel {
        TerminalModel { saved_cursor: self.cursor, ..self }
    }

    pub open spec fn restore_cursor(self) -> TerminalModel {
        self.cursor_to(column_number(self.saved_cursor.x), self.saved_cursor.y)
    }

    // Scrolling

    pub open spec fn scroll_up(self, count: int) -> TerminalModel {
        let cleared = self.clear_selection();
        cleared.with_active(
            cleared.active().scrolled_up(self.region_top(), self.region_end, count),
        )
    }

    pub open spec fn scroll_down(self, count: int) -> TerminalModel {
        let cleared = self.clear_selection();
        cleared.with_active(
            cleared.active().scrolled_down(self.region_top(), self.region_end, count),
        )
    }

    /// The terminal with its cursor in column `x` of the next row. At the bottom of
    /// the scroll region the region scrolls up instead.
    pub open spec fn next_row(self, x: int) -> TerminalModel {
        if self.cursor.y == self.region_end - 1 {
            self.scroll_up(1).cursor_to(x, self.cursor.y)
        } else {
            self.cursor_to(x, self.cursor.y + 1)
        }
    }

    pub open spec fn new_line(self, move_to_first_column: bool) -> TerminalModel {
        self.next_row(
            if move_to_first_column {
                0
            } else {
                column_number(self.cursor.x)
            },
        )
    }

    /// The column of the cursor, or the first where it is before that.
    pub open spec fn column(self) -> int {
        at_least(column_number(self.cursor.x), 0)
    }

    /// The row of the cursor, or the first where it is above that.
    pub open spec fn cursor_row(self) -> int {
        at_least(self.cursor.y, 0)
    }

    /// The terminal after `count` new lines.
    pub open spec fn new_lines(self, count: nat) -> TerminalModel
        decreases count,
    {
        if count == 0 {
            self
        } else {
            self.new_lines((count - 1) as nat).new_line(true)
        }
    }

    pub open spec fn c1_index(self) -> TerminalModel {
        self.next_row(self.column())
    }

    /// The terminal with its cursor one row up. At the top of the scroll region the
    /// region scrolls down instead.
    pub open spec fn c1_reverse_index(self) -> TerminalModel {
        if self.cursor.y == self.region_start {
            self.scroll_down(1).cursor_to(self.column(), self.cursor.y)
        } else {
            self.cursor_to(self.column(), self.cursor.y - 1)
        }
    }

    // Tabs

    pub open spec fn c1_hts(self) -> TerminalModel {
        TerminalModel { tabs: self.tabs.with_stop(self.cursor.x), ..self }
    }

    /// The terminal with its cursor at the next tab stop, or at the right margin
    /// where there is none.
    pub open spec fn horizontal_tab(self) -> TerminalModel {
        self.cursor_to(
            match self.tabs.next_stop(self.cursor.x) {
                Some(x) => x as int,
                None => self.cols() - 1,
            },
            self.cursor_row(),
        )
    }

    /// The terminal after `count` horizontal tabs.
    pub open spec fn horizontal_tabs(self, count: nat) -> TerminalModel
        decreases count,
    {
        if count == 0 {
            self
        } else {
            self.horizontal_tabs((count - 1) as nat).horizontal_tab()
        }
    }

    // Erasing

    /// The first of the rows that are erased, and the row after the last.
    pub open spec fn erased_rows(self, erase: EraseInDisplay) -> (int, int) {
        match erase {
            EraseInDisplay::EraseToEndOfDisplay => (self.cursor.y, self.rows()),
            EraseInDisplay::EraseToStartOfDisplay => (0, self.cursor.y),
            EraseInDisplay::EraseDisplay => (0, self.rows()),
            EraseInDisplay::EraseScrollback => (0, 0),
        }
    }

    /// The terminal with some rows erased. The selection goes where it has one of
    /// their cells.
    pub open spec fn erase_in_display(self, erase: EraseInDisplay) -> TerminalModel {
        let rows = self.erased_rows(erase);
        let erased = self.with_active(
            self.active().fill_rows(
                rows.0,
                rows.1,
                0,
                self.cols(),
                CellModel::space(self.pen.sgr_only()),
            ),
        );
        if exists|y: int| rows.0 <= y < rows.1 && #[trigger] self.selects(0, self.cols(), y) {
            erased.without_selection()
        } else {
            erased
        }
    }

    // Printing

    /// The terminal with a character that takes `width` columns in the cell where the
    /// cursor is, and after it cells that print nothing in the rest of its columns.
    pub open spec fn draw(self, c: char, width: int) -> TerminalModel {
        self.with_active(
            self.active().fill_row(
                self.cursor.y,
                self.cursor.x,
                self.cursor.x + 1,
                CellModel { text: c, attrs: self.pen },
            ).fill_row(
                self.cursor.y,
                self.cursor.x + 1,
                self.cursor.x + width,
                CellModel { text: '\0', attrs: self.pen },
            ),
        )
    }

    /// The terminal with its cursor `width` columns to the right. Where that is not on
    /// the screen, the cursor stays, and the next character goes to the next line.
    pub open spec fn advance(self, width: int) -> TerminalModel {
        if self.cursor.x + width < self.cols() {
            TerminalModel {
                cursor: Place { x: self.cursor.x + width, y: self.cursor.y },
                wrap_next: false,
                ..self
            }
        } else {
            TerminalModel { wrap_next: true, ..self }
        }
    }

    /// The terminal after a character that takes `width` columns was drawn in the
    /// place of the cursor.
    pub open spec fn print_here(self, c: char, width: int) -> TerminalModel {
        self.draw(c, width).deselect_cols(
            self.cursor.x,
            self.cursor.x + width,
            self.cursor.y,
        ).advance(width)
    }

    /// The terminal after a character that takes `width` columns was drawn.
    pub open spec fn print_wide(self, c: char, width: int) -> TerminalModel {
        if self.wrap_next {
            self.new_line(true).print_here(c, width)
        } else {
            self.print_here(c, width)
        }
    }

    pub open spec fn print(self, c: char) -> TerminalModel {
        self.print_wide(c, columns(c) as int)
    }

    // Size

    /// A new terminal.
    pub open spec fn fresh(rows: int, cols: int, scrollback: int, rules: Seq<Rule>) -> TerminalModel {
        TerminalModel {
            screen: ScreenModel::fresh(rows, cols, scrollback),
            alt_screen: ScreenModel::fresh(rows, cols, 0),
            alt_screen_is_active: false,
            pen: AttrModel::plain(),
            cursor: Place { x: 0, y: 0 },
            saved_cursor: Place { x: 0, y: 0 },
            wrap_next: false,
            region_start: 0,
            region_end: rows,
            application_cursor_keys: false,
            application_keypad: false,
            bracketed_paste: false,
            sgr_mouse: false,
            button_event_mouse: false,
            current_mouse_button: MouseButton::NoButton,
            mouse_position: Place { x: 0, y: 0 },
            cursor_visible: true,
            current_highlight: None,
            last_mouse_click: None,
            viewport: 0,
            selection_start: None,
            selection_range: None,
            tabs: TabModel::regular(cols as nat, 8),
            hyperlink_rules: rules,
            title: "wezterm"@,
        }
    }

    /// The terminal with screens of another size.
    pub open spec fn resize(self, rows: int, cols: int) -> TerminalModel {
        self.with_size(rows, cols).set_scroll_viewport(0)
    }

    /// The terminal with screens of another size, and everything else as it was but
    /// for the scroll region, which is the whole screen, and the tab stops in the
    /// columns that are new.
    pub open spec fn with_size(self, rows: int, cols: int) -> TerminalModel {
        TerminalModel {
            screen: self.screen.resized(rows, cols),
            alt_screen: self.alt_screen.resized(rows, cols),
            region_start: 0,
            region_end: rows,
            tabs: self.tabs.grown(cols),
            ..self
        }
    }

    /// Where the cursor is, counted from the top left of the viewport.
    pub open spec fn shown_cursor(self) -> Place {
        Place { x: self.cursor.x, y: self.cursor.y + self.viewport }
    }

    // Dirty lines

    /// The line in a row of the viewport.
    pub open spec fn viewport_line(self, i: int) -> LineModel {
        self.active().lines[self.viewport_top() + i]
    }

    /// The columns that are selected in a row of the viewport.
    pub open spec fn viewport_selection(self, i: int) -> (usize, usize) {
        match self.selection_range {
            Some(sel) => sel.selected(i - self.viewport),
            None => (0, 0),
        }
    }

    /// The rows of the viewport above row `n` that are dirty, from the top down.
    pub open spec fn dirty_rows(self, n: nat) -> Seq<int>
        decreases n,
    {
        if n == 0 {
            Seq::empty()
        } else {
            let above = self.dirty_rows((n - 1) as nat);
            if self.viewport_line(n - 1).dirty {
                above.push(n - 1)
            } else {
                above
            }
        }
    }

    /// Whether a row of the viewport is dirty.
    pub open spec fn has_dirty_lines(self) -> bool {
        exists|i: int| 0 <= i < self.rows() && (#[trigger] self.viewport_line(i)).dirty
    }
}

} // verus!
