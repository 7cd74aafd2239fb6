//! The screens, the selection, the viewport and the cursor.
use super::model::TerminalModel;
use super::{CursorPosition, TerminalState};
use crate::attributes::{duplicate_link, link_view, CellAttributes, Hyperlink};
use crate::hyperlink::Rule;
use crate::input::MouseButton;
use crate::line::Line;
use crate::range::{intersects_range, intersects_rows};
use crate::screen::{size_limit, Screen, VisibleRowIndex};
use crate::tabs::TabStop;
use crate::text::{push_chars, trimmed_end_len};
use std::ops::Range;
use vstd::prelude::*;

verus! {

impl TerminalState {
    pub fn new(
        physical_rows: usize,
        physical_cols: usize,
        scrollback_size: usize,
        hyperlink_rules: Vec<Rule>,
    ) -> (state: TerminalState)
        requires
            1 <= physical_rows,
            1 <= physical_cols <= size_limit(),
            physical_rows + scrollback_size <= size_limit(),
        ensures
            state@ == TerminalModel::fresh(
                physical_rows as int,
                physical_cols as int,
                scrollback_size as int,
                hyperlink_rules@,
            ),
            state@.wf(),
            state@.cursor_on_screen(),
    {
        let screen = Screen::new(physical_rows, physical_cols, scrollback_size);
        let alt_screen = Screen::new(physical_rows, physical_cols, 0);
        TerminalState {
            screen,
            alt_screen,
            alt_screen_is_active: false,
            pen: CellAttributes::default(),
            cursor: CursorPosition { x: 0, y: 0 },
            saved_cursor: CursorPosition { x: 0, y: 0 },
            wrap_next: false,
            scroll_region: 0..physical_rows as i64,
            application_cursor_keys: false,
            application_keypad: false,
            bracketed_paste: false,
            sgr_mouse: false,
            button_event_mouse: false,
            current_mouse_button: MouseButton::NoButton,
            mouse_position: CursorPosition { x: 0, y: 0 },
            cursor_visible: true,
            current_highlight: None,
            last_mouse_click: None,
            viewport_offset: 0,
            selection_start: None,
            selection_range: None,
            tabs: TabStop::new(physical_cols, 8),
            hyperlink_rules,
            title: "wezterm".to_string(),
        }
    }

    pub fn get_title(&self) -> (title: &str)
        ensures
            title@ == self@.title,
    {
        self.title.as_str()
    }

    /// The screen that is shown.
    pub fn screen(&self) -> (screen: &Screen)
        ensures
            screen@ == self@.active(),
    {
        if self.alt_screen_is_active {
            &self.alt_screen
        } else {
            &self.screen
        }
    }

    /// The screen that is shown.
    pub fn screen_mut(&mut self) -> (screen: &mut Screen)
        ensures
            screen@ == old(self)@.active(),
            final(self)@ == old(self)@.with_active(final(screen)@),
    {
        if self.alt_screen_is_active {
            &mut self.alt_screen
        } else {
            &mut self.screen
        }
    }

    /// Dirty the lines in the current selection range
    pub(super) fn dirty_selection_lines(&mut self)
        requires
            old(self)@.wf_core(),
        ensures
            final(self)@ == old(self)@.dirty_selection(),
            final(self)@.rows() == old(self)@.rows(),
            final(self)@.wf_core(),
            old(self)@.wf() ==> final(self)@.wf(),
    {
        if let Some(sel) = self.selection_range {
            let screen = self.screen_mut();
            let places = screen.scrollback_or_visible_range(&sel.rows());
            screen.dirty_places(places);
        }
    }

    pub fn clear_selection(&mut self)
        requires
            old(self)@.wf_core(),
        ensures
            final(self)@ == old(self)@.clear_selection(),
            final(self)@.wf_core(),
            final(self)@.selection_fits(),
            old(self)@.wf() ==> final(self)@.wf(),
    {
        self.dirty_selection_lines();
        self.selection_range = None;
        self.selection_start = None;
    }

    /// If `cols` on the specified `row` intersect with the selection range,
    /// clear the selection range.  This doesn't invalidate the selection,
    /// it just cancels rendering the selected text.
    /// Returns true if the selection is invalidated or not present, which
    /// is useful to terminate a loop when there is no more work to be done.
    pub(super) fn clear_selection_if_intersects(&mut self, cols: Range<usize>, row: i64) -> (gone:
        bool)
        requires
            old(self)@.wf_core(),
        ensures
            final(self)@ == old(self)@.deselect_cols(cols.start as int, cols.end as int, row as int),
            gone == (final(self)@.selection_range is None),
            final(self)@.wf_core(),
            old(self)@.wf() ==> final(self)@.wf(),
    {
        match self.selection_range {
            Some(sel) => {
                if intersects_range(&cols, &sel.cols_for_row(row)) {
                    // Intersects, so clear the selection
                    self.selection_range = None;
                    self.clear_selection();
                    true
                } else {
                    false
                }
            },
            None => true,
        }
    }

    /// If `rows` intersect with the selection range, clear the selection range.
    /// This doesn't invalidate the selection, it just cancels rendering the
    /// selected text.
    /// Returns true if the selection is invalidated or not present, which
    /// is useful to terminate a loop when there is no more work to be done.
    pub(super) fn clear_selection_if_intersects_rows(&mut self, rows: Range<i64>) -> (gone: bool)
        requires
            old(self)@.wf_core(),
        ensures
            final(self)@ == old(self)@.deselect_rows(rows.start as int, rows.end as int),
            gone == (final(self)@.selection_range is None),
            final(self)@.wf_core(),
            old(self)@.wf() ==> final(self)@.wf(),
    {
        match self.selection_range {
            Some(sel) => {
                if intersects_rows(&rows, &sel.rows()) {
                    // Intersects, so clear the selection
                    self.selection_range = None;
                    self.clear_selection();
                    true
                } else {
                    false
                }
            },
            None => true,
        }
    }

    /// The selected text. Each row gives a line without the white space at its end;
    /// the lines before the first that is not empty are left out.
    pub fn get_selection_text(&self) -> (text: String)
        requires
            self@.wf(),
        ensures
            text@ == self@.selection_text(),
    {
        let mut s = String::new();
        if let Some(sel) = self.selection_range {
            let screen = self.screen();
            let rows = sel.rows();
            let mut y: i64 = rows.start;
            while y < rows.end
                invariant
                    self@.wf(),
                    self@.selection_range == Some(sel),
                    screen@ == self@.active(),
                    rows.start == sel.first_row(),
                    rows.end == sel.last_row() + 1,
                    rows.start <= y <= rows.end,
                    s@ == self@.selected_rows_text(sel, (y - rows.start) as nat),
                decreases rows.end - y,
            {
                let idx: usize = screen.scrollback_or_visible_row(y);
                let cols = sel.cols_for_row(y);
                assert(screen.lines@.len() == screen@.lines.len());
                let chars = screen.lines[idx].columns_as_chars(cols.start, cols.end);
                let end: usize = trimmed_end_len(&chars);
                assert(chars@.subrange(0, end as int) =~= chars@.take(end as int));
                if !s.as_str().is_empty() {
                    s.push('\n');
                }
                push_chars(&mut s, &chars, 0, end);
                y += 1;
                assert(s@ =~= self@.selected_rows_text(sel, (y - rows.start) as nat));
            }
        }
        s
    }

    /// Applies the hyperlink rules to the line in a row, and gives the link of one
    /// of its cells.
    fn hyperlink_for_cell(&mut self, x: usize, y: i64) -> (link: Option<Hyperlink>)
        requires
            old(self)@.wf_core(),
            y <= size_limit(),
        ensures
            ({
                let place = old(self)@.active().phys_or_first(y as int);
                let screen = old(self)@.active().links_found(place, old(self)@.hyperlink_rules);
                &&& final(self)@ == old(self)@.with_active(screen)
                &&& link_view(link) == screen.link_at(x as int, place)
            }),
    {
        let rules = &self.hyperlink_rules;
        let screen = if self.alt_screen_is_active {
            &mut self.alt_screen
        } else {
            &mut self.screen
        };
        let idx: usize = screen.scrollback_or_visible_row(y);
        screen.find_link(x, idx, rules)
    }

    /// Invalidate rows that have hyperlinks
    fn invalidate_hyperlinks(&mut self)
        requires
            old(self)@.wf_core(),
        ensures
            final(self)@ == old(self)@.with_active(old(self)@.active().links_dirty()),
    {
        self.screen_mut().dirty_links();
    }

    /// Called after a mouse move or viewport scroll to recompute the
    /// current highlight
    pub(super) fn recompute_highlight(&mut self)
        requires
            old(self)@.wf_core(),
        ensures
            final(self)@ == old(self)@.recompute_highlight(),
            final(self)@.wf_core(),
            old(self)@.wf() ==> final(self)@.wf(),
    {
        let line_idx: i64 = self.shown_row(self.mouse_position.y);
        let x: usize = self.mouse_position.x;
        self.current_highlight = self.hyperlink_for_cell(x, line_idx);
        self.invalidate_hyperlinks();
    }

    /// Puts the viewport at a position, and dirties the lines that are then in view.
    fn show_viewport(&mut self, position: VisibleRowIndex)
        requires
            old(self)@.wf_core(),
            0 <= position <= old(self)@.active().top(),
        ensures
            final(self)@ == old(self)@.show_viewport(position as int),
            final(self)@.wf_core(),
            final(self)@.viewport_fits(),
            old(self)@.selection_fits() ==> final(self)@.selection_fits(),
    {
        self.viewport_offset = position;
        let screen = self.screen_mut();
        let rows: usize = screen.physical_rows;
        assert(screen.lines@.len() == screen@.lines.len());
        let top: usize = screen.lines.len() - (rows + position as usize);
        screen.dirty_places(top..top + rows);
    }

    pub(super) fn set_scroll_viewport(&mut self, position: VisibleRowIndex)
        requires
            old(self)@.wf_core(),
        ensures
            final(self)@ == old(self)@.set_scroll_viewport(position as int),
            final(self)@.wf(),
    {
        let screen = self.screen();
        assert(screen.lines@.len() == screen@.lines.len());
        let avail: i64 = (screen.lines.len() - screen.physical_rows) as i64;
        let position: i64 = if position > 0 {
            position
        } else {
            0
        };
        let position: i64 = if position < avail {
            position
        } else {
            avail
        };
        self.clear_selection();
        self.show_viewport(position);
        self.recompute_highlight();
    }

    /// Adjust the scroll position of the viewport by delta.
    /// Dirties the lines that are now in view.
    pub fn scroll_viewport(&mut self, delta: VisibleRowIndex)
        requires
            old(self)@.wf(),
            i64::MIN <= old(self)@.viewport - delta <= i64::MAX,
        ensures
            final(self)@ == old(self)@.scroll_viewport(delta as int),
            final(self)@.wf(),
    {
        let position: i64 = self.viewport_offset - delta;
        self.set_scroll_viewport(position);
    }

    fn set_size(&mut self, physical_rows: usize, physical_cols: usize)
        requires
            old(self)@.wf(),
            1 <= physical_rows,
            1 <= physical_cols <= size_limit(),
            physical_rows + old(self)@.screen.scrollback <= size_limit(),
        ensures
            final(self)@ == old(self)@.with_size(physical_rows as int, physical_cols as int),
            final(self)@.wf_core(),
    {
        self.screen.resize(physical_rows, physical_cols);
        self.alt_screen.resize(physical_rows, physical_cols);
        self.scroll_region = 0..physical_rows as i64;
        self.tabs.resize(physical_cols);
    }

    pub fn resize(&mut self, physical_rows: usize, physical_cols: usize)
        requires
            old(self)@.wf(),
            1 <= physical_rows,
            1 <= physical_cols <= size_limit(),
            physical_rows + old(self)@.screen.scrollback <= size_limit(),
        ensures
            final(self)@ == old(self)@.resize(physical_rows as int, physical_cols as int),
            final(self)@.wf(),
    {
        self.set_size(physical_rows, physical_cols);
        self.set_scroll_viewport(0);
    }

    /// Returns true if any of the visible lines are marked dirty
    pub fn has_dirty_lines(&self) -> (dirty: bool)
        requires
            self@.wf(),
        ensures
            dirty == self@.has_dirty_lines(),
    {
        let screen = self.screen();
        let height: usize = screen.physical_rows;
        assert(screen.lines@.len() == screen@.lines.len());
        let top: usize = screen.lines.len() - self.viewport_offset as usize - height;
        let mut i: usize = 0;
        while i < height
            invariant
                self@.wf(),
                screen@ == self@.active(),
                screen.lines@.len() == screen@.lines.len(),
                height == self@.rows(),
                top == self@.viewport_top(),
                i <= height,
                forall|j: int| 0 <= j < i ==> !(#[trigger] self@.viewport_line(j)).dirty,
            decreases height - i,
        {
            assert(screen@.lines[top + i] == self@.viewport_line(i as int));
            if screen.lines[top + i].is_dirty() {
                return true;
            }
            i += 1;
        }
        false
    }

    /// Returns the set of visible lines that are dirty.
    /// The return value is a Vec<(line_idx, line, selrange)>, where
    /// line_idx is relative to the top of the viewport.
    /// The selrange value is the column range representing the selected
    /// columns on this line.
    pub fn get_dirty_lines(&self) -> (lines: Vec<(usize, &Line, Range<usize>)>)
        requires
            self@.wf(),
        ensures
            lines@.len() == self@.dirty_rows(self@.rows() as nat).len(),
            forall|k: int|
                0 <= k < lines@.len() ==> {
                    let row = self@.dirty_rows(self@.rows() as nat)[k];
                    &&& (#[trigger] lines@[k]).0 == row
                    &&& lines@[k].1@ == self@.viewport_line(row)
                    &&& (lines@[k].2.start, lines@[k].2.end) == self@.viewport_selection(row)
                },
    {
        let mut res: Vec<(usize, &Line, Range<usize>)> = Vec::new();
        let screen = self.screen();
        let height: usize = screen.physical_rows;
        assert(screen.lines@.len() == screen@.lines.len());
        let top: usize = screen.lines.len() - self.viewport_offset as usize - height;
        let mut i: usize = 0;
        while i < height
            invariant
                self@.wf(),
                screen@ == self@.active(),
                screen.lines@.len() == screen@.lines.len(),
                height == self@.rows(),
                top == self@.viewport_top(),
                i <= height,
                res@.len() == self@.dirty_rows(i as nat).len(),
                forall|k: int|
                    0 <= k < res@.len() ==> {
                        let row = self@.dirty_rows(i as nat)[k];
                        &&& (#[trigger] res@[k]).0 == row
                        &&& res@[k].1@ == self@.viewport_line(row)
                        &&& (res@[k].2.start, res@[k].2.end) == self@.viewport_selection(row)
                    },
            decreases height - i,
        {
            let line = &screen.lines[top + i];
            assert(screen@.lines[top + i] == self@.viewport_line(i as int));
            if line.is_dirty() {
                let selrange = match self.selection_range {
                    None => 0..0,
                    Some(sel) => {
                        // i is relative to the viewport, convert it back to
                        // something we can relate to the selection
                        sel.cols_for_row(i as i64 - self.viewport_offset)
                    },
                };
                res.push((i, line, selrange));
            }
            i += 1;
        }
        res
    }

    pub fn get_viewport_offset(&self) -> (offset: VisibleRowIndex)
        ensures
            offset == self@.viewport,
    {
        self.viewport_offset
    }

    /// Clear the dirty flag for all dirty lines
    pub fn clean_dirty_lines(&mut self)
        requires
            old(self)@.wf(),
        ensures
            final(self)@ == old(self)@.with_active(old(self)@.active().all_clean()),
            final(self)@.wf(),
    {
        self.screen_mut().clean_lines();
    }

    /// Mark all lines as dirty
    pub fn make_all_lines_dirty(&mut self)
        requires
            old(self)@.wf(),
        ensures
            final(self)@ == old(self)@.with_active(old(self)@.active().all_dirty()),
            final(self)@.wf(),
    {
        let screen = self.screen_mut();
        assert(screen.lines@.len() == screen@.lines.len());
        let len: usize = screen.lines.len();
        screen.dirty_places(0..len);
    }

    /// Returns the 0-based cursor position relative to the top left of
    /// the visible screen
    pub fn cursor_pos(&self) -> (pos: CursorPosition)
        requires
            self@.wf(),
        ensures
            pos.x == self@.cursor.x,
            pos.y == self@.cursor.y + self@.viewport,
            pos@ == self@.shown_cursor(),
    {
        CursorPosition { x: self.cursor.x, y: self.cursor.y + self.viewport_offset }
    }

    /// Returns the currently highlighted hyperlink
    pub fn current_highlight(&self) -> (link: Option<Hyperlink>)
        ensures
            link_view(link) == self@.current_highlight,
    {
        duplicate_link(&self.current_highlight)
    }
}

} // verus!
