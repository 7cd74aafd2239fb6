//! A screen: the visible lines, and the lines that have scrolled off its top.
use crate::attributes::CellAttributes;
use crate::cell::{Cell, CellModel};
use crate::hyperlink::Rule;
use crate::line::{Line, LineModel};
use std::ops::Range;
use vstd::prelude::*;

verus! {

/// The row of a cell, counted from the top of the visible screen.
pub type VisibleRowIndex = i64;

/// The row of a cell, counted from the top of the visible screen; the rows of
/// the scrollback are negative.
pub type ScrollbackOrVisibleRowIndex = i64;

/// The place of a line in the screen and its scrollback.
pub type PhysRowIndex = usize;

/// No allocation holds more lines, or a line more cells, than this.
pub open spec fn size_limit() -> int {
    isize::MAX as int / 4
}

/// The lines of a screen. The last `physical_rows` of them are visible; those
/// before them are the scrollback.
#[derive(Debug, PartialEq, Eq)]
pub struct Screen {
    pub lines: Vec<Line>,
    pub scrollback_size: usize,
    pub physical_rows: usize,
    pub physical_cols: usize,
}

#[verifier::ext_equal]
pub struct ScreenModel {
    pub lines: Seq<LineModel>,
    pub rows: int,
    pub cols: int,
    pub scrollback: int,
}

/// Lines as mathematical values.
pub open spec fn lines_view(lines: Seq<Line>) -> Seq<LineModel> {
    Seq::new(lines.len(), |i: int| lines[i]@)
}

impl View for Screen {
    type V = ScreenModel;

    open spec fn view(&self) -> ScreenModel {
        ScreenModel {
            lines: lines_view(self.lines@),
            rows: self.physical_rows as int,
            cols: self.physical_cols as int,
            scrollback: self.scrollback_size as int,
        }
    }
}

/// `n` new lines of `width` columns.
pub open spec fn fresh_lines(n: nat, width: int) -> Seq<LineModel> {
    Seq::new(n, |i: int| LineModel::fresh(width as nat))
}

pub open spec fn at_most(n: int, limit: int) -> int {
    if n < limit {
        n
    } else {
        limit
    }
}

pub open spec fn at_least(n: int, limit: int) -> int {
    if n > limit {
        n
    } else {
        limit
    }
}

impl ScreenModel {
    pub open spec fn wf(self) -> bool {
        &&& 1 <= self.rows <= self.lines.len() <= self.rows + self.scrollback <= size_limit()
        &&& 1 <= self.cols <= size_limit()
        &&& 0 <= self.scrollback
    }

    /// A screen of fresh lines, without scrollback yet.
    pub open spec fn fresh(rows: int, cols: int, scrollback: int) -> ScreenModel {
        ScreenModel { lines: fresh_lines(rows as nat, cols), rows, cols, scrollback }
    }

    /// The place of the first visible line.
    pub open spec fn top(self) -> int {
        self.lines.len() - self.rows
    }

    pub open spec fn on_screen(self, y: int) -> bool {
        0 <= y < self.rows
    }

    /// The line in the visible row `y`.
    pub open spec fn row(self, y: int) -> LineModel {
        self.lines[self.top() + y]
    }

    /// The same number of lines, rows and columns.
    pub open spec fn same_size(self, other: ScreenModel) -> bool {
        &&& self.lines.len() == other.lines.len()
        &&& self.rows == other.rows
        &&& self.cols == other.cols
        &&& self.scrollback == other.scrollback
    }

    /// The screen with another line in the visible row `y`.
    pub open spec fn with_row(self, y: int, line: LineModel) -> ScreenModel {
        if self.on_screen(y) {
            ScreenModel { lines: self.lines.update(self.top() + y, line), ..self }
        } else {
            self
        }
    }

    pub open spec fn dirty_line(self, y: int) -> ScreenModel {
        self.with_row(y, self.row(y).dirtied())
    }

    /// The screen with columns `start` up to `end` of row `y` holding `cell`.
    pub open spec fn fill_row(self, y: int, start: int, end: int, cell: CellModel) -> ScreenModel {
        self.with_row(y, self.row(y).filled(start, end, cell))
    }

    /// The screen with columns `start` up to `end` of the rows from `first` up to
    /// `last` holding `cell`.
    pub open spec fn fill_rows(
        self,
        first: int,
        last: int,
        start: int,
        end: int,
        cell: CellModel,
    ) -> ScreenModel {
        ScreenModel {
            lines: Seq::new(
                self.lines.len(),
                |i: int|
                    if first <= i - self.top() < last && self.on_screen(i - self.top()) {
                        self.lines[i].filled(start, end, cell)
                    } else {
                        self.lines[i]
                    },
            ),
            ..self
        }
    }

    /// The screen after `count` cells were taken out of row `y` at column `x`.
    pub open spec fn erase_cells(self, x: int, y: int, count: int) -> ScreenModel {
        self.with_row(y, self.row(y).erased(x, count))
    }

    /// The screen after `count` blanks were put into row `y` at column `x`.
    pub open spec fn insert_cells(self, x: int, y: int, count: int) -> ScreenModel {
        self.with_row(y, self.row(y).inserted(x, count, self.cols))
    }

    /// The place of the line in a row that may be in the scrollback. A row above
    /// the scrollback stands for its first line.
    pub open spec fn phys_or_first(self, row: int) -> int {
        at_least(self.top() + row, 0)
    }

    /// The screen with the lines at the places from `first` up to `last` dirty.
    pub open spec fn dirty_places(self, first: int, last: int) -> ScreenModel {
        ScreenModel {
            lines: Seq::new(
                self.lines.len(),
                |i: int|
                    if first <= i < last {
                        self.lines[i].dirtied()
                    } else {
                        self.lines[i]
                    },
            ),
            ..self
        }
    }

    pub open spec fn all_clean(self) -> ScreenModel {
        ScreenModel {
            lines: Seq::new(self.lines.len(), |i: int| self.lines[i].cleaned()),
            ..self
        }
    }

    pub open spec fn all_dirty(self) -> ScreenModel {
        self.dirty_places(0, self.lines.len() as int)
    }

    /// The screen with every line dirty that has a link.
    pub open spec fn links_dirty(self) -> ScreenModel {
        ScreenModel {
            lines: Seq::new(
                self.lines.len(),
                |i: int|
                    if self.lines[i].has_link() {
                        self.lines[i].dirtied()
                    } else {
                        self.lines[i]
                    },
            ),
            ..self
        }
    }

    /// The screen with the rules applied to the line at a place, if there is one.
    pub open spec fn links_found(self, place: int, rules: Seq<Rule>) -> ScreenModel {
        if 0 <= place < self.lines.len() {
            ScreenModel {
                lines: self.lines.update(place, self.lines[place].linked_by(rules)),
                ..self
            }
        } else {
            self
        }
    }

    /// The link of the cell in column `x` of the line at a place.
    pub open spec fn link_at(self, x: int, place: int) -> Option<crate::attributes::LinkModel> {
        if 0 <= place < self.lines.len() {
            self.lines[place].link_at(x)
        } else {
            None
        }
    }

    /// The rows from `start` up to `end` move up by `count`, and fresh lines come
    /// in below them. Where the region starts at the top of the screen, the lines
    /// that leave it go to the scrollback, which gives up its oldest lines where
    /// it is full; elsewhere they are gone.
    pub open spec fn scrolled_up(self, start: int, end: int, count: int) -> ScreenModel {
        let first = self.top() + start;
        let last = self.top() + end;
        let n = at_most(count, end - start);
        let lines = self.dirty_places(first, last).lines;
        let moved = if start > 0 {
            lines.take(first) + lines.subrange(first + n, last) + fresh_lines(
                n as nat,
                self.cols,
            ) + lines.skip(last)
        } else {
            lines.take(last) + fresh_lines(n as nat, self.cols) + lines.skip(last)
        };
        let dropped = if start > 0 {
            0
        } else {
            at_least(moved.len() - (self.rows + self.scrollback), 0)
        };
        ScreenModel { lines: moved.skip(dropped), ..self }
    }

    /// The rows from `start` up to `end` move down by `count`; the lines that leave
    /// the region are gone, and fresh lines come in above.
    pub open spec fn scrolled_down(self, start: int, end: int, count: int) -> ScreenModel {
        let first = self.top() + start;
        let last = self.top() + end;
        let n = at_most(count, end - start);
        let lines = self.dirty_places(first, last).lines;
        ScreenModel {
            lines: lines.take(first) + fresh_lines(n as nat, self.cols) + lines.subrange(
                first,
                last - n,
            ) + lines.skip(last),
            ..self
        }
    }

    /// The screen with other dimensions. New rows come in at the bottom; where there
    /// are fewer rows, the lines that no longer have room go from the top.
    pub open spec fn resized(self, rows: int, cols: int) -> ScreenModel {
        let lines = if cols != self.cols {
            Seq::new(self.lines.len(), |i: int| self.lines[i].resized(cols as nat))
        } else {
            self.lines
        };
        let grown = lines + fresh_lines(at_least(rows - self.rows, 0) as nat, cols);
        ScreenModel {
            lines: grown.skip(at_least(grown.len() - (rows + self.scrollback), 0)),
            rows,
            cols,
            ..self
        }
    }
}

/// When rows scroll up, each row of the region shows what was `n` rows below it, the
/// last `n` rows of the region are blank, and the other rows are as they were.
pub proof fn law_scrolled_up_rows(s: ScreenModel, start: int, end: int, count: int)
    requires
        s.wf(),
        0 <= start < end <= s.rows,
        0 <= count,
    ensures
        s.scrolled_up(start, end, count).wf(),
        forall|y: int|
            0 <= y < s.rows ==> #[trigger] s.scrolled_up(start, end, count).row(y).cells == if y
                < start || y >= end {
                s.row(y).cells
            } else if y < end - at_most(count, end - start) {
                s.row(y + at_most(count, end - start)).cells
            } else {
                LineModel::fresh(s.cols as nat).cells
            },
{
}

/// When rows scroll up from the top of the screen, and the scrollback has room, the
/// lines that leave the screen are its last lines, and it keeps all it had.
pub proof fn law_scrolled_up_to_scrollback(s: ScreenModel, end: int, count: int)
    requires
        s.wf(),
        0 < end <= s.rows,
        0 <= count <= end,
        s.lines.len() + count <= s.rows + s.scrollback,
    ensures
        s.scrolled_up(0, end, count).top() == s.top() + count,
        forall|i: int|
            0 <= i < s.top() + count ==> #[trigger] s.scrolled_up(0, end, count).lines[i].cells
                == s.lines[i].cells,
{
}

/// When rows scroll down, each row of the region shows what was `n` rows above it, the
/// first `n` rows of the region are blank, and the other rows and the scrollback are
/// as they were.
pub proof fn law_scrolled_down_rows(s: ScreenModel, start: int, end: int, count: int)
    requires
        s.wf(),
        0 <= start < end <= s.rows,
        0 <= count,
    ensures
        s.scrolled_down(start, end, count).same_size(s),
        forall|y: int|
            -s.top() <= y < s.rows ==> #[trigger] s.scrolled_down(start, end, count).row(y).cells
                == if y < start || y >= end {
                s.row(y).cells
            } else if y >= start + at_most(count, end - start) {
                s.row(y - at_most(count, end - start)).cells
            } else {
                LineModel::fresh(s.cols as nat).cells
            },
{
}

impl Screen {
    pub open spec fn wf(&self) -> bool {
        self@.wf()
    }

    pub fn new(physical_rows: usize, physical_cols: usize, scrollback_size: usize) -> (s: Screen)
        requires
            1 <= physical_rows,
            1 <= physical_cols <= size_limit(),
            physical_rows + scrollback_size <= size_limit(),
        ensures
            s.wf(),
            s@ == ScreenModel::fresh(
                physical_rows as int,
                physical_cols as int,
                scrollback_size as int,
            ),
    {
        let mut s = Screen { lines: Vec::new(), scrollback_size, physical_rows, physical_cols };
        s.insert_fresh(0, physical_rows);
        assert(s@.lines =~= fresh_lines(physical_rows as nat, physical_cols as int));
        s
    }

    /// Puts `count` fresh lines in before the line at `place`.
    fn insert_fresh(&mut self, place: usize, count: usize)
        requires
            place <= old(self)@.lines.len(),
            old(self)@.lines.len() + count <= usize::MAX,
        ensures
            final(self)@ == (ScreenModel {
                lines: old(self)@.lines.take(place as int) + fresh_lines(
                    count as nat,
                    old(self)@.cols,
                ) + old(self)@.lines.skip(place as int),
                ..old(self)@
            }),
    {
        let ghost before = self@;
        let mut i: usize = 0;
        assert(self@.lines =~= before.lines.take(place as int) + fresh_lines(0, before.cols)
            + before.lines.skip(place as int));
        while i < count
            invariant
                i <= count,
                place <= before.lines.len(),
                before.lines.len() + count <= usize::MAX,
                self@.rows == before.rows,
                self@.cols == before.cols,
                self@.scrollback == before.scrollback,
                self@.lines == before.lines.take(place as int) + fresh_lines(i as nat, before.cols)
                    + before.lines.skip(place as int),
            decreases count - i,
        {
            let ghost now = self@;
            assert(self.lines@.len() == now.lines.len());
            self.lines.insert(place, Line::with_width(self.physical_cols));
            i += 1;
            assert(self@.lines =~= now.lines.insert(
                place as int,
                LineModel::fresh(before.cols as nat),
            ));
            assert(self@.lines =~= before.lines.take(place as int) + fresh_lines(
                i as nat,
                before.cols,
            ) + before.lines.skip(place as int));
        }
    }

    /// Takes out the `count` lines from the line at `place` on.
    fn remove_lines(&mut self, place: usize, count: usize)
        requires
            place + count <= old(self)@.lines.len(),
        ensures
            final(self)@ == (ScreenModel {
                lines: old(self)@.lines.take(place as int) + old(self)@.lines.skip(place + count),
                ..old(self)@
            }),
    {
        let ghost before = self@;
        let mut i: usize = 0;
        assert(self@.lines =~= before.lines.take(place as int) + before.lines.skip(place as int));
        while i < count
            invariant
                i <= count,
                place + count <= before.lines.len(),
                self@.rows == before.rows,
                self@.cols == before.cols,
                self@.scrollback == before.scrollback,
                self@.lines == before.lines.take(place as int) + before.lines.skip(place + i),
            decreases count - i,
        {
            let ghost now = self@;
            assert(self.lines@.len() == now.lines.len());
            let _ = self.lines.remove(place);
            i += 1;
            assert(self@.lines =~= now.lines.remove(place as int));
            assert(self@.lines =~= before.lines.take(place as int) + before.lines.skip(place + i));
        }
    }

    /// Resize the physical, viewable portion of the screen.
    pub fn resize(&mut self, physical_rows: usize, physical_cols: usize)
        requires
            old(self).wf(),
            1 <= physical_rows,
            1 <= physical_cols <= size_limit(),
            physical_rows + old(self)@.scrollback <= size_limit(),
        ensures
            final(self).wf(),
            final(self)@ == old(self)@.resized(physical_rows as int, physical_cols as int),
    {
        let ghost before = self@;
        if physical_cols != self.physical_cols {
            let mut i: usize = 0;
            while i < self.lines.len()
                invariant
                    i <= self.lines@.len() == before.lines.len(),
                    self@.rows == before.rows,
                    self@.cols == before.cols,
                    self@.scrollback == before.scrollback,
                    forall|j: int|
                        0 <= j < i ==> #[trigger] self.lines@[j]@ == before.lines[j].resized(
                            physical_cols as nat,
                        ),
                    forall|j: int|
                        i <= j < self.lines@.len() ==> #[trigger] self.lines@[j]@
                            == before.lines[j],
                decreases self.lines@.len() - i,
            {
                self.lines[i].resize(physical_cols);
                i += 1;
            }
        }
        let ghost widened = self@;
        self.physical_cols = physical_cols;
        if physical_rows > self.physical_rows {
            let at: usize = self.lines.len();
            let more: usize = physical_rows - self.physical_rows;
            assert(at + more <= usize::MAX);
            self.insert_fresh(at, more);
        }
        self.physical_rows = physical_rows;
        let ghost grown = self@.lines;
        let max: usize = self.physical_rows + self.scrollback_size;
        assert(self.lines@.len() == grown.len());
        if self.lines.len() > max {
            let extra: usize = self.lines.len() - max;
            self.remove_lines(0, extra);
            assert(self@.lines =~= grown.skip(extra as int));
        }
        assert(self@.lines =~= before.resized(physical_rows as int, physical_cols as int).lines);
    }

    /// The place of the line in a row that may be in the scrollback. A row above
    /// the scrollback stands for its first line.
    pub fn scrollback_or_visible_row(&self, row: ScrollbackOrVisibleRowIndex) -> (place:
        PhysRowIndex)
        requires
            self.wf(),
            row <= size_limit(),
        ensures
            place == self@.phys_or_first(row as int),
    {
        let place: i64 = (self.lines.len() - self.physical_rows) as i64 + row;
        if place > 0 {
            place as usize
        } else {
            0
        }
    }

    /// The places of the lines in some rows, as far as there are lines.
    pub fn scrollback_or_visible_range(&self, rows: &Range<ScrollbackOrVisibleRowIndex>) -> (places:
        Range<PhysRowIndex>)
        requires
            self.wf(),
            rows.start <= size_limit(),
            rows.end <= size_limit(),
        ensures
            places.start == self@.phys_or_first(rows.start as int),
            places.end == at_most(self@.phys_or_first(rows.end as int), self@.lines.len() as int),
    {
        let start: usize = self.scrollback_or_visible_row(rows.start);
        let end: usize = self.scrollback_or_visible_row(rows.end);
        if end < self.lines.len() {
            start..end
        } else {
            start..self.lines.len()
        }
    }

    /// The place of the line in the visible row `y`.
    fn phys_row(&self, y: VisibleRowIndex) -> (place: Option<PhysRowIndex>)
        requires
            self.wf(),
        ensures
            match place {
                Some(i) => self@.on_screen(y as int) && i == self@.top() + y && i
                    < self.lines@.len(),
                None => !self@.on_screen(y as int),
            },
    {
        if 0 <= y && y < self.physical_rows as i64 {
            Some((self.lines.len() - self.physical_rows) + y as usize)
        } else {
            None
        }
    }

    /// Marks the line in the visible row `y` dirty.
    pub fn dirty_line(&mut self, y: VisibleRowIndex)
        requires
            old(self).wf(),
        ensures
            final(self).wf(),
            final(self)@.same_size(old(self)@),
            final(self)@ == old(self)@.dirty_line(y as int),
    {
        let ghost before = self@;
        if let Some(i) = self.phys_row(y) {
            self.lines[i].set_dirty();
            assert(self@.lines =~= before.dirty_line(y as int).lines);
        }
    }

    /// Marks the lines at some places dirty.
    pub fn dirty_places(&mut self, places: Range<PhysRowIndex>)
        requires
            old(self).wf(),
            places.end <= old(self)@.lines.len(),
        ensures
            final(self).wf(),
            final(self)@.same_size(old(self)@),
            final(self)@ == old(self)@.dirty_places(places.start as int, places.end as int),
    {
        let ghost before = self@;
        let mut i: usize = places.start;
        while i < places.end
            invariant
                places.start <= i,
                i <= places.end || i == places.start,
                places.end <= self.lines@.len() == before.lines.len(),
                self@.rows == before.rows,
                self@.cols == before.cols,
                self@.scrollback == before.scrollback,
                forall|j: int|
                    0 <= j < self.lines@.len() ==> #[trigger] self.lines@[j]@ == (if places.start
                        <= j < i {
                        before.lines[j].dirtied()
                    } else {
                        before.lines[j]
                    }),
            decreases places.end - i,
        {
            self.lines[i].set_dirty();
            i += 1;
        }
        assert(self@.lines =~= before.dirty_places(
            places.start as int,
            places.end as int,
        ).lines);
    }

    /// Marks every line clean.
    pub fn clean_lines(&mut self)
        requires
            old(self).wf(),
        ensures
            final(self).wf(),
            final(self)@.same_size(old(self)@),
            final(self)@ == old(self)@.all_clean(),
    {
        let ghost before = self@;
        let mut i: usize = 0;
        while i < self.lines.len()
            invariant
                i <= self.lines@.len() == before.lines.len(),
                self@.rows == before.rows,
                self@.cols == before.cols,
                self@.scrollback == before.scrollback,
                forall|j: int|
                    0 <= j < self.lines@.len() ==> #[trigger] self.lines@[j]@ == (if j < i {
                        before.lines[j].cleaned()
                    } else {
                        before.lines[j]
                    }),
            decreases self.lines@.len() - i,
        {
            self.lines[i].set_clean();
            i += 1;
        }
        assert(self@.lines =~= before.all_clean().lines);
    }

    /// Marks every line dirty that has a link.
    pub fn dirty_links(&mut self)
        requires
            old(self).wf(),
        ensures
            final(self).wf(),
            final(self)@.same_size(old(self)@),
            final(self)@ == old(self)@.links_dirty(),
    {
        let ghost before = self@;
        let mut i: usize = 0;
        while i < self.lines.len()
            invariant
                i <= self.lines@.len() == before.lines.len(),
                self@.rows == before.rows,
                self@.cols == before.cols,
                self@.scrollback == before.scrollback,
                forall|j: int|
                    0 <= j < self.lines@.len() ==> #[trigger] self.lines@[j]@ == (if j < i
                        && before.lines[j].has_link() {
                        before.lines[j].dirtied()
                    } else {
                        before.lines[j]
                    }),
            decreases self.lines@.len() - i,
        {
            if self.lines[i].has_hyperlink() {
                self.lines[i].set_dirty();
            }
            i += 1;
        }
        assert(self@.lines =~= before.links_dirty().lines);
    }

    /// Applies the rules to the line at a place, if there is one, and gives the
    /// link of its cell in column `x`.
    pub fn find_link(&mut self, x: usize, place: PhysRowIndex, rules: &Vec<Rule>) -> (link: Option<
        crate::attributes::Hyperlink,
    >)
        requires
            old(self).wf(),
        ensures
            final(self).wf(),
            final(self)@.same_size(old(self)@),
            final(self)@ == old(self)@.links_found(place as int, rules@),
            crate::attributes::link_view(link) == final(self)@.link_at(x as int, place as int),
    {
        let ghost before = self@;
        if place < self.lines.len() {
            self.lines[place].find_hyperlinks(rules);
            assert(self@.lines =~= before.links_found(place as int, rules@).lines);
            if x < self.lines[place].cells.len() {
                crate::attributes::duplicate_link(&self.lines[place].cells[x].attrs.hyperlink)
            } else {
                None
            }
        } else {
            None
        }
    }

    /// Puts a character into a cell of the visible screen.
    pub fn set_cell(&mut self, x: usize, y: VisibleRowIndex, c: char, attrs: &CellAttributes)
        requires
            old(self).wf(),
            x < usize::MAX,
        ensures
            final(self).wf(),
            final(self)@.same_size(old(self)@),
            final(self)@ == old(self)@.fill_row(
                y as int,
                x as int,
                x + 1,
                CellModel { text: c, attrs: attrs@ },
            ),
    {
        let ghost before = self@;
        if let Some(i) = self.phys_row(y) {
            self.lines[i].set_cell(x, Cell::new(c, attrs.duplicate()));
            assert(self@.lines =~= before.fill_row(
                y as int,
                x as int,
                x + 1,
                CellModel { text: c, attrs: attrs@ },
            ).lines);
        }
    }

    /// Puts a character into a cell of the visible screen, and cells that print
    /// nothing into the columns after it that it takes.
    pub fn set_wide_cell(
        &mut self,
        x: usize,
        y: VisibleRowIndex,
        c: char,
        width: usize,
        attrs: &CellAttributes,
    )
        requires
            old(self).wf(),
            x < usize::MAX,
            x + width <= usize::MAX,
        ensures
            final(self).wf(),
            final(self)@.same_size(old(self)@),
            final(self)@ == old(self)@.fill_row(
                y as int,
                x as int,
                x + 1,
                CellModel { text: c, attrs: attrs@ },
            ).fill_row(y as int, x + 1, x + width, CellModel { text: '\0', attrs: attrs@ }),
    {
        self.set_cell(x, y, c, attrs);
        let ghost first = self@;
        let ghost padding = CellModel { text: '\0', attrs: attrs@ };
        // for double- or triple-wide cells, the client of the terminal
        // expects the cursor to move by the visible width, which means that
        // we need to generate non-printing cells to pad out the gap.  They
        // need to be non-printing rather than space so that that renderer
        // doesn't render an actual space between the glyphs.
        let mut non_print_x: usize = 1;
        assert(first.lines =~= first.fill_row(y as int, x + 1, x + 1, padding).lines);
        while non_print_x < width
            invariant
                1 <= non_print_x,
                non_print_x <= width || non_print_x == 1,
                x + width <= usize::MAX,
                first.wf(),
                padding == (CellModel { text: '\0', attrs: attrs@ }),
                self@ == first.fill_row(y as int, x + 1, x + non_print_x, padding),
            decreases width - non_print_x,
        {
            self.set_cell(x + non_print_x, y, '\0', attrs);
            non_print_x += 1;
            let ghost goal = first.fill_row(y as int, x + 1, x + non_print_x, padding);
            assert(first.on_screen(y as int) ==> self@.row(y as int).cells =~= goal.row(
                y as int,
            ).cells);
            assert(self@.lines =~= goal.lines);
        }
        assert(self@.lines =~= first.fill_row(y as int, x + 1, x + width, padding).lines);
    }

    /// Puts spaces into some columns of a visible row.
    pub fn clear_line(&mut self, y: VisibleRowIndex, cols: Range<usize>, attrs: &CellAttributes)
        requires
            old(self).wf(),
        ensures
            final(self).wf(),
            final(self)@.same_size(old(self)@),
            final(self)@ == old(self)@.fill_row(
                y as int,
                cols.start as int,
                cols.end as int,
                CellModel::space(attrs@),
            ),
    {
        let ghost before = self@;
        let mut x: usize = cols.start;
        assert(self@.lines =~= before.fill_row(
            y as int,
            cols.start as int,
            x as int,
            CellModel::space(attrs@),
        ).lines);
        while x < cols.end
            invariant
                cols.start <= x,
                x <= cols.end || x == cols.start,
                before.wf(),
                self@ == before.fill_row(
                    y as int,
                    cols.start as int,
                    x as int,
                    CellModel::space(attrs@),
                ),
            decreases cols.end - x,
        {
            let ghost now = self@;
            self.set_cell(x, y, ' ', attrs);
            x += 1;
            let ghost goal = before.fill_row(
                y as int,
                cols.start as int,
                x as int,
                CellModel::space(attrs@),
            );
            assert(self@.on_screen(y as int) ==> self@.row(y as int).cells =~= goal.row(
                y as int,
            ).cells);
            assert(self@.lines =~= goal.lines);
        }
    }

    /// Takes out `count` cells of a visible row at column `x`.
    pub fn erase_cells(&mut self, x: usize, y: VisibleRowIndex, count: usize)
        requires
            old(self).wf(),
        ensures
            final(self).wf(),
            final(self)@.same_size(old(self)@),
            final(self)@ == old(self)@.erase_cells(x as int, y as int, count as int),
    {
        let ghost before = self@;
        if let Some(i) = self.phys_row(y) {
            let ghost line = before.row(y as int);
            let mut n: usize = 0;
            while n < count
                invariant
                    n <= count,
                    i < self.lines@.len() == before.lines.len(),
                    i == before.top() + y,
                    before.on_screen(y as int),
                    line == before.row(y as int),
                    self@.rows == before.rows,
                    self@.cols == before.cols,
                    self@.scrollback == before.scrollback,
                    self.lines@[i as int]@ == line.erased(x as int, n as int),
                    forall|j: int|
                        0 <= j < self.lines@.len() && j != i ==> #[trigger] self.lines@[j]@
                            == before.lines[j],
                decreases count - n,
            {
                self.lines[i].erase_cell(x);
                n += 1;
                assert(self.lines@[i as int]@.cells =~= line.erased(x as int, n as int).cells);
            }
        }
        assert(self@.lines =~= before.erase_cells(x as int, y as int, count as int).lines);
    }

    /// Puts `count` blanks into a visible row at column `x`.
    pub fn insert_cells(&mut self, x: usize, y: VisibleRowIndex, count: usize)
        requires
            old(self).wf(),
            count > 0 ==> x + count <= old(self)@.cols,
        ensures
            final(self).wf(),
            final(self)@.same_size(old(self)@),
            final(self)@ == old(self)@.insert_cells(x as int, y as int, count as int),
    {
        let ghost before = self@;
        let width: usize = self.physical_cols;
        if let Some(i) = self.phys_row(y) {
            let ghost line = before.row(y as int);
            let mut n: usize = 0;
            while n < count
                invariant
                    n <= count,
                    count > 0 ==> x + count <= width,
                    width == before.cols,
                    i < self.lines@.len() == before.lines.len(),
                    i == before.top() + y,
                    before.on_screen(y as int),
                    line == before.row(y as int),
                    self@.rows == before.rows,
                    self@.cols == before.cols,
                    self@.scrollback == before.scrollback,
                    self.lines@[i as int]@ == line.inserted(x as int, n as int, width as int),
                    forall|j: int|
                        0 <= j < self.lines@.len() && j != i ==> #[trigger] self.lines@[j]@
                            == before.lines[j],
                decreases count - n,
            {
                self.lines[i].insert_cell(x + n, width);
                n += 1;
                assert(self.lines@[i as int]@.cells =~= line.inserted(
                    x as int,
                    n as int,
                    width as int,
                ).cells);
            }
        }
        assert(self@.lines =~= before.insert_cells(x as int, y as int, count as int).lines);
    }

    /// Takes `count` lines out at `first`, and puts as many fresh ones in before the
    /// line that was at `last`.
    fn shift_up(&mut self, first: usize, last: usize, count: usize)
        requires
            first + count <= last <= old(self)@.lines.len() <= size_limit(),
        ensures
            final(self)@ == (ScreenModel {
                lines: old(self)@.lines.take(first as int) + old(self)@.lines.subrange(
                    first + count,
                    last as int,
                ) + fresh_lines(count as nat, old(self)@.cols) + old(self)@.lines.skip(last as int),
                ..old(self)@
            }),
    {
        let ghost before = self@;
        self.remove_lines(first, count);
        let ghost without = self@.lines;
        assert(without.len() == before.lines.len() - count);
        self.insert_fresh(last - count, count);
        assert(without.take(last - count) =~= before.lines.take(first as int)
            + before.lines.subrange(first + count, last as int));
        assert(without.skip(last - count) =~= before.lines.skip(last as int));
    }

    /// Puts `count` fresh lines in before the line at `last`, and gives up lines of
    /// the scrollback where there are more than it holds.
    fn push_into_scrollback(&mut self, last: usize, count: usize)
        requires
            old(self).wf(),
            last <= old(self)@.lines.len(),
            count <= size_limit(),
        ensures
            final(self)@ == (ScreenModel {
                lines: ({
                    let moved = old(self)@.lines.take(last as int) + fresh_lines(
                        count as nat,
                        old(self)@.cols,
                    ) + old(self)@.lines.skip(last as int);
                    moved.skip(
                        at_least(moved.len() - (old(self)@.rows + old(self)@.scrollback), 0),
                    )
                }),
                ..old(self)@
            }),
    {
        self.insert_fresh(last, count);
        let ghost moved = self@.lines;
        let max: usize = self.physical_rows + self.scrollback_size;
        assert(self.lines@.len() == moved.len());
        if self.lines.len() > max {
            let extra: usize = self.lines.len() - max;
            self.remove_lines(0, extra);
            assert(self@.lines =~= moved.skip(extra as int));
        } else {
            assert(self@.lines =~= moved.skip(0));
        }
    }

    /// Moves the rows of the region up. Where the region starts at the top of the
    /// screen, the lines that leave it go to the scrollback.
    pub fn scroll_up(&mut self, region: &Range<VisibleRowIndex>, num_rows: usize)
        requires
            old(self).wf(),
            0 <= region.start <= region.end <= old(self)@.rows,
        ensures
            final(self).wf(),
            final(self)@ == old(self)@.scrolled_up(
                region.start as int,
                region.end as int,
                num_rows as int,
            ),
    {
        let ghost before = self@;
        let top: usize = self.lines.len() - self.physical_rows;
        let first: usize = top + region.start as usize;
        let last: usize = top + region.end as usize;
        let n: usize = if num_rows < last - first {
            num_rows
        } else {
            last - first
        };
        self.dirty_places(first..last);
        if region.start > 0 {
            self.shift_up(first, last, n);
            assert(self@.lines.skip(0) =~= self@.lines);
        } else {
            self.push_into_scrollback(last, n);
        }
    }

    /// Moves the rows of the region down.
    pub fn scroll_down(&mut self, region: &Range<VisibleRowIndex>, num_rows: usize)
        requires
            old(self).wf(),
            0 <= region.start <= region.end <= old(self)@.rows,
        ensures
            final(self).wf(),
            final(self)@.same_size(old(self)@),
            final(self)@ == old(self)@.scrolled_down(
                region.start as int,
                region.end as int,
                num_rows as int,
            ),
    {
        let ghost before = self@;
        let top: usize = self.lines.len() - self.physical_rows;
        let first: usize = top + region.start as usize;
        let last: usize = top + region.end as usize;
        let n: usize = if num_rows < last - first {
            num_rows
        } else {
            last - first
        };
        self.dirty_places(first..last);
        let ghost lines = self@.lines;
        self.remove_lines(last - n, n);
        assert(self@.lines.len() == lines.len() - n);
        self.insert_fresh(first, n);
        assert(self@.lines =~= lines.take(first as int) + fresh_lines(n as nat, before.cols)
            + lines.subrange(first as int, last - n) + lines.skip(last as int));
    }
}

} // verus!
