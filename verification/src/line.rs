//! One line of the screen.
use crate::attributes::{AttrModel, Hyperlink, LinkModel};
use crate::cell::{Cell, CellModel};
use crate::hyperlink::{find_target, found_links, links_view, target_at, Rule};
use crate::text::{byte_offset, char_utf8_len};
use vstd::prelude::*;

verus! {

/// The cells of a line, and whether the line has changed since it was last
/// drawn.
#[derive(Debug, PartialEq, Eq)]
pub struct Line {
    pub cells: Vec<Cell>,
    pub dirty: bool,
}

#[verifier::ext_equal]
pub struct LineModel {
    pub cells: Seq<CellModel>,
    pub dirty: bool,
}

/// Cells as mathematical values.
pub open spec fn cells_view(cells: Seq<Cell>) -> Seq<CellModel> {
    Seq::new(cells.len(), |i: int| cells[i]@)
}

impl View for Line {
    type V = LineModel;

    open spec fn view(&self) -> LineModel {
        LineModel { cells: cells_view(self.cells@), dirty: self.dirty }
    }
}

/// `n` blank cells.
pub open spec fn blanks(n: nat) -> Seq<CellModel> {
    Seq::new(n, |i: int| CellModel::blank())
}

/// The cell in column `i`; the columns after the last cell are blank.
pub open spec fn cell_at(cells: Seq<CellModel>, i: int) -> CellModel {
    if i < cells.len() {
        cells[i]
    } else {
        CellModel::blank()
    }
}

/// The text of some cells.
pub open spec fn cells_text(cells: Seq<CellModel>) -> Seq<char> {
    Seq::new(cells.len(), |i: int| cells[i].text)
}

/// Whether a cell is part of a link.
pub open spec fn is_linked(cell: CellModel) -> bool {
    cell.attrs.link is Some
}

/// A cell with the implicit link that its place in the text gives it. A link
/// that was set explicitly stays.
pub open spec fn relinked(cell: CellModel, target: Option<Seq<char>>) -> CellModel {
    match cell.attrs.link {
        Some(link) if !link.implicit => cell,
        _ => CellModel {
            attrs: AttrModel {
                link: match target {
                    Some(uri) => Some(LinkModel { uri, implicit: true }),
                    None => None,
                },
                ..cell.attrs
            },
            ..cell
        },
    }
}

impl LineModel {
    /// A new line of `width` blank cells, which is yet to be drawn.
    pub open spec fn fresh(width: nat) -> LineModel {
        LineModel { cells: blanks(width), dirty: true }
    }

    pub open spec fn dirtied(self) -> LineModel {
        LineModel { dirty: true, ..self }
    }

    pub open spec fn cleaned(self) -> LineModel {
        LineModel { dirty: false, ..self }
    }

    /// The line with `width` cells: cut off, or filled up with blanks.
    pub open spec fn resized(self, width: nat) -> LineModel {
        LineModel { cells: Seq::new(width, |i: int| cell_at(self.cells, i)), dirty: true }
    }

    /// The line with every column from `start` up to `end` holding `cell`.
    pub open spec fn filled(self, start: int, end: int, cell: CellModel) -> LineModel {
        if start < end {
            LineModel {
                cells: Seq::new(
                    if end > self.cells.len() {
                        end as nat
                    } else {
                        self.cells.len()
                    },
                    |i: int|
                        if start <= i < end {
                            cell
                        } else {
                            cell_at(self.cells, i)
                        },
                ),
                dirty: true,
            }
        } else {
            self
        }
    }

    /// The line after `count` cells at column `x` were taken out. The cells to
    /// their right move left, and blanks come in at the end of the line.
    pub open spec fn erased(self, x: int, count: int) -> LineModel {
        if count > 0 {
            LineModel {
                cells: Seq::new(
                    self.cells.len(),
                    |i: int|
                        if i < x {
                            self.cells[i]
                        } else {
                            cell_at(self.cells, i + count)
                        },
                ),
                dirty: true,
            }
        } else {
            self
        }
    }

    /// The line after `count` blanks were put in at column `x`. The cells from
    /// there on move right, and those that pass the last of `width` columns fall
    /// off.
    pub open spec fn inserted(self, x: int, count: int, width: int) -> LineModel {
        if count > 0 {
            let room = if x > self.cells.len() {
                x
            } else {
                self.cells.len() as int
            };
            let len = if room + count > width {
                width
            } else {
                room + count
            };
            LineModel {
                cells: Seq::new(
                    len as nat,
                    |i: int|
                        if i < x {
                            cell_at(self.cells, i)
                        } else if i < x + count {
                            CellModel::blank()
                        } else {
                            self.cells[i - count]
                        },
                ),
                dirty: true,
            }
        } else {
            self
        }
    }

    /// The text of the columns from `start` up to `end`, as far as the line has
    /// them.
    pub open spec fn text_of(self, start: int, end: int) -> Seq<char> {
        let len = self.cells.len() as int;
        let from = if start < len {
            start
        } else {
            len
        };
        let to = if end < len {
            end
        } else {
            len
        };
        if from < to {
            cells_text(self.cells).subrange(from, to)
        } else {
            Seq::empty()
        }
    }

    /// Whether some cell of the line is part of a link.
    pub open spec fn has_link(self) -> bool {
        exists|i: int| 0 <= i < self.cells.len() && is_linked(#[trigger] self.cells[i])
    }

    /// The line with the implicit links at the given bytes of its text.
    pub open spec fn with_links(self, links: Seq<(usize, usize, Seq<char>)>) -> LineModel {
        LineModel {
            cells: Seq::new(
                self.cells.len(),
                |i: int|
                    relinked(
                        self.cells[i],
                        target_at(links, byte_offset(cells_text(self.cells), i)),
                    ),
            ),
            ..self
        }
    }

    /// The line with the implicit links that the rules find in its text.
    pub open spec fn linked_by(self, rules: Seq<Rule>) -> LineModel {
        self.with_links(found_links(rules, cells_text(self.cells)))
    }

    /// The link of the cell in column `x`.
    pub open spec fn link_at(self, x: int) -> Option<LinkModel> {
        if 0 <= x < self.cells.len() {
            self.cells[x].attrs.link
        } else {
            None
        }
    }
}

/// The text of some columns of a line is the characters of the cells in them, in order, as
/// far as the line has them.
pub proof fn law_text_of(line: LineModel, start: int, end: int)
    requires
        0 <= start,
    ensures
        ({
            let text = line.text_of(start, end);
            &&& forall|i: int|
                0 <= i < text.len() ==> #[trigger] text[i] == line.cells[start + i].text
            &&& forall|x: int|
                start <= x < end && x < line.cells.len() ==> x - start < text.len()
                    && #[trigger] line.cells[x].text == text[x - start]
            &&& start + text.len() <= line.cells.len() || text.len() == 0
            &&& start + text.len() <= end || text.len() == 0
        }),
{
}

/// Looking for links again changes nothing.
pub proof fn law_linked_by_idempotent(line: LineModel, rules: Seq<Rule>)
    ensures
        line.linked_by(rules).linked_by(rules) == line.linked_by(rules),
        cells_text(line.linked_by(rules).cells) == cells_text(line.cells),
{
    let once = line.linked_by(rules);
    assert(cells_text(once.cells) =~= cells_text(line.cells));
    assert(once.linked_by(rules).cells =~= once.cells);
}

/// Looking for links leaves the text of a line and how it is drawn, and the links that were
/// set explicitly. Another cell is then part of an implicit link where a link that was
/// found covers its place in the text, and of none where no such link does.
pub proof fn law_links_found(line: LineModel, rules: Seq<Rule>, i: int)
    requires
        0 <= i < line.cells.len(),
    ensures
        ({
            let cell = line.cells[i];
            let after = line.linked_by(rules).cells[i];
            let found = target_at(
                found_links(rules, cells_text(line.cells)),
                byte_offset(cells_text(line.cells), i),
            );
            &&& line.linked_by(rules).cells.len() == line.cells.len()
            &&& line.linked_by(rules).dirty == line.dirty
            &&& after.text == cell.text
            &&& after.attrs.rendition == cell.attrs.rendition
            &&& match cell.attrs.link {
                Some(link) => !link.implicit ==> after.attrs.link == cell.attrs.link,
                None => true,
            }
            &&& (cell.attrs.link is None || cell.attrs.link->Some_0.implicit) ==> match found {
                Some(uri) => after.attrs.link matches Some(link) && link.uri == uri
                    && link.implicit,
                None => after.attrs.link is None,
            }
        }),
{
}

/// Putting blanks in and taking them out again leaves the columns up to where the
/// line was cut off as they were.
pub proof fn law_insert_erase(line: LineModel, x: int, count: int, width: int)
    requires
        0 <= x < line.cells.len() <= width,
        0 < count,
        x + count <= width,
    ensures
        forall|i: int|
            0 <= i < line.cells.len() && i + count < width ==> #[trigger] line.inserted(
                x,
                count,
                width,
            ).erased(x, count).cells[i] == line.cells[i],
{
}

impl Line {
    pub fn with_width(width: usize) -> (line: Line)
        ensures
            line@ == LineModel::fresh(width as nat),
    {
        let mut line = Line { cells: Vec::new(), dirty: true };
        line.pad(width);
        assert(line@.cells =~= blanks(width as nat));
        line
    }

    /// Adds blanks until the line has `width` cells.
    fn pad(&mut self, width: usize)
        ensures
            final(self).cells@.len() == (if width > old(self).cells@.len() {
                width as nat
            } else {
                old(self).cells@.len()
            }),
            forall|i: int|
                0 <= i < final(self).cells@.len() ==> #[trigger] final(self).cells@[i]@ == cell_at(
                    old(self)@.cells,
                    i,
                ),
            final(self).dirty == old(self).dirty,
    {
        let ghost before = self@;
        while self.cells.len() < width
            invariant
                self.dirty == before.dirty,
                self.cells@.len() >= before.cells.len(),
                self.cells@.len() > before.cells.len() ==> self.cells@.len() <= width,
                forall|i: int|
                    0 <= i < self.cells@.len() ==> #[trigger] self.cells@[i]@ == cell_at(
                        before.cells,
                        i,
                    ),
            decreases width - self.cells@.len(),
        {
            self.cells.push(Cell::blank());
        }
    }

    pub fn resize(&mut self, width: usize)
        ensures
            final(self)@ == old(self)@.resized(width as nat),
    {
        let ghost before = self@;
        self.cells.truncate(width);
        self.pad(width);
        self.dirty = true;
        assert(self@.cells =~= before.resized(width as nat).cells);
    }

    pub fn set_dirty(&mut self)
        ensures
            final(self)@ == old(self)@.dirtied(),
    {
        self.dirty = true;
    }

    pub fn set_clean(&mut self)
        ensures
            final(self)@ == old(self)@.cleaned(),
    {
        self.dirty = false;
    }

    pub fn is_dirty(&self) -> (dirty: bool)
        ensures
            dirty == self@.dirty,
    {
        self.dirty
    }

    /// Puts `cell` into column `x`; where the line is too short, blanks fill the
    /// columns before it.
    pub fn set_cell(&mut self, x: usize, cell: Cell)
        requires
            x < usize::MAX,
        ensures
            final(self)@ == old(self)@.filled(x as int, x + 1, cell@),
    {
        let ghost before = self@;
        let ghost put = cell@;
        self.pad(x + 1);
        self.cells.set(x, cell);
        self.dirty = true;
        assert(self@.cells =~= before.filled(x as int, x + 1, put).cells);
    }

    /// Takes out the cell in column `x` and adds a blank at the end.
    pub fn erase_cell(&mut self, x: usize)
        ensures
            final(self)@ == old(self)@.erased(x as int, 1),
    {
        let ghost before = self@;
        if x < self.cells.len() {
            let _ = self.cells.remove(x);
            self.cells.push(Cell::blank());
        }
        self.dirty = true;
        assert(self@.cells =~= before.erased(x as int, 1).cells);
    }

    /// Puts a blank in at column `x` of a line of `width` columns.
    pub fn insert_cell(&mut self, x: usize, width: usize)
        requires
            x < width,
        ensures
            final(self)@ == old(self)@.inserted(x as int, 1, width as int),
    {
        let ghost before = self@;
        self.pad(x);
        self.cells.insert(x, Cell::blank());
        self.cells.truncate(width);
        self.dirty = true;
        assert(self@.cells =~= before.inserted(x as int, 1, width as int).cells);
    }

    /// Whether some cell of the line is part of a link.
    pub fn has_hyperlink(&self) -> (b: bool)
        ensures
            b == self@.has_link(),
    {
        let mut i: usize = 0;
        while i < self.cells.len()
            invariant
                i <= self.cells@.len(),
                forall|j: int| 0 <= j < i ==> !is_linked(#[trigger] self@.cells[j]),
            decreases self.cells@.len() - i,
        {
            if self.cells[i].attrs.hyperlink.is_some() {
                assert(is_linked(self@.cells[i as int]));
                return true;
            }
            i += 1;
        }
        false
    }

    /// The text of the columns from `start` up to `end`, as far as the line has
    /// them.
    pub fn columns_as_chars(&self, start: usize, end: usize) -> (text: Vec<char>)
        ensures
            text@ == self@.text_of(start as int, end as int),
    {
        let mut text: Vec<char> = Vec::new();
        let to: usize = if end < self.cells.len() {
            end
        } else {
            self.cells.len()
        };
        let mut i: usize = start;
        assert(text@ =~= self@.text_of(start as int, start as int));
        while i < to
            invariant
                start <= i,
                i <= to || i == start,
                to <= self.cells@.len(),
                text@ == self@.text_of(start as int, i as int),
            decreases to - i,
        {
            text.push(self.cells[i].text);
            i += 1;
            assert(text@ =~= self@.text_of(start as int, i as int));
        }
        assert(text@ =~= self@.text_of(start as int, end as int));
        text
    }

    /// The text of the line.
    pub fn as_str(&self) -> (text: String)
        ensures
            text@ == cells_text(self@.cells),
    {
        let mut text = String::new();
        let mut i: usize = 0;
        assert(text@ =~= cells_text(self@.cells).take(0));
        while i < self.cells.len()
            invariant
                i <= self.cells@.len(),
                text@ == cells_text(self@.cells).take(i as int),
            decreases self.cells@.len() - i,
        {
            text.push(self.cells[i].text);
            i += 1;
            assert(text@ =~= cells_text(self@.cells).take(i as int));
        }
        assert(text@ =~= cells_text(self@.cells));
        text
    }

    /// Gives the cells the implicit links at the given bytes of the text.
    pub fn apply_links(&mut self, links: &Vec<(usize, usize, String)>)
        ensures
            final(self)@ == old(self)@.with_links(links_view(links@)),
    {
        let ghost before = self@;
        let ghost text = cells_text(before.cells);
        let ghost after = before.with_links(links_view(links@)).cells;
        let mut offset: u128 = 0;
        let mut i: usize = 0;
        while i < self.cells.len()
            invariant
                i <= self.cells@.len(),
                self.cells@.len() == before.cells.len(),
                self.dirty == before.dirty,
                text == cells_text(before.cells),
                after == before.with_links(links_view(links@)).cells,
                offset == byte_offset(text, i as int),
                offset <= 4 * i,
                forall|j: int| 0 <= j < i ==> #[trigger] self.cells@[j]@ == after[j],
                forall|j: int|
                    i <= j < self.cells@.len() ==> #[trigger] self.cells@[j]@ == before.cells[j],
            decreases self.cells@.len() - i,
        {
            let explicit = match &self.cells[i].attrs.hyperlink {
                Some(link) => !link.implicit,
                None => false,
            };
            let step: usize = char_utf8_len(self.cells[i].text);
            assert(self.cells@[i as int]@ == before.cells[i as int]);
            if !explicit {
                let mut cell = self.cells[i].duplicate();
                cell.attrs.hyperlink = match find_target(links, offset) {
                    Some(uri) => Some(Hyperlink { uri, implicit: true }),
                    None => None,
                };
                assert(cell@ == after[i as int]);
                self.cells.set(i, cell);
            }
            assert(self.cells@[i as int]@ == after[i as int]);
            offset = offset + step as u128;
            i += 1;
        }
        assert(self@.cells =~= after);
    }

    /// Gives the cells the implicit links that the rules find in the text.
    pub fn find_hyperlinks(&mut self, rules: &Vec<Rule>)
        ensures
            final(self)@ == old(self)@.linked_by(rules@),
    {
        let text = self.as_str();
        let links = Rule::match_hyperlinks(text.as_str(), rules);
        self.apply_links(&links);
    }
}

} // verus!
