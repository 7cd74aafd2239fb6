//! What editing does to the cells of the screen, and to the selection.
use super::super::model::TerminalModel;
use super::performed;
use crate::attributes::{AttrModel, Blink, ColorAttribute, Intensity, Underline};
use crate::cell::CellModel;
use crate::escape::{Action, Edit, EraseInDisplay, EraseInLine, CSI};
use crate::screen::{
    law_scrolled_down_rows, law_scrolled_up_rows, law_scrolled_up_to_scrollback, ScreenModel,
};
use vstd::prelude::*;

verus! {

/// The lesser of two numbers.
pub open spec fn lesser(a: int, b: int) -> int {
    if a <= b {
        a
    } else {
        b
    }
}

/// Whether a column of a row is selected.
pub open spec fn cell_selected(t: TerminalModel, x: int, y: int) -> bool {
    t.selection_range matches Some(sel) && sel.selected(y).0 <= x < sel.selected(y).1
}

/// Whether a row of the screen or its scrollback is selected, or a part of it.
pub open spec fn row_selected(t: TerminalModel, y: int) -> bool {
    t.selection_range matches Some(sel) && (sel.start.y <= y <= sel.end.y || sel.end.y <= y
        <= sel.start.y)
}

/// Whether every row of the screen that shows something else than it did is dirty.
pub open spec fn changes_are_dirty(before: ScreenModel, after: ScreenModel) -> bool {
    forall|y: int|
        0 <= y < after.rows && (#[trigger] after.row(y)).cells != before.row(y).cells ==> after.row(
            y,
        ).dirty
}

/// Whether the lines above the screen are those that were there.
pub open spec fn scrollback_kept(before: TerminalModel, after: TerminalModel) -> bool {
    &&& after.active().top() == before.active().top()
    &&& forall|i: int|
        0 <= i < before.active().top() ==> #[trigger] after.active().lines[i].cells
            == before.active().lines[i].cells
}

/// The terminal after an edit.
pub open spec fn edited(t: TerminalModel, edit: Edit) -> TerminalModel {
    performed(t, Action::CSI(CSI::Edit(edit)))
}

#[verifier::rlimit(60)]
pub(super) proof fn lemma_delete_line(t: TerminalModel, n: u32)
    ensures
        edited(t, Edit::DeleteLine(n)) == t.delete_lines(n),
{
    reveal(performed);
}

#[verifier::rlimit(60)]
pub(super) proof fn lemma_insert_line(t: TerminalModel, n: u32)
    ensures
        edited(t, Edit::InsertLine(n)) == t.insert_lines(n),
{
    reveal(performed);
}

#[verifier::rlimit(60)]
pub(super) proof fn lemma_delete_character(t: TerminalModel, n: u32)
    ensures
        edited(t, Edit::DeleteCharacter(n)) == t.delete_characters(n),
{
    reveal(performed);
}

#[verifier::rlimit(60)]
pub(super) proof fn lemma_insert_character(t: TerminalModel, n: u32)
    ensures
        edited(t, Edit::InsertCharacter(n)) == t.insert_characters(n),
{
    reveal(performed);
}

/// Deleting lines in the scroll region moves the rows between what was deleted and the
/// end of the region up, and leaves blank rows at the end of the region. The rows
/// above the cursor and below the region stay. A selection that has one of the rows
/// from the cursor to the end of the region goes; another stays.
#[verifier::rlimit(40)]
pub proof fn law_delete_line(t: TerminalModel, n: u32)
    requires
        t.wf(),
        t.cursor_on_screen(),
        t.region_start <= t.cursor.y < t.region_end,
    ensures
        ({
            let after = edited(t, Edit::DeleteLine(n));
            let gone = lesser(n as int, t.region_end - t.cursor.y);
            &&& forall|x: int, y: int|
                0 <= x < t.cols() && 0 <= y < t.rows() ==> #[trigger] after.cell(x, y) == (if y
                    < t.cursor.y || y >= t.region_end {
                    t.cell(x, y)
                } else if y < t.region_end - gone {
                    t.cell(x, y + gone)
                } else {
                    CellModel::blank()
                })
            &&& t.cursor.y > 0 ==> scrollback_kept(t, after)
            &&& after.cursor == t.cursor
            &&& changes_are_dirty(t.active(), after.active())
            &&& if exists|y: int| t.cursor.y <= y < t.region_end && #[trigger] row_selected(t, y) {
                after.selection_range is None && after.selection_start is None
            } else {
                after.selection_range == t.selection_range
            }
        }),
{
    lemma_delete_line(t, n);
    law_scrolled_up_rows(t.active(), t.cursor.y, t.region_end, n as int);
    lemma_rows_selected(t, t.cursor.y, t.region_end);
}

/// Inserting lines in the scroll region leaves blank rows at the cursor, and moves the
/// rows from there to the end of the region down. The rows above the cursor and below
/// the region stay. A selection that has one of the rows from the cursor to the end
/// of the region goes; another stays.
pub proof fn law_insert_line(t: TerminalModel, n: u32)
    requires
        t.wf(),
        t.cursor_on_screen(),
        t.region_start <= t.cursor.y < t.region_end,
    ensures
        ({
            let after = edited(t, Edit::InsertLine(n));
            let new = lesser(n as int, t.region_end - t.cursor.y);
            &&& forall|x: int, y: int|
                0 <= x < t.cols() && 0 <= y < t.rows() ==> #[trigger] after.cell(x, y) == (if y
                    < t.cursor.y || y >= t.region_end {
                    t.cell(x, y)
                } else if y < t.cursor.y + new {
                    CellModel::blank()
                } else {
                    t.cell(x, y - new)
                })
            &&& scrollback_kept(t, after)
            &&& after.cursor == t.cursor
            &&& changes_are_dirty(t.active(), after.active())
            &&& if exists|y: int| t.cursor.y <= y < t.region_end && #[trigger] row_selected(t, y) {
                after.selection_range is None && after.selection_start is None
            } else {
                after.selection_range == t.selection_range
            }
        }),
{
    lemma_insert_line(t, n);
    law_scrolled_down_rows(t.active(), t.cursor.y, t.region_end, n as int);
    lemma_rows_selected(t, t.cursor.y, t.region_end);
}

proof fn lemma_rows_selected(t: TerminalModel, first: int, last: int)
    ensures
        t.selects_rows(first, last) <==> exists|y: int|
            first <= y < last && #[trigger] row_selected(t, y),
{
    if let Some(sel) = t.selection_range {
        if t.selects_rows(first, last) {
            let i = choose|i: int|
                #[trigger] crate::range::within(i, first, last) && crate::range::within(
                    i,
                    sel.first_row(),
                    sel.last_row() + 1,
                );
            assert(row_selected(t, i));
        }
        if exists|y: int| first <= y < last && #[trigger] row_selected(t, y) {
            let y = choose|y: int| first <= y < last && #[trigger] row_selected(t, y);
            assert(crate::range::within(y, first, last));
        }
    }
}

/// Lines are deleted and inserted in the scroll region only.
pub proof fn law_edit_lines_outside_region(t: TerminalModel, n: u32)
    requires
        t.cursor.y < t.region_start || t.cursor.y >= t.region_end,
    ensures
        edited(t, Edit::DeleteLine(n)) == t,
        edited(t, Edit::InsertLine(n)) == t,
{
    lemma_delete_line(t, n);
    lemma_insert_line(t, n);
}

/// Whether the columns from `start` up to `end` of a row are not selected after an edit,
/// and a selection that had none of them is as it was.
pub open spec fn columns_deselected(
    t: TerminalModel,
    after: TerminalModel,
    start: int,
    end: int,
    row: int,
) -> bool {
    if exists|x: int| start <= x < end && #[trigger] cell_selected(t, x, row) {
        after.selection_range is None && after.selection_start is None
    } else {
        after.selection_range == t.selection_range
    }
}

pub(super) proof fn lemma_columns_selected(t: TerminalModel, start: int, end: int, row: int)
    ensures
        t.selects(start, end, row) <==> exists|x: int|
            start <= x < end && #[trigger] cell_selected(t, x, row),
{
    if let Some(sel) = t.selection_range {
        if t.selects(start, end, row) {
            let i = choose|i: int|
                #[trigger] crate::range::within(i, start, end) && crate::range::within(
                    i,
                    sel.selected(row).0 as int,
                    sel.selected(row).1 as int,
                );
            assert(cell_selected(t, i, row));
        }
        if exists|x: int| start <= x < end && #[trigger] cell_selected(t, x, row) {
            let x = choose|x: int| start <= x < end && #[trigger] cell_selected(t, x, row);
            assert(crate::range::within(x, start, end));
        }
    }
}

/// Deleting characters moves the cells to their right to the cursor; the other rows and
/// the cells to the left of the cursor stay.
pub proof fn law_delete_character(t: TerminalModel, n: u32)
    requires
        t.wf(),
        t.cursor_on_screen(),
    ensures
        ({
            let after = edited(t, Edit::DeleteCharacter(n));
            let gone = lesser(n as int, t.cols() - t.cursor.x);
            &&& forall|x: int, y: int|
                0 <= x < t.cols() && 0 <= y < t.rows() ==> #[trigger] after.cell(x, y) == (if y
                    != t.cursor.y || x < t.cursor.x {
                    t.cell(x, y)
                } else {
                    t.cell(x + gone, y)
                })
            &&& after.cursor == t.cursor
            &&& changes_are_dirty(t.active(), after.active())
            &&& columns_deselected(t, after, t.cursor.x, t.cursor.x + gone, t.cursor.y)
        }),
{
    lemma_delete_character(t, n);
    lemma_columns_selected(t, t.cursor.x, t.edit_limit(n), t.cursor.y);
    let cut = t.erase_cells(t.edit_count(n));
    lemma_columns_selected(cut, t.cursor.x, t.edit_limit(n), t.cursor.y);
}

/// Inserting characters leaves blanks at the cursor, and moves the cells from there on to
/// the right; the other rows and the cells to the left of the cursor stay.
pub proof fn law_insert_character(t: TerminalModel, n: u32)
    requires
        t.wf(),
        t.cursor_on_screen(),
    ensures
        ({
            let after = edited(t, Edit::InsertCharacter(n));
            let new = lesser(n as int, t.cols() - t.cursor.x);
            &&& forall|x: int, y: int|
                0 <= x < t.cols() && 0 <= y < t.rows() ==> #[trigger] after.cell(x, y) == (if y
                    != t.cursor.y || x < t.cursor.x {
                    t.cell(x, y)
                } else if x < t.cursor.x + new {
                    CellModel::blank()
                } else {
                    t.cell(x - new, y)
                })
            &&& after.cursor == t.cursor
            &&& changes_are_dirty(t.active(), after.active())
            &&& columns_deselected(t, after, t.cursor.x, t.cursor.x + new, t.cursor.y)
        }),
{
    lemma_insert_character(t, n);
    lemma_columns_selected(t, t.cursor.x, t.edit_limit(n), t.cursor.y);
    let wide = t.insert_cells(t.edit_count(n));
    lemma_columns_selected(wide, t.cursor.x, t.edit_limit(n), t.cursor.y);
}

#[verifier::rlimit(60)]
pub(super) proof fn lemma_erase_character(t: TerminalModel, n: u32)
    ensures
        edited(t, Edit::EraseCharacter(n)) == t.clear_cols(
            t.cursor.x,
            t.edit_limit(n),
            AttrModel::plain(),
        ),
{
    reveal(performed);
}

#[verifier::rlimit(60)]
pub(super) proof fn lemma_erase_in_line(t: TerminalModel, erase: EraseInLine)
    ensures
        edited(t, Edit::EraseInLine(erase)) == t.erase_in_line(erase),
{
    reveal(performed);
}

#[verifier::rlimit(60)]
pub(super) proof fn lemma_erase_in_display(t: TerminalModel, erase: EraseInDisplay)
    ensures
        edited(t, Edit::EraseInDisplay(erase)) == t.erase_in_display(erase),
{
    reveal(performed);
}

#[verifier::rlimit(60)]
pub(super) proof fn lemma_scroll_up(t: TerminalModel, n: u32)
    ensures
        edited(t, Edit::ScrollUp(n)) == t.scroll_up(n as int),
{
    reveal(performed);
}

#[verifier::rlimit(60)]
pub(super) proof fn lemma_scroll_down(t: TerminalModel, n: u32)
    ensures
        edited(t, Edit::ScrollDown(n)) == t.scroll_down(n as int),
{
    reveal(performed);
}

/// A blank cell holds a space that is drawn in no particular way, and no link.
pub proof fn law_blank()
    ensures
        CellModel::blank().text == ' ',
        CellModel::blank().attrs.link is None,
        CellModel::blank().attrs.rendition.intensity == Intensity::Normal,
        CellModel::blank().attrs.rendition.underline == Underline::Off,
        CellModel::blank().attrs.rendition.blink == Blink::Off,
        CellModel::blank().attrs.rendition.foreground == ColorAttribute::Default,
        CellModel::blank().attrs.rendition.background == ColorAttribute::Default,
        !CellModel::blank().attrs.rendition.italic,
        !CellModel::blank().attrs.rendition.reverse,
        !CellModel::blank().attrs.rendition.strikethrough,
        !CellModel::blank().attrs.rendition.invisible,
{
}

/// Whether a cell holds a space that is drawn as the pen draws, and no link.
pub open spec fn erased_by(cell: CellModel, pen: AttrModel) -> bool {
    cell.text == ' ' && cell.attrs.rendition == pen.rendition && cell.attrs.link is None
}

/// Erasing characters leaves blanks in their columns, and every other cell where it was.
pub proof fn law_erase_character(t: TerminalModel, n: u32)
    requires
        t.wf(),
        t.cursor_on_screen(),
    ensures
        ({
            let after = edited(t, Edit::EraseCharacter(n));
            let gone = lesser(n as int, t.cols() - t.cursor.x);
            &&& forall|x: int, y: int|
                0 <= x < t.cols() && 0 <= y < t.rows() ==> #[trigger] after.cell(x, y) == (if y
                    == t.cursor.y && t.cursor.x <= x < t.cursor.x + gone {
                    CellModel::blank()
                } else {
                    t.cell(x, y)
                })
            &&& after.cursor == t.cursor
            &&& changes_are_dirty(t.active(), after.active())
            &&& columns_deselected(t, after, t.cursor.x, t.cursor.x + gone, t.cursor.y)
        }),
{
    lemma_erase_character(t, n);
    lemma_cleared_cols(t, t.cursor.x, t.edit_limit(n), AttrModel::plain());
}

proof fn lemma_cleared_cols(t: TerminalModel, start: int, end: int, attrs: AttrModel)
    requires
        t.wf(),
        t.cursor_on_screen(),
        0 <= start,
        end <= t.cols(),
    ensures
        ({
            let after = t.clear_cols(start, end, attrs);
            &&& forall|x: int, y: int|
                0 <= x < t.cols() && 0 <= y < t.rows() ==> #[trigger] after.cell(x, y) == (if y
                    == t.cursor.y && start <= x < end {
                    CellModel::space(attrs)
                } else {
                    t.cell(x, y)
                })
            &&& after.cursor == t.cursor
            &&& changes_are_dirty(t.active(), after.active())
            &&& columns_deselected(t, after, start, end, t.cursor.y)
        }),
{
    let filled = t.with_active(
        t.active().fill_row(t.cursor.y, start, end, CellModel::space(attrs)),
    );
    lemma_columns_selected(t, start, end, t.cursor.y);
    lemma_columns_selected(filled, start, end, t.cursor.y);
}

/// Erasing in a line erases the row of the cursor: from the cursor on, or up to the cursor
/// and not the cell under it, or all of it. Every other cell stays as it was.
pub proof fn law_erase_line(t: TerminalModel, erase: EraseInLine)
    requires
        t.wf(),
        t.cursor_on_screen(),
    ensures
        ({
            let after = edited(t, Edit::EraseInLine(erase));
            let (start, end) = match erase {
                EraseInLine::EraseToEndOfLine => (t.cursor.x, t.cols()),
                EraseInLine::EraseToStartOfLine => (0, t.cursor.x),
                EraseInLine::EraseLine => (0, t.cols()),
            };
            &&& forall|x: int, y: int|
                0 <= x < t.cols() && 0 <= y < t.rows() ==> if y == t.cursor.y && start <= x < end {
                    erased_by(#[trigger] after.cell(x, y), t.pen)
                } else {
                    after.cell(x, y) == t.cell(x, y)
                }
            &&& after.cursor == t.cursor
            &&& changes_are_dirty(t.active(), after.active())
            &&& columns_deselected(t, after, start, end, t.cursor.y)
        }),
{
    lemma_erase_in_line(t, erase);
    let attrs = t.pen.sgr_only();
    lemma_cleared_cols(t, t.cursor.x, t.cols(), attrs);
    lemma_cleared_cols(t, 0, t.cursor.x, attrs);
    lemma_cleared_cols(t, 0, t.cols(), attrs);
}

/// Erasing in the display erases whole rows: from the row of the cursor on, or the rows
/// above it, or all of them. Every other row stays as it was, and so does the
/// selection where no cell of the erased rows is selected. The scrollback stays.
pub proof fn law_erase_display(t: TerminalModel, erase: EraseInDisplay)
    requires
        t.wf(),
        t.cursor_on_screen(),
    ensures
        ({
            let after = edited(t, Edit::EraseInDisplay(erase));
            let (first, last) = match erase {
                EraseInDisplay::EraseToEndOfDisplay => (t.cursor.y, t.rows()),
                EraseInDisplay::EraseToStartOfDisplay => (0, t.cursor.y),
                EraseInDisplay::EraseDisplay => (0, t.rows()),
                EraseInDisplay::EraseScrollback => (0, 0),
            };
            &&& forall|x: int, y: int|
                0 <= x < t.cols() && 0 <= y < t.rows() ==> if first <= y < last {
                    erased_by(#[trigger] after.cell(x, y), t.pen)
                } else {
                    after.cell(x, y) == t.cell(x, y)
                }
            &&& after.active().top() == t.active().top()
            &&& forall|i: int|
                0 <= i < t.active().top() ==> #[trigger] after.active().lines[i]
                    == t.active().lines[i]
            &&& after.cursor == t.cursor
            &&& changes_are_dirty(t.active(), after.active())
            &&& if exists|x: int, y: int|
                0 <= x < t.cols() && first <= y < last && #[trigger] cell_selected(t, x, y) {
                after.selection_range is None && after.selection_start is None
            } else {
                after.selection_range == t.selection_range
            }
        }),
{
    lemma_erase_in_display(t, erase);
    let rows = t.erased_rows(erase);
    if exists|y: int| rows.0 <= y < rows.1 && #[trigger] t.selects(0, t.cols(), y) {
        let y = choose|y: int| rows.0 <= y < rows.1 && #[trigger] t.selects(0, t.cols(), y);
        lemma_columns_selected(t, 0, t.cols(), y);
    }
    if exists|x: int, y: int|
        0 <= x < t.cols() && rows.0 <= y < rows.1 && #[trigger] cell_selected(t, x, y) {
        let (x, y) = choose|x: int, y: int|
            0 <= x < t.cols() && rows.0 <= y < rows.1 && #[trigger] cell_selected(t, x, y);
        lemma_columns_selected(t, 0, t.cols(), y);
    }
}

/// The first row of the scroll region that is on the screen.
pub open spec fn first_region_row(t: TerminalModel) -> int {
    if t.region_start < 0 {
        0
    } else {
        t.region_start
    }
}

/// Scrolling up moves the rows of the scroll region up, and leaves blank rows at its end.
/// The other rows and the cursor stay, and nothing is selected after it.
#[verifier::rlimit(40)]
pub proof fn law_scroll_up(t: TerminalModel, n: u32)
    requires
        t.wf(),
    ensures
        ({
            let after = edited(t, Edit::ScrollUp(n));
            let gone = lesser(n as int, t.region_end - first_region_row(t));
            &&& forall|x: int, y: int|
                0 <= x < t.cols() && 0 <= y < t.rows() ==> #[trigger] after.cell(x, y) == (if y
                    < first_region_row(t) || y >= t.region_end {
                    t.cell(x, y)
                } else if y < t.region_end - gone {
                    t.cell(x, y + gone)
                } else {
                    CellModel::blank()
                })
            &&& after.cursor == t.cursor
            &&& changes_are_dirty(t.active(), after.active())
            &&& after.selection_range is None && after.selection_start is None
        }),
{
    lemma_scroll_up(t, n);
    let cleared = t.clear_selection();
    lemma_cleared(t);
    if t.region_end > 0 {
        law_scrolled_up_rows(cleared.active(), t.region_top(), t.region_end, n as int);
    }
}

/// What scrolls off the top of the primary screen goes to the end of the scrollback, as far
/// as that has room, and the scrollback keeps what it had.
pub proof fn law_scroll_up_keeps_lines(t: TerminalModel, n: u32)
    requires
        t.wf(),
        t.region_start <= 0,
        n <= t.region_end,
        t.active().lines.len() + n <= t.rows() + t.active().scrollback,
    ensures
        ({
            let after = edited(t, Edit::ScrollUp(n));
            &&& after.active().top() == t.active().top() + n
            &&& forall|i: int|
                0 <= i < t.active().top() + n ==> #[trigger] after.active().lines[i].cells
                    == t.active().lines[i].cells
        }),
{
    lemma_scroll_up(t, n);
    let cleared = t.clear_selection();
    lemma_cleared(t);
    if t.region_end > 0 {
        law_scrolled_up_to_scrollback(cleared.active(), t.region_end, n as int);
    }
}

/// The scrollback has the lines that scrolled off the top of the screen last, the newest of
/// them last, and no more of them than it has room for. Where the scroll region starts
/// below the top of the screen, the scrollback stays as it was.
pub proof fn law_scroll_up_scrollback(t: TerminalModel, n: u32)
    requires
        t.wf(),
        n <= t.region_end - first_region_row(t),
    ensures
        ({
            let after = edited(t, Edit::ScrollUp(n));
            if t.region_start > 0 {
                scrollback_kept(t, after)
            } else {
                &&& after.active().top() == lesser(t.active().top() + n, t.active().scrollback)
                &&& forall|k: int|
                    1 <= k <= after.active().top() ==> (#[trigger] after.active().row(-k)).cells
                        == t.active().row(n - k).cells
            }
        }),
{
    lemma_scroll_up(t, n);
    lemma_cleared(t);
}

/// Scrolling down moves the rows of the scroll region down, and leaves blank rows at its
/// start. The other rows, the scrollback and the cursor stay, and nothing is selected
/// after it.
pub proof fn law_scroll_down(t: TerminalModel, n: u32)
    requires
        t.wf(),
    ensures
        ({
            let after = edited(t, Edit::ScrollDown(n));
            let new = lesser(n as int, t.region_end - first_region_row(t));
            &&& forall|x: int, y: int|
                0 <= x < t.cols() && -t.active().top() <= y < t.rows() ==> #[trigger] after.cell(
                    x,
                    y,
                ) == (if y < first_region_row(t) || y >= t.region_end {
                    t.cell(x, y)
                } else if y < first_region_row(t) + new {
                    CellModel::blank()
                } else {
                    t.cell(x, y - new)
                })
            &&& after.active().top() == t.active().top()
            &&& after.cursor == t.cursor
            &&& changes_are_dirty(t.active(), after.active())
            &&& after.selection_range is None && after.selection_start is None
        }),
{
    lemma_scroll_down(t, n);
    let cleared = t.clear_selection();
    lemma_cleared(t);
    if t.region_end > 0 {
        law_scrolled_down_rows(cleared.active(), t.region_top(), t.region_end, n as int);
    }
}

proof fn lemma_cleared(t: TerminalModel)
    requires
        t.wf(),
    ensures
        t.clear_selection().active().same_size(t.active()),
        t.clear_selection().active().wf(),
        forall|i: int|
            0 <= i < t.active().lines.len() ==> (
            #[trigger] t.clear_selection().active().lines[i]).cells == t.active().lines[i].cells,
{
}

/// What edits the row of the cursor changes no cell where the cursor is above the screen.
#[verifier::rlimit(40)]
pub proof fn law_edit_above_screen(t: TerminalModel, n: u32, erase: EraseInLine)
    requires
        t.wf(),
        t.cursor.y < 0,
    ensures
        edited(t, Edit::DeleteCharacter(n)).active() == t.active(),
        edited(t, Edit::InsertCharacter(n)).active() == t.active(),
        edited(t, Edit::EraseCharacter(n)).active() == t.active(),
        edited(t, Edit::EraseInLine(erase)).active() == t.active(),
{
    lemma_delete_character(t, n);
    lemma_insert_character(t, n);
    lemma_erase_character(t, n);
    lemma_erase_in_line(t, erase);
}

} // verus!
