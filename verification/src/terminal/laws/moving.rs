//! Where the cursor goes, and what it leaves as it was.
use super::super::model::{Place, TerminalModel};
use super::editing::{first_region_row, lesser};
use super::keeping::only_output;
use super::performed;
use crate::cell::CellModel;
use crate::escape::{Action, ControlCode, Cursor, Esc, EscCode, CSI};
use crate::screen::{at_least, law_scrolled_down_rows, law_scrolled_up_rows, ScreenModel};
use crate::tabs::law_next_stop;
use vstd::prelude::*;

verus! {

/// The terminal after a cursor sequence.
pub open spec fn sent(t: TerminalModel, cursor: Cursor) -> TerminalModel {
    performed(t, Action::CSI(CSI::Cursor(cursor)))
}

/// The terminal after a control character.
pub open spec fn controlled(t: TerminalModel, control: ControlCode) -> TerminalModel {
    performed(t, Action::Control(control))
}

/// The terminal after an escape sequence.
pub open spec fn escaped(t: TerminalModel, code: EscCode) -> TerminalModel {
    performed(t, Action::Esc(Esc::Code(code)))
}

/// Whether two screens hold the same cells.
pub open spec fn same_cells(a: ScreenModel, b: ScreenModel) -> bool {
    &&& a.same_size(b)
    &&& forall|i: int|
        0 <= i < a.lines.len() ==> (#[trigger] b.lines[i]).cells == a.lines[i].cells
}

/// Whether what the cursor does not have to do with is as it was.
pub open spec fn rest_kept(before: TerminalModel, after: TerminalModel) -> bool {
    &&& same_cells(before.active(), after.active())
    &&& only_output(before, after)
    &&& after.selection_range == before.selection_range
    &&& after.selection_start == before.selection_start
}

/// Whether the cursor went to a cell, and nothing else changed but that the rows that it
/// left and came to will be drawn again.
pub open spec fn moved(before: TerminalModel, after: TerminalModel, x: int, y: int) -> bool {
    &&& after.cursor == (Place { x, y })
    &&& !after.wrap_next
    &&& rest_kept(before, after)
    &&& after.active().row(before.cursor.y).dirty
    &&& after.active().row(y).dirty
}

proof fn lemma_moved(t: TerminalModel, x: int, y: int)
    requires
        t.wf(),
        t.cursor_on_screen(),
        x >= 0,
        y >= 0,
    ensures
        moved(t, t.cursor_to(x, y), lesser(x, t.cols() - 1), lesser(y, t.rows() - 1)),
{
}

#[verifier::rlimit(60)]
proof fn lemma_sent(t: TerminalModel, cursor: Cursor)
    ensures
        sent(t, cursor) == t.csi_cursor(cursor),
{
    reveal(performed);
}

#[verifier::rlimit(60)]
pub(super) proof fn lemma_controlled(t: TerminalModel, control: ControlCode)
    ensures
        controlled(t, control) == t.control(control),
{
    reveal(performed);
}

#[verifier::rlimit(60)]
pub(super) proof fn lemma_escaped(t: TerminalModel, code: EscCode)
    ensures
        escaped(t, code) == t.esc_dispatch(Esc::Code(code)),
{
    reveal(performed);
}

proof fn lemma_sent_left(t: TerminalModel, n: u32)
    ensures
        sent(t, Cursor::Left(n)) == t.move_cursor(-n, 0),
{
    lemma_sent(t, Cursor::Left(n));
}

proof fn lemma_sent_right(t: TerminalModel, n: u32)
    ensures
        sent(t, Cursor::Right(n)) == t.move_cursor(n as int, 0),
{
    lemma_sent(t, Cursor::Right(n));
}

proof fn lemma_sent_up(t: TerminalModel, n: u32)
    ensures
        sent(t, Cursor::Up(n)) == t.move_cursor(0, -n),
{
    lemma_sent(t, Cursor::Up(n));
}

proof fn lemma_sent_down(t: TerminalModel, n: u32)
    ensures
        sent(t, Cursor::Down(n)) == t.move_cursor(0, n as int),
{
    lemma_sent(t, Cursor::Down(n));
}

proof fn lemma_sent_position(t: TerminalModel, line: u32, col: u32)
    ensures
        sent(t, Cursor::Position { line, col }) == t.cursor_to(col - 1, line - 1),
{
    lemma_sent(t, Cursor::Position { line, col });
}

proof fn lemma_sent_next_lines(t: TerminalModel, n: u32)
    ensures
        sent(t, Cursor::NextLine(n)) == t.new_lines(n as nat),
{
    lemma_sent(t, Cursor::NextLine(n));
}

proof fn lemma_sent_tabs(t: TerminalModel, n: u32)
    ensures
        sent(t, Cursor::ForwardTabulation(n)) == t.horizontal_tabs(n as nat),
{
    lemma_sent(t, Cursor::ForwardTabulation(n));
}

proof fn lemma_sent_save(t: TerminalModel)
    ensures
        sent(t, Cursor::SaveCursor) == t.save_cursor(),
{
    lemma_sent(t, Cursor::SaveCursor);
}

proof fn lemma_sent_restore(t: TerminalModel)
    ensures
        sent(t, Cursor::RestoreCursor) == t.restore_cursor(),
{
    lemma_sent(t, Cursor::RestoreCursor);
}

proof fn lemma_sent_backward(t: TerminalModel, n: u32)
    ensures
        sent(t, Cursor::CharacterPositionBackward(n)) == t.move_cursor(-n, 0),
{
    lemma_sent(t, Cursor::CharacterPositionBackward(n));
}

proof fn lemma_sent_forward(t: TerminalModel, n: u32)
    ensures
        sent(t, Cursor::CharacterPositionForward(n)) == t.move_cursor(n as int, 0),
{
    lemma_sent(t, Cursor::CharacterPositionForward(n));
}

proof fn lemma_sent_line_backward(t: TerminalModel, n: u32)
    ensures
        sent(t, Cursor::LinePositionBackward(n)) == t.move_cursor(0, -n),
{
    lemma_sent(t, Cursor::LinePositionBackward(n));
}

proof fn lemma_sent_line_forward(t: TerminalModel, n: u32)
    ensures
        sent(t, Cursor::LinePositionForward(n)) == t.move_cursor(0, n as int),
{
    lemma_sent(t, Cursor::LinePositionForward(n));
}

proof fn lemma_sent_place(t: TerminalModel, line: u32, col: u32)
    ensures
        sent(t, Cursor::CharacterAndLinePosition { line, col }) == t.cursor_to(col - 1, line - 1),
{
    lemma_sent(t, Cursor::CharacterAndLinePosition { line, col });
}

proof fn lemma_sent_column(t: TerminalModel, col: u32)
    ensures
        sent(t, Cursor::CharacterAbsolute(col)) == t.cursor_to(col - 1, t.cursor_row()),
{
    lemma_sent(t, Cursor::CharacterAbsolute(col));
}

proof fn lemma_sent_column_position(t: TerminalModel, col: u32)
    ensures
        sent(t, Cursor::CharacterPositionAbsolute(col)) == t.cursor_to(col - 1, t.cursor_row()),
{
    lemma_sent(t, Cursor::CharacterPositionAbsolute(col));
}

proof fn lemma_sent_line(t: TerminalModel, line: u32)
    ensures
        sent(t, Cursor::LinePositionAbsolute(line)) == t.cursor_to(t.column(), line - 1),
{
    lemma_sent(t, Cursor::LinePositionAbsolute(line));
}

proof fn lemma_sent_preceding(t: TerminalModel, n: u32)
    ensures
        sent(t, Cursor::PrecedingLine(n)) == t.cursor_to(0, at_least(t.cursor.y - n, 0)),
{
    lemma_sent(t, Cursor::PrecedingLine(n));
}

proof fn lemma_sent_margins(t: TerminalModel, top: u32, bottom: u32)
    ensures
        sent(t, Cursor::SetTopAndBottomMargins { top, bottom }) == t.set_margins(top, bottom),
{
    lemma_sent(t, Cursor::SetTopAndBottomMargins { top, bottom });
}

proof fn lemma_return(t: TerminalModel)
    ensures
        controlled(t, ControlCode::CarriageReturn) == t.cursor_to(0, t.cursor_row()),
        controlled(t, ControlCode::Backspace) == t.move_cursor(-1, 0),
{
    lemma_controlled(t, ControlCode::CarriageReturn);
    lemma_controlled(t, ControlCode::Backspace);
}

proof fn lemma_move_cursor(t: TerminalModel, dx: int, dy: int)
    requires
        t.wf(),
        t.cursor_on_screen(),
    ensures
        moved(
            t,
            t.move_cursor(dx, dy),
            lesser(at_least(t.cursor.x + dx, 0), t.cols() - 1),
            lesser(at_least(t.cursor.y + dy, 0), t.rows() - 1),
        ),
{
    lemma_moved(t, at_least(t.cursor.x + dx, 0), at_least(t.cursor.y + dy, 0));
}

proof fn lemma_escaped_save(t: TerminalModel)
    ensures
        escaped(t, EscCode::DecSaveCursorPosition) == t.save_cursor(),
        escaped(t, EscCode::DecRestoreCursorPosition) == t.restore_cursor(),
{
    lemma_escaped(t, EscCode::DecSaveCursorPosition);
    lemma_escaped(t, EscCode::DecRestoreCursorPosition);
}

proof fn lemma_line_feed(t: TerminalModel)
    ensures
        controlled(t, ControlCode::LineFeed) == t.new_line(true),
{
    lemma_controlled(t, ControlCode::LineFeed);
}

proof fn lemma_tab(t: TerminalModel)
    ensures
        controlled(t, ControlCode::HorizontalTab) == t.horizontal_tab(),
{
    lemma_controlled(t, ControlCode::HorizontalTab);
}

/// A cursor that is sent left, right, up or down goes by as many cells as it was told, and
/// stops at the edge of the screen.
#[verifier::rlimit(60)]
pub proof fn law_relative_moves(t: TerminalModel, n: u32)
    requires
        t.wf(),
        t.cursor_on_screen(),
    ensures
        moved(
            t,
            sent(t, Cursor::Left(n)),
            if t.cursor.x > n {
                t.cursor.x - n
            } else {
                0
            },
            t.cursor.y,
        ),
        moved(
            t,
            sent(t, Cursor::Right(n)),
            if t.cursor.x + n < t.cols() {
                t.cursor.x + n
            } else {
                t.cols() - 1
            },
            t.cursor.y,
        ),
        moved(
            t,
            sent(t, Cursor::Up(n)),
            t.cursor.x,
            if t.cursor.y > n {
                t.cursor.y - n
            } else {
                0
            },
        ),
        moved(
            t,
            sent(t, Cursor::Down(n)),
            t.cursor.x,
            if t.cursor.y + n < t.rows() {
                t.cursor.y + n
            } else {
                t.rows() - 1
            },
        ),
{
    assert(sent(t, Cursor::Left(n)) == t.move_cursor(-n, 0)) by {
        lemma_sent_left(t, n);
    }
    assert(sent(t, Cursor::Right(n)) == t.move_cursor(n as int, 0)) by {
        lemma_sent_right(t, n);
    }
    assert(sent(t, Cursor::Up(n)) == t.move_cursor(0, -n)) by {
        lemma_sent_up(t, n);
    }
    assert(sent(t, Cursor::Down(n)) == t.move_cursor(0, n as int)) by {
        lemma_sent_down(t, n);
    }
    lemma_move_cursor(t, -n, 0);
    lemma_move_cursor(t, n as int, 0);
    lemma_move_cursor(t, 0, -n);
    lemma_move_cursor(t, 0, n as int);
}

/// The sequences that name the direction otherwise do the same.
#[verifier::rlimit(60)]
pub proof fn law_relative_moves_alike(t: TerminalModel, n: u32)
    ensures
        sent(t, Cursor::CharacterPositionBackward(n)) == sent(t, Cursor::Left(n)),
        sent(t, Cursor::CharacterPositionForward(n)) == sent(t, Cursor::Right(n)),
        sent(t, Cursor::LinePositionBackward(n)) == sent(t, Cursor::Up(n)),
        sent(t, Cursor::LinePositionForward(n)) == sent(t, Cursor::Down(n)),
{
    lemma_sent_backward(t, n);
    lemma_sent_forward(t, n);
    lemma_sent_line_backward(t, n);
    lemma_sent_line_forward(t, n);
    lemma_sent_left(t, n);
    lemma_sent_right(t, n);
    lemma_sent_up(t, n);
    lemma_sent_down(t, n);
}

/// A cursor that is sent to a row or a column, counted from one, goes there, or to the last
/// one where the screen does not reach so far.
#[verifier::rlimit(60)]
pub proof fn law_absolute_moves(t: TerminalModel, line: u32, col: u32)
    requires
        t.wf(),
        t.cursor_on_screen(),
        line >= 1,
        col >= 1,
    ensures
        ({
            let x = if col <= t.cols() {
                col - 1
            } else {
                t.cols() - 1
            };
            let y = if line <= t.rows() {
                line - 1
            } else {
                t.rows() - 1
            };
            &&& moved(t, sent(t, Cursor::Position { line, col }), x, y)
            &&& moved(t, sent(t, Cursor::CharacterAndLinePosition { line, col }), x, y)
            &&& moved(t, sent(t, Cursor::CharacterAbsolute(col)), x, t.cursor.y)
            &&& moved(t, sent(t, Cursor::CharacterPositionAbsolute(col)), x, t.cursor.y)
            &&& moved(t, sent(t, Cursor::LinePositionAbsolute(line)), t.cursor.x, y)
        }),
{
    lemma_sent_position(t, line, col);
    lemma_sent_place(t, line, col);
    lemma_sent_column(t, col);
    lemma_sent_column_position(t, col);
    lemma_sent_line(t, line);
    lemma_moved(t, col - 1, line - 1);
    lemma_moved(t, col - 1, t.cursor.y);
    lemma_moved(t, t.cursor.x, line - 1);
    assert(t.cursor_row() == t.cursor.y);
    assert(t.column() == t.cursor.x);
}

/// A carriage return sends the cursor to the first column, a backspace one column to the
/// left, and the sequence for preceding lines to the first column so many rows up.
#[verifier::rlimit(60)]
pub proof fn law_returns(t: TerminalModel, n: u32)
    requires
        t.wf(),
        t.cursor_on_screen(),
    ensures
        moved(t, controlled(t, ControlCode::CarriageReturn), 0, t.cursor.y),
        moved(
            t,
            controlled(t, ControlCode::Backspace),
            if t.cursor.x > 0 {
                t.cursor.x - 1
            } else {
                0
            },
            t.cursor.y,
        ),
        moved(
            t,
            sent(t, Cursor::PrecedingLine(n)),
            0,
            if t.cursor.y > n {
                t.cursor.y - n
            } else {
                0
            },
        ),
{
    lemma_return(t);
    lemma_sent_preceding(t, n);
    lemma_moved(t, 0, t.cursor.y);
    lemma_move_cursor(t, -1, 0);
    lemma_moved(t, 0, at_least(t.cursor.y - n, 0));
    assert(t.cursor_row() == t.cursor.y);
}

/// Whether the rows of the scroll region moved up by one, the last of them is blank, and
/// the other rows are as they were.
pub open spec fn region_moved_up(before: TerminalModel, after: TerminalModel) -> bool {
    forall|x: int, y: int|
        0 <= x < before.cols() && 0 <= y < before.rows() ==> #[trigger] after.cell(x, y) == (if y
            < first_region_row(before) || y >= before.region_end {
            before.cell(x, y)
        } else if y < before.region_end - 1 {
            before.cell(x, y + 1)
        } else {
            CellModel::blank()
        })
}

/// Whether the rows of the scroll region moved down by one, the first of them is blank, and
/// the other rows are as they were.
pub open spec fn region_moved_down(before: TerminalModel, after: TerminalModel) -> bool {
    forall|x: int, y: int|
        0 <= x < before.cols() && 0 <= y < before.rows() ==> #[trigger] after.cell(x, y) == (if y
            < first_region_row(before) || y >= before.region_end {
            before.cell(x, y)
        } else if y > first_region_row(before) {
            before.cell(x, y - 1)
        } else {
            CellModel::blank()
        })
}

proof fn lemma_next_row(t: TerminalModel, x: int)
    requires
        t.wf(),
        t.cursor_on_screen(),
        0 <= x < t.cols(),
    ensures
        ({
            let after = t.next_row(x);
            &&& after.cursor.x == x
            &&& !after.wrap_next
            &&& t.cursor.y == t.region_end - 1 ==> after.cursor.y == t.cursor.y && region_moved_up(
                t,
                after,
            ) && after.selection_range is None
            &&& t.cursor.y != t.region_end - 1 ==> moved(
                t,
                after,
                x,
                if t.cursor.y + 1 < t.rows() {
                    t.cursor.y + 1
                } else {
                    t.cursor.y
                },
            )
        }),
{
    if t.cursor.y == t.region_end - 1 {
        let cleared = t.clear_selection();
        assert(cleared.active().same_size(t.active()));
        assert forall|y: int| 0 <= y < t.rows() implies #[trigger] cleared.active().row(y).cells
            == t.active().row(y).cells by {}
        law_scrolled_up_rows(cleared.active(), t.region_top(), t.region_end, 1);
        let scrolled = t.scroll_up(1);
        let after = t.next_row(x);
        assert forall|y: int| 0 <= y < t.rows() implies #[trigger] after.active().row(y).cells
            == scrolled.active().row(y).cells by {}
    } else {
        lemma_moved(t, x, t.cursor.y + 1);
    }
}

/// A line feed, and what stands for one, sends the cursor to the first column of the next
/// row; an index keeps its column. At the bottom of the scroll region the region moves up
/// instead. Below the region, the last row is as far as the cursor goes.
pub proof fn law_line_feed(t: TerminalModel)
    requires
        t.wf(),
        t.cursor_on_screen(),
    ensures
        ({
            let feed = controlled(t, ControlCode::LineFeed);
            let index = escaped(t, EscCode::Index);
            let y = if t.cursor.y + 1 < t.rows() {
                t.cursor.y + 1
            } else {
                t.cursor.y
            };
            &&& feed.cursor.x == 0
            &&& index.cursor.x == t.cursor.x
            &&& if t.cursor.y == t.region_end - 1 {
                &&& feed.cursor.y == t.cursor.y
                &&& index.cursor.y == t.cursor.y
                &&& region_moved_up(t, feed)
                &&& region_moved_up(t, index)
            } else {
                &&& moved(t, feed, 0, y)
                &&& moved(t, index, t.cursor.x, y)
            }
        }),
{
    lemma_line_feed(t);
    lemma_escaped(t, EscCode::Index);
    lemma_next_row(t, 0);
    lemma_next_row(t, t.cursor.x);
}

/// A vertical tab, a form feed and the sequence for the next line do what a line feed does.
pub proof fn law_line_feeds_alike(t: TerminalModel)
    ensures
        controlled(t, ControlCode::VerticalTab) == controlled(t, ControlCode::LineFeed),
        controlled(t, ControlCode::FormFeed) == controlled(t, ControlCode::LineFeed),
        escaped(t, EscCode::NextLine) == controlled(t, ControlCode::LineFeed),
{
    lemma_line_feed(t);
    lemma_controlled(t, ControlCode::VerticalTab);
    lemma_controlled(t, ControlCode::FormFeed);
    lemma_escaped(t, EscCode::NextLine);
}

/// The sequence for so many next lines does what as many line feeds do.
pub proof fn law_next_lines(t: TerminalModel, n: u32)
    requires
        n < u32::MAX,
    ensures
        sent(t, Cursor::NextLine(0)) == t,
        sent(t, Cursor::NextLine((n + 1) as u32)) == controlled(
            sent(t, Cursor::NextLine(n)),
            ControlCode::LineFeed,
        ),
{
    lemma_sent_next_lines(t, 0);
    lemma_sent_next_lines(t, n);
    lemma_sent_next_lines(t, (n + 1) as u32);
    lemma_line_feed(sent(t, Cursor::NextLine(n)));
}

/// A reverse index sends the cursor one row up in its column. At the top of the scroll
/// region the region moves down instead.
pub proof fn law_reverse_index(t: TerminalModel)
    requires
        t.wf(),
        t.cursor_on_screen(),
        t.cursor.y > 0 || t.region_start == 0,
    ensures
        ({
            let after = escaped(t, EscCode::ReverseIndex);
            if t.cursor.y == t.region_start {
                &&& after.cursor == t.cursor
                &&& region_moved_down(t, after)
                &&& after.selection_range is None
            } else {
                moved(t, after, t.cursor.x, t.cursor.y - 1)
            }
        }),
{
    lemma_escaped(t, EscCode::ReverseIndex);
    if t.cursor.y == t.region_start {
        let cleared = t.clear_selection();
        assert(cleared.active().same_size(t.active()));
        assert forall|y: int| 0 <= y < t.rows() implies #[trigger] cleared.active().row(y).cells
            == t.active().row(y).cells by {}
        law_scrolled_down_rows(cleared.active(), t.region_top(), t.region_end, 1);
        let scrolled = t.scroll_down(1);
        let after = t.c1_reverse_index();
        assert forall|y: int| 0 <= y < t.rows() implies #[trigger] after.active().row(y).cells
            == scrolled.active().row(y).cells by {}
    } else {
        lemma_moved(t, t.cursor.x, t.cursor.y - 1);
    }
}

/// A line feed on the row above the bottom and a reverse index after it leave the cursor in
/// the row where it was.
pub proof fn law_index_and_back(t: TerminalModel)
    requires
        t.wf(),
        escaped(t, EscCode::Index).wf(),
        t.cursor_on_screen(),
        t.region_start <= t.cursor.y < t.region_end - 1,
    ensures
        escaped(escaped(t, EscCode::Index), EscCode::ReverseIndex).cursor == t.cursor,
{
    law_line_feed(t);
    law_reverse_index(escaped(t, EscCode::Index));
}

/// A cursor that is restored is where it was saved, whichever of the sequences is used.
#[verifier::rlimit(60)]
pub proof fn law_saved_cursor(t: TerminalModel, line: u32, col: u32)
    requires
        t.wf(),
        t.cursor_on_screen(),
        line >= 1,
        col >= 1,
    ensures
        sent(t, Cursor::SaveCursor).saved_cursor == t.cursor,
        sent(t, Cursor::SaveCursor).cursor == t.cursor,
        escaped(t, EscCode::DecSaveCursorPosition) == sent(t, Cursor::SaveCursor),
        escaped(t, EscCode::DecRestoreCursorPosition) == sent(t, Cursor::RestoreCursor),
        t.saved_on_screen() ==> moved(
            t,
            sent(t, Cursor::RestoreCursor),
            t.saved_cursor.x,
            t.saved_cursor.y,
        ),
        sent(
            sent(sent(t, Cursor::SaveCursor), Cursor::Position { line, col }),
            Cursor::RestoreCursor,
        ).cursor == t.cursor,
{
    lemma_sent_save(t);
    lemma_sent_restore(t);
    lemma_escaped_save(t);
    let saved = sent(t, Cursor::SaveCursor);
    lemma_sent_position(saved, line, col);
    let away = sent(saved, Cursor::Position { line, col });
    lemma_sent_restore(away);
}

/// Setting the margins makes the rows between them the scroll region, whichever of them is
/// named first; the last row bounds them. The cursor stays.
#[verifier::rlimit(60)]
pub proof fn law_margins(t: TerminalModel, top: u32, bottom: u32)
    requires
        t.wf(),
        top <= bottom,
    ensures
        ({
            let after = sent(t, Cursor::SetTopAndBottomMargins { top, bottom });
            &&& after.region_start == if top <= t.rows() {
                top - 1
            } else {
                t.rows() - 1
            }
            &&& after.region_end == if bottom <= t.rows() {
                bottom as int
            } else {
                t.rows()
            }
            &&& after.cursor == t.cursor
            &&& after.active() == t.active()
            &&& sent(t, Cursor::SetTopAndBottomMargins { top: bottom, bottom: top }) == after
        }),
{
    lemma_sent_margins(t, top, bottom);
    lemma_sent_margins(t, bottom, top);
}

/// A tab sends the cursor to the first tab stop to its right, or to the last column where
/// the screen has none there.
pub proof fn law_tab(t: TerminalModel)
    requires
        t.wf(),
        t.cursor_on_screen(),
    ensures
        ({
            let after = controlled(t, ControlCode::HorizontalTab);
            &&& moved(t, after, after.cursor.x, t.cursor.y)
            &&& t.cursor.x <= after.cursor.x < t.cols()
            &&& t.cursor.x < t.cols() - 1 ==> t.cursor.x < after.cursor.x
            &&& t.tabs.stops[after.cursor.x] || after.cursor.x == t.cols() - 1
            &&& forall|x: int|
                t.cursor.x < x < after.cursor.x ==> !#[trigger] t.tabs.stops[x]
        }),
{
    lemma_tab(t);
    law_next_stop(t.tabs, t.cursor.x);
}

/// The sequence for so many tabs does what as many tabs do.
pub proof fn law_tabs(t: TerminalModel, n: u32)
    requires
        n < u32::MAX,
    ensures
        sent(t, Cursor::ForwardTabulation(0)) == t,
        sent(t, Cursor::ForwardTabulation((n + 1) as u32)) == controlled(
            sent(t, Cursor::ForwardTabulation(n)),
            ControlCode::HorizontalTab,
        ),
{
    lemma_sent_tabs(t, 0);
    lemma_sent_tabs(t, n);
    lemma_sent_tabs(t, (n + 1) as u32);
    lemma_tab(sent(t, Cursor::ForwardTabulation(n)));
}

/// A tab stop is set in the column of the cursor, and the others stay.
pub proof fn law_tab_set(t: TerminalModel)
    requires
        t.wf(),
        t.cursor_on_screen(),
    ensures
        ({
            let after = escaped(t, EscCode::HorizontalTabSet);
            &&& after.tabs.stops.len() == t.tabs.stops.len()
            &&& forall|x: int|
                0 <= x < t.tabs.stops.len() ==> #[trigger] after.tabs.stops[x] == (
                t.tabs.stops[x] || x == t.cursor.x)
            &&& after.cursor == t.cursor
            &&& after.active() == t.active()
        }),
{
    lemma_escaped(t, EscCode::HorizontalTabSet);
}

/// The sequences for what the terminal does not have change nothing.
#[verifier::rlimit(60)]
pub proof fn law_unhandled_cursor(t: TerminalModel, cursor: Cursor)
    requires
        match cursor {
            Cursor::BackwardTabulation(_) => true,
            Cursor::TabulationClear(_) => true,
            Cursor::TabulationControl(_) => true,
            Cursor::LineTabulation(_) => true,
            Cursor::ActivePositionReport { .. } => true,
            Cursor::RequestActivePositionReport => true,
            _ => false,
        },
    ensures
        sent(t, cursor) == t,
{
    lemma_sent(t, cursor);
}

/// Rows and columns are counted from one, so that the one numbered zero is the one before
/// the first: the cursor is then above the screen, or in no column.
#[verifier::rlimit(60)]
pub proof fn law_position_zero(t: TerminalModel, line: u32, col: u32)
    requires
        t.wf(),
        t.cursor_on_screen(),
    ensures
        sent(t, Cursor::Position { line: 0, col }).cursor.y == -1,
        sent(t, Cursor::Position { line, col: 0 }).cursor.x == usize::MAX,
        same_cells(t.active(), sent(t, Cursor::Position { line, col }).active()),
{
    lemma_sent_position(t, 0, col);
    lemma_sent_position(t, line, 0);
    lemma_sent_position(t, line, col);
}

/// A cursor that is above the screen is sent to the first row by what sends it along a row.
#[verifier::rlimit(60)]
pub proof fn law_above_screen(t: TerminalModel, col: u32)
    requires
        t.wf(),
        t.cursor.y < 0,
        0 <= t.cursor.x < t.cols(),
        1 <= col <= t.cols(),
    ensures
        controlled(t, ControlCode::CarriageReturn).cursor == (Place { x: 0, y: 0 }),
        sent(t, Cursor::CharacterAbsolute(col)).cursor == (Place { x: col - 1, y: 0 }),
        controlled(t, ControlCode::HorizontalTab).cursor.y == 0,
        same_cells(t.active(), controlled(t, ControlCode::CarriageReturn).active()),
{
    lemma_return(t);
    lemma_sent_column(t, col);
    lemma_tab(t);
}

} // verus!
