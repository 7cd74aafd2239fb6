//! What holds of the terminal as a whole.
pub mod drawing;
pub mod editing;
pub mod keeping;
pub mod keys;
pub mod modes;
pub mod moving;
pub mod pointing;
pub mod selecting;
pub mod showing;

use super::csi::alt_screen_mode;
use super::keyboard::{char_key_text, KeyError};
use super::model::{Place, TerminalModel};
use super::mouse::word_at;
use crate::attributes::AttrModel;
use crate::cell::{columns, CellModel};
use crate::escape::{
    Action, Cursor, Edit, EraseInDisplay, EraseInLine, Esc, EscCode, Mode, Sgr, CSI,
};
use crate::host::HostModel;
use crate::input::{KeyCode, KeyModifiers, MouseButton, MouseEvent, MouseEventKind};
use crate::line::{cells_text, law_linked_by_idempotent};
use crate::outside::word_bounds;
use crate::screen::{at_most, law_scrolled_up_rows, size_limit, ScreenModel};
use crate::selection::{SelectionCoordinate, SelectionRange};
use crate::tabs::law_next_stop;
use crate::text::decimal;
use vstd::prelude::*;

verus! {

// Dirty lines

/// The rows that are listed as dirty are those that are dirty, each once and from
/// the top down.
pub proof fn law_dirty_rows(t: TerminalModel, n: nat)
    ensures
        forall|k: int|
            0 <= k < t.dirty_rows(n).len() ==> 0 <= #[trigger] t.dirty_rows(n)[k] < n
                && t.viewport_line(t.dirty_rows(n)[k]).dirty,
        forall|j: int, k: int|
            0 <= j < k < t.dirty_rows(n).len() ==> #[trigger] t.dirty_rows(n)[j]
                < #[trigger] t.dirty_rows(n)[k],
        forall|i: int|
            0 <= i < n && (#[trigger] t.viewport_line(i)).dirty ==> t.dirty_rows(n).contains(i),
    decreases n,
{
    if n > 0 {
        let above = t.dirty_rows((n - 1) as nat);
        law_dirty_rows(t, (n - 1) as nat);
        let rows = t.dirty_rows(n);
        assert forall|i: int|
            0 <= i < n && (#[trigger] t.viewport_line(i)).dirty implies rows.contains(i) by {
            if i < n - 1 {
                let k = choose|k: int| 0 <= k < above.len() && above[k] == i;
                assert(rows[k] == i);
            } else {
                assert(rows.last() == i);
            }
        }
    }
}

/// There is a dirty line if and only if one is listed.
pub proof fn law_dirty_lines_listed(t: TerminalModel)
    requires
        t.wf(),
    ensures
        t.has_dirty_lines() <==> t.dirty_rows(t.rows() as nat).len() > 0,
{
    let rows = t.dirty_rows(t.rows() as nat);
    law_dirty_rows(t, t.rows() as nat);
    if rows.len() > 0 {
        assert(t.viewport_line(rows[0]).dirty);
    }
    if t.has_dirty_lines() {
        let i = choose|i: int| 0 <= i < t.rows() && (#[trigger] t.viewport_line(i)).dirty;
        assert(rows.contains(i));
    }
}

/// When all lines are cleaned no line is dirty, and what they show is the same.
pub proof fn law_clean_lines(t: TerminalModel)
    requires
        t.wf(),
    ensures
        !t.with_active(t.active().all_clean()).has_dirty_lines(),
        forall|i: int|
            0 <= i < t.rows() ==> #[trigger] t.with_active(
                t.active().all_clean(),
            ).viewport_line(i).cells == t.viewport_line(i).cells,
{
}

/// When all lines are made dirty every row is dirty, and what they show is the same.
pub proof fn law_dirty_lines(t: TerminalModel)
    requires
        t.wf(),
    ensures
        forall|i: int|
            0 <= i < t.rows() ==> {
                let line = #[trigger] t.with_active(t.active().all_dirty()).viewport_line(i);
                line.dirty && line.cells == t.viewport_line(i).cells
            },
{
}

// Selection

/// When the selection is cleared there is no selected text, no column of any row is
/// selected, and the lines that were selected are dirty.
pub proof fn law_clear_selection(t: TerminalModel)
    requires
        t.wf(),
    ensures
        t.clear_selection().selection_text() == Seq::<char>::empty(),
        forall|start: int, end: int, row: int|
            !(#[trigger] t.clear_selection().selects(start, end, row)),
        t.selection_range matches Some(sel) ==> forall|row: int|
            sel.first_row() <= row <= sel.last_row() && -t.active().top() <= row ==> (
            #[trigger] t.clear_selection().active().row(row)).dirty,
{
}

/// What is written over the selection is not selected any more, and the text that is
/// on the screen stays.
pub proof fn law_deselect(t: TerminalModel, start: int, end: int, row: int)
    ensures
        !t.deselect_cols(start, end, row).selects(start, end, row),
        t.deselect_cols(start, end, row).active() == t.active(),
        !t.selects(start, end, row) ==> t.deselect_cols(start, end, row) == t,
{
}

// Viewport

/// The viewport goes to the position that is asked for, where there are lines to
/// show, and stops at either end of them elsewhere.
pub proof fn law_viewport_clamped(t: TerminalModel, position: int)
    requires
        t.wf(),
    ensures
        0 <= t.set_scroll_viewport(position).viewport <= t.active().top(),
        0 <= position <= t.active().top() ==> t.set_scroll_viewport(position).viewport == position,
        position < 0 ==> t.set_scroll_viewport(position).viewport == 0,
        position > t.active().top() ==> t.set_scroll_viewport(position).viewport
            == t.active().top(),
{
}

/// The viewport can go anywhere without a change of any text.
proof fn lemma_viewport_keeps_text(t: TerminalModel, position: int)
    ensures
        t.set_scroll_viewport(position).active().same_size(t.active()),
        forall|i: int|
            0 <= i < t.active().lines.len() ==> cells_text(
                (#[trigger] t.set_scroll_viewport(position).active().lines[i]).cells,
            ) == cells_text(t.active().lines[i].cells),
{
    let shown = t.clear_selection().show_viewport(t.viewport_near(position));
    let place = shown.active().phys_or_first(shown.mouse_position.y - shown.viewport);
    if 0 <= place < shown.active().lines.len() {
        law_linked_by_idempotent(shown.active().lines[place], shown.hyperlink_rules);
    }
    let after = t.set_scroll_viewport(position);
    assert forall|i: int| 0 <= i < t.active().lines.len() implies cells_text(
        (#[trigger] after.active().lines[i]).cells,
    ) == cells_text(t.active().lines[i].cells) by {
        assert(shown.active().lines[i].cells == t.active().lines[i].cells);
    }
}

/// The lines that come into view are dirty, and their text is what it was.
pub proof fn law_viewport_dirty(t: TerminalModel, position: int)
    requires
        t.wf(),
    ensures
        forall|i: int|
            0 <= i < t.rows() ==> (#[trigger] t.set_scroll_viewport(position).viewport_line(
                i,
            )).dirty,
        t.set_scroll_viewport(position).active().same_size(t.active()),
        forall|i: int|
            0 <= i < t.active().lines.len() ==> cells_text(
                (#[trigger] t.set_scroll_viewport(position).active().lines[i]).cells,
            ) == cells_text(t.active().lines[i].cells),
{
    lemma_viewport_keeps_text(t, position);
    let shown = t.clear_selection().show_viewport(t.viewport_near(position));
    let after = t.set_scroll_viewport(position);
    assert forall|i: int| 0 <= i < t.rows() implies (#[trigger] after.viewport_line(i)).dirty by {
        assert(shown.active().lines[shown.viewport_top() + i].dirty);
    }
}

/// Scrolling back and forth by the same distance shows the same lines, where there
/// are lines for all of it.
pub proof fn law_viewport_round_trip(t: TerminalModel, delta: int)
    requires
        t.wf(),
        0 <= t.viewport - delta <= t.active().top(),
    ensures
        t.scroll_viewport(delta).scroll_viewport(-delta).viewport == t.viewport,
{
    law_viewport_dirty(t, t.viewport - delta);
}

/// Where the viewport is makes no difference to where output goes.
pub proof fn law_viewport_is_for_display(t: TerminalModel, position: int)
    ensures
        ({
            let after = t.set_scroll_viewport(position);
            &&& after.cursor == t.cursor
            &&& after.saved_cursor == t.saved_cursor
            &&& after.wrap_next == t.wrap_next
            &&& after.region_start == t.region_start
            &&& after.region_end == t.region_end
            &&& after.pen == t.pen
            &&& after.tabs == t.tabs
        }),
{
}

// Cursor

/// A restored cursor is where it was when it was saved, wherever it went meanwhile.
pub proof fn law_save_restore(t: TerminalModel, x: int, y: int)
    requires
        t.wf_core(),
        t.cursor_on_screen(),
    ensures
        t.save_cursor().cursor_to(x, y).restore_cursor().cursor == t.cursor,
{
}

/// A program that sets the cursor to the row and column that it was told finds it
/// where it was.
pub proof fn law_position_report(t: TerminalModel, line: u32, col: u32)
    requires
        t.cursor_on_screen(),
        line == t.cursor.y + 1,
        col == t.cursor.x + 1,
    ensures
        t.csi_cursor(Cursor::Position { line, col }).cursor == t.cursor,
{
}

/// A cursor that was set to a row and column of the screen is reported to be there.
#[verifier::rlimit(40)]
pub proof fn law_position_reported(t: TerminalModel, line: u32, col: u32)
    requires
        1 <= line <= t.rows(),
        1 <= col <= t.cols(),
    ensures
        ({
            let after = t.csi_cursor(Cursor::Position { line, col });
            let request = Cursor::RequestActivePositionReport;
            &&& after.csi_cursor_action(request) == HostModel::Report(
                seq!['\x1b', '['] + decimal(line as nat) + seq![';'] + decimal(col as nat)
                    + seq!['R'],
            )
            &&& after.csi_cursor(request) == after
        }),
{
    let after = t.csi_cursor(Cursor::Position { line, col });
    assert(after.cursor.y + 1 == line);
    assert(after.cursor.x + 1 == col);
}

/// A cursor that is sent past an edge of the screen stops at it.
pub proof fn law_cursor_clamped(t: TerminalModel, x: int, y: int)
    requires
        t.wf_core(),
        x >= 0,
        y >= 0,
    ensures
        t.cursor_to(x, y).cursor_on_screen(),
        x < t.cols() ==> t.cursor_to(x, y).cursor.x == x,
        y < t.rows() ==> t.cursor_to(x, y).cursor.y == y,
        x >= t.cols() ==> t.cursor_to(x, y).cursor.x == t.cols() - 1,
        y >= t.rows() ==> t.cursor_to(x, y).cursor.y == t.rows() - 1,
{
}

/// A tab moves the cursor to the right, to a tab stop or to the right margin; it
/// does not cause text to wrap.
pub proof fn law_horizontal_tab(t: TerminalModel)
    requires
        t.wf(),
        t.cursor_on_screen(),
    ensures
        t.horizontal_tab().cursor.y == t.cursor.y,
        t.horizontal_tab().cursor.x > t.cursor.x || t.cursor.x == t.cols() - 1,
        t.tabs.stops[t.horizontal_tab().cursor.x] || t.horizontal_tab().cursor.x == t.cols() - 1,
        !t.horizontal_tab().wrap_next,
{
    law_next_stop(t.tabs, t.cursor.x);
}

// The alternate screen

/// The action that enters or leaves the alternate screen.
pub open spec fn alt_screen_action(enter: bool) -> Action {
    Action::CSI(CSI::Mode(alt_screen_mode(enter)))
}

/// The alternate screen is shown, with its cursor at the top left; the primary screen
/// is as it was, and where its cursor was is saved.
pub open spec fn entered_alt_screen(before: TerminalModel, after: TerminalModel) -> bool {
    &&& after.alt_screen_is_active
    &&& after.cursor == (Place { x: 0, y: 0 })
    &&& after.screen == before.screen
    &&& after.saved_cursor == before.cursor
}

/// The primary screen is shown, with the text it had and its cursor where it was saved.
pub open spec fn left_alt_screen(before: TerminalModel, after: TerminalModel) -> bool {
    &&& !after.alt_screen_is_active
    &&& after.cursor == before.saved_cursor
    &&& !after.wrap_next
    &&& after.viewport == 0
    &&& same_text(after.screen, before.screen)
}

/// Whether an action leaves the alternate screen.
pub open spec fn leaves_alt_screen(action: Action) -> bool {
    action == alt_screen_action(false)
}

/// Whether an action saves the cursor.
pub open spec fn saves_cursor(action: Action) -> bool {
    ||| action == Action::CSI(CSI::Cursor(Cursor::SaveCursor))
    ||| action == Action::Esc(Esc::Code(EscCode::DecSaveCursorPosition))
}

/// The primary screen is as it was, and is still not shown.
pub open spec fn primary_kept(before: TerminalModel, after: TerminalModel) -> bool {
    after.screen == before.screen && after.alt_screen_is_active
}

/// As `primary_kept`, and the cursor that was saved is still saved.
pub open spec fn saved_kept(before: TerminalModel, after: TerminalModel) -> bool {
    primary_kept(before, after) && after.saved_cursor == before.saved_cursor
}

proof fn lemma_next_row_keeps_primary(t: TerminalModel, x: int)
    requires
        t.alt_screen_is_active,
    ensures
        saved_kept(t, t.next_row(x)),
{
}

proof fn lemma_new_lines_keep_primary(t: TerminalModel, n: nat)
    requires
        t.alt_screen_is_active,
    ensures
        saved_kept(t, t.new_lines(n)),
    decreases n,
{
    if n > 0 {
        lemma_new_lines_keep_primary(t, (n - 1) as nat);
        lemma_next_row_keeps_primary(t.new_lines((n - 1) as nat), 0);
    }
}

proof fn lemma_tabs_keep_primary(t: TerminalModel, n: nat)
    requires
        t.alt_screen_is_active,
    ensures
        saved_kept(t, t.horizontal_tabs(n)),
    decreases n,
{
    if n > 0 {
        lemma_tabs_keep_primary(t, (n - 1) as nat);
    }
}

proof fn lemma_print_keeps_primary(t: TerminalModel, c: char, width: int)
    requires
        t.alt_screen_is_active,
    ensures
        saved_kept(t, t.print_wide(c, width)),
{
    lemma_next_row_keeps_primary(t, 0);
    lemma_print_here_keeps_primary(t, c, width);
    lemma_print_here_keeps_primary(t.new_line(true), c, width);
}

proof fn lemma_print_here_keeps_primary(t: TerminalModel, c: char, width: int)
    requires
        t.alt_screen_is_active,
    ensures
        saved_kept(t, t.print_here(c, width)),
{
    let drawn = t.draw(c, width);
    assert(saved_kept(t, drawn));
    let left = drawn.deselect_cols(t.cursor.x, t.cursor.x + width, t.cursor.y);
    assert(saved_kept(t, left));
}

proof fn lemma_cursor_to_keeps_primary(t: TerminalModel, x: int, y: int)
    requires
        t.alt_screen_is_active,
    ensures
        saved_kept(t, t.cursor_to(x, y)),
{
}

proof fn lemma_cursor_keeps_primary(t: TerminalModel, cursor: Cursor)
    requires
        t.alt_screen_is_active,
    ensures
        primary_kept(t, t.csi_cursor(cursor)),
        cursor != Cursor::SaveCursor ==> saved_kept(t, t.csi_cursor(cursor)),
{
    match cursor {
        Cursor::NextLine(n) => {
            lemma_new_lines_keep_primary(t, n as nat);
        },
        Cursor::ForwardTabulation(n) => {
            lemma_tabs_keep_primary(t, n as nat);
        },
        Cursor::Position { line, col } => {
            lemma_cursor_to_keeps_primary(t, col - 1, line - 1);
        },
        Cursor::CharacterAndLinePosition { line, col } => {
            lemma_cursor_to_keeps_primary(t, col - 1, line - 1);
        },
        _ => {},
    }
}

proof fn lemma_edit_keeps_primary(t: TerminalModel, edit: Edit)
    requires
        t.alt_screen_is_active,
    ensures
        saved_kept(t, t.csi_edit(edit)),
{
}

proof fn lemma_mode_keeps_primary(t: TerminalModel, mode: Mode)
    requires
        t.alt_screen_is_active,
        !leaves_alt_screen(Action::CSI(CSI::Mode(mode))),
    ensures
        saved_kept(t, t.csi_mode(mode)),
{
}

proof fn lemma_esc_keeps_primary(t: TerminalModel, esc: Esc)
    requires
        t.alt_screen_is_active,
    ensures
        primary_kept(t, t.esc_dispatch(esc)),
        esc != Esc::Code(EscCode::DecSaveCursorPosition) ==> saved_kept(t, t.esc_dispatch(esc)),
{
    lemma_next_row_keeps_primary(t, 0);
    lemma_next_row_keeps_primary(t, t.cursor.x);
}

/// While the alternate screen is shown, nothing that a program does changes the
/// primary screen and its scrollback, until it leaves the alternate screen; and the
/// cursor that was saved stays until it saves another.
#[verifier::rlimit(80)]
pub proof fn law_alt_screen_keeps_primary(t: TerminalModel, action: Action)
    requires
        t.alt_screen_is_active,
        !leaves_alt_screen(action),
    ensures
        primary_kept(t, t.perform(action)),
        !saves_cursor(action) ==> saved_kept(t, t.perform(action)),
{
    match action {
        Action::Print(c) => {
            lemma_print_keeps_primary(t, c, columns(c) as int);
        },
        Action::Control(_) => {
            lemma_next_row_keeps_primary(t, 0);
        },
        Action::Esc(esc) => {
            lemma_esc_keeps_primary(t, esc);
        },
        Action::CSI(CSI::Cursor(cursor)) => {
            lemma_cursor_keeps_primary(t, cursor);
        },
        Action::CSI(CSI::Edit(edit)) => {
            lemma_edit_keeps_primary(t, edit);
        },
        Action::CSI(CSI::Mode(mode)) => {
            lemma_mode_keeps_primary(t, mode);
        },
        _ => {},
    }
}

/// The alternate screen is empty when it is entered, and the cursor is at its top
/// left; the primary screen is as it was.
pub proof fn law_enter_alt_screen(t: TerminalModel)
    requires
        t.wf(),
        !t.alt_screen_is_active,
    ensures
        entered_alt_screen(t, t.enter_alt_screen()),
        forall|x: int, y: int|
            0 <= y < t.rows() && 0 <= x < t.cols() ==> (#[trigger] t.enter_alt_screen().cell(
                x,
                y,
            )).text == ' ',
{
    let saved = t.save_cursor().show_screen(true).cursor_to(0, 0);
    let erased = saved.erase_in_display(EraseInDisplay::EraseDisplay);
    let after = t.enter_alt_screen();
    assert forall|x: int, y: int| 0 <= y < t.rows() && 0 <= x < t.cols() implies (
    #[trigger] after.cell(x, y)).text == ' ' by {
        assert(erased.cell(x, y).text == ' ');
    }
}

/// Leaving the alternate screen shows the primary screen with the text it had, and
/// the cursor where it was saved.
pub proof fn law_leave_alt_screen(t: TerminalModel)
    requires
        t.screen.wf(),
        t.alt_screen_is_active,
        t.saved_on_screen(),
    ensures
        left_alt_screen(t, t.leave_alt_screen()),
{
    let shown = t.show_screen(false);
    let restored = shown.restore_cursor();
    lemma_viewport_keeps_text(restored, 0);
    let after = t.leave_alt_screen();
    assert forall|i: int| 0 <= i < t.screen.lines.len() implies cells_text(
        (#[trigger] after.active().lines[i]).cells,
    ) == cells_text(t.screen.lines[i].cells) by {
        assert(restored.active().lines[i].cells == t.screen.lines[i].cells);
    }
}

/// The terminal after an action.
#[verifier::opaque]
pub open spec fn performed(t: TerminalModel, action: Action) -> TerminalModel {
    t.perform(action)
}

/// The terminal after some actions, one after the other.
pub open spec fn performed_all(t: TerminalModel, actions: Seq<Action>) -> TerminalModel
    decreases actions.len(),
{
    if actions.len() == 0 {
        t
    } else {
        performed(performed_all(t, actions.drop_last()), actions.last())
    }
}

/// Whether an action neither leaves the alternate screen nor saves the cursor.
pub open spec fn stays_on_alt_screen(action: Action) -> bool {
    !leaves_alt_screen(action) && !saves_cursor(action)
}

proof fn lemma_action_keeps_primary(t: TerminalModel, action: Action)
    requires
        t.alt_screen_is_active,
        stays_on_alt_screen(action),
    ensures
        saved_kept(t, performed(t, action)),
{
    reveal(performed);
    law_alt_screen_keeps_primary(t, action);
}

proof fn lemma_actions_keep_primary(t: TerminalModel, actions: Seq<Action>)
    requires
        t.alt_screen_is_active,
        forall|i: int| 0 <= i < actions.len() ==> stays_on_alt_screen(#[trigger] actions[i]),
    ensures
        saved_kept(t, performed_all(t, actions)),
    decreases actions.len(),
{
    if actions.len() > 0 {
        lemma_actions_keep_primary(t, actions.drop_last());
        lemma_action_keeps_primary(performed_all(t, actions.drop_last()), actions.last());
    }
}

#[verifier::rlimit(80)]
proof fn lemma_entered(t: TerminalModel)
    requires
        t.wf(),
        !t.alt_screen_is_active,
    ensures
        entered_alt_screen(t, performed(t, alt_screen_action(true))),
{
    reveal(performed);
    law_enter_alt_screen(t);
}

#[verifier::rlimit(80)]
proof fn lemma_left(t: TerminalModel)
    requires
        t.screen.wf(),
        t.alt_screen_is_active,
        t.saved_on_screen(),
    ensures
        left_alt_screen(t, performed(t, alt_screen_action(false))),
{
    reveal(performed);
    law_leave_alt_screen(t);
}

/// A program that enters the alternate screen, does anything there but save the cursor,
/// and leaves it, finds the cursor where it was and the primary screen and its
/// scrollback with the text they had.
pub proof fn law_alt_screen_round_trip(t: TerminalModel, actions: Seq<Action>)
    requires
        t.wf(),
        t.cursor_on_screen(),
        !t.alt_screen_is_active,
        forall|i: int| 0 <= i < actions.len() ==> stays_on_alt_screen(#[trigger] actions[i]),
    ensures
        ({
            let after = performed(
                performed_all(performed(t, alt_screen_action(true)), actions),
                alt_screen_action(false),
            );
            &&& !after.alt_screen_is_active
            &&& after.cursor == t.cursor
            &&& !after.wrap_next
            &&& after.viewport == 0
            &&& same_text(after.active(), t.active())
        }),
{
    let entered = performed(t, alt_screen_action(true));
    lemma_entered(t);
    lemma_actions_keep_primary(entered, actions);
    lemma_left(performed_all(entered, actions));
}

/// To enter the alternate screen where it is shown, or to leave it where it is not,
/// changes nothing.
#[verifier::rlimit(80)]
pub proof fn law_alt_screen_again(t: TerminalModel)
    ensures
        t.perform(alt_screen_action(t.alt_screen_is_active)) == t,
        t.perform_action(alt_screen_action(t.alt_screen_is_active)) == HostModel::Nothing,
{
}

/// The alternate screen has no scrollback.
pub proof fn law_alt_screen_has_no_scrollback(t: TerminalModel)
    requires
        t.wf(),
    ensures
        t.alt_screen.lines.len() == t.rows(),
{
}

// Printing

/// A character that is printed shows in the cell where the cursor is, with the
/// attributes of the pen; the rest of its columns show nothing; no other cell of the
/// screen changes. The cursor moves past it, or waits at the right margin to wrap.
pub proof fn law_print(t: TerminalModel, c: char, width: int)
    requires
        t.wf(),
        t.cursor_on_screen(),
        !t.wrap_next,
        1 <= width,
    ensures
        ({
            let after = t.print_wide(c, width);
            &&& after.cell(t.cursor.x, t.cursor.y) == CellModel::with(c, t.pen)
            &&& forall|x: int|
                t.cursor.x < x < t.cursor.x + width ==> #[trigger] after.cell(x, t.cursor.y)
                    == CellModel::with('\0', t.pen)
            &&& forall|x: int, y: int|
                0 <= x && 0 <= y < t.rows() && (y != t.cursor.y || x < t.cursor.x || x
                    >= t.cursor.x + width) ==> #[trigger] after.cell(x, y) == t.cell(x, y)
            &&& after.cursor.y == t.cursor.y
            &&& if t.cursor.x + width < t.cols() {
                after.cursor.x == t.cursor.x + width && !after.wrap_next
            } else {
                after.cursor.x == t.cursor.x && after.wrap_next
            }
        }),
{
    let drawn = t.draw(c, width);
    let after = t.print_wide(c, width);
    assert(after.active() == drawn.active());
}

/// A character that is printed past the right margin goes to the first column of the
/// next row.
pub proof fn law_print_wraps(t: TerminalModel, c: char, width: int)
    requires
        t.wf(),
        t.wrap_next,
    ensures
        t.print_wide(c, width) == t.new_line(true).print_wide(c, width),
        t.new_line(true).cursor.x == 0,
        !t.new_line(true).wrap_next,
{
}

/// A new line at the bottom of the scroll region scrolls the region up by one row, and
/// the cursor stays in its row; elsewhere the cursor goes one row down and the screen
/// stays, but below the last row there is none.
pub proof fn law_new_line(t: TerminalModel)
    requires
        t.wf(),
        t.cursor_on_screen(),
    ensures
        t.new_line(true).cursor.x == 0,
        t.cursor.y == t.region_end - 1 ==> {
            &&& t.new_line(true).cursor.y == t.cursor.y
            &&& forall|x: int, y: int|
                0 <= x < t.cols() && t.region_top() <= y < t.region_end - 1
                    ==> #[trigger] t.new_line(true).cell(x, y) == t.cell(x, y + 1)
            &&& forall|x: int|
                0 <= x < t.cols() ==> #[trigger] t.new_line(true).cell(x, t.region_end - 1)
                    == CellModel::blank()
            &&& forall|x: int, y: int|
                0 <= x < t.cols() && 0 <= y < t.rows() && (y < t.region_top() || y
                    >= t.region_end) ==> #[trigger] t.new_line(true).cell(x, y) == t.cell(x, y)
        },
        t.cursor.y != t.region_end - 1 ==> {
            &&& t.new_line(true).cursor.y == at_most(t.cursor.y + 1, t.rows() - 1)
            &&& forall|x: int, y: int|
                0 <= x < t.cols() && 0 <= y < t.rows() ==> #[trigger] t.new_line(true).cell(x, y)
                    == t.cell(x, y)
        },
{
    let cleared = t.clear_selection();
    assert(cleared.active().same_size(t.active()));
    assert forall|y: int| 0 <= y < t.rows() implies #[trigger] cleared.active().row(y).cells
        == t.active().row(y).cells by {}
    if t.cursor.y == t.region_end - 1 {
        law_scrolled_up_rows(cleared.active(), t.region_top(), t.region_end, 1);
        let scrolled = t.scroll_up(1);
        let after = t.new_line(true);
        assert forall|y: int| 0 <= y < t.rows() implies #[trigger] after.active().row(y).cells
            == scrolled.active().row(y).cells by {}
    }
}

// Erasing

/// Erasing the display leaves a space with the rendition of the pen in every erased
/// row, and the other rows and the cursor as they were.
pub proof fn law_erase_in_display(t: TerminalModel, erase: EraseInDisplay)
    requires
        t.wf(),
    ensures
        forall|x: int, y: int|
            0 <= x < t.cols() && 0 <= y < t.rows() ==> #[trigger] t.erase_in_display(erase).cell(
                x,
                y,
            ) == if t.erased_rows(erase).0 <= y < t.erased_rows(erase).1 {
                CellModel::space(t.pen.sgr_only())
            } else {
                t.cell(x, y)
            },
        t.erase_in_display(erase).cursor == t.cursor,
        t.erase_in_display(erase).erase_in_display(erase).active().lines
            == t.erase_in_display(erase).active().lines,
{
    let once = t.erase_in_display(erase);
    let twice = once.erase_in_display(erase);
    assert(twice.active().lines =~= once.active().lines) by {
        assert forall|i: int| 0 <= i < once.active().lines.len() implies twice.active().lines[i]
            == once.active().lines[i] by {
            assert(twice.active().lines[i].cells =~= once.active().lines[i].cells);
        }
    }
}

/// Erasing in a line leaves a space with the rendition of the pen in every erased
/// column of the row where the cursor is, and every other cell and the cursor as
/// they were.
pub proof fn law_erase_in_line(t: TerminalModel, erase: EraseInLine)
    requires
        t.wf(),
        t.cursor_on_screen(),
    ensures
        forall|x: int, y: int|
            0 <= x < t.cols() && 0 <= y < t.rows() ==> #[trigger] t.erase_in_line(erase).cell(x, y)
                == if y == t.cursor.y && (match erase {
                EraseInLine::EraseToEndOfLine => x >= t.cursor.x,
                EraseInLine::EraseToStartOfLine => x < t.cursor.x,
                EraseInLine::EraseLine => true,
            }) {
                CellModel::space(t.pen.sgr_only())
            } else {
                t.cell(x, y)
            },
        t.erase_in_line(erase).cursor == t.cursor,
{
}

// Attributes

/// A reset of the rendition keeps the link that is being drawn, and a change of the
/// rendition changes nothing that is on the screen.
pub proof fn law_sgr(t: TerminalModel, sgr: Sgr)
    ensures
        t.csi_sgr(Sgr::Reset).pen == (AttrModel { link: t.pen.link, ..AttrModel::plain() }),
        t.csi_sgr(sgr).pen.link == t.pen.link,
        t.csi_sgr(sgr).active() == t.active(),
        t.csi_sgr(sgr).cursor == t.cursor,
        t.csi_sgr(sgr).csi_sgr(sgr) == t.csi_sgr(sgr),
{
}

// Input

/// When text was sent to the program in the terminal its output is in view.
pub proof fn law_input_shows_output(t: TerminalModel, text: Seq<char>)
    requires
        t.wf(),
        text.len() > 0,
    ensures
        t.input_sent(text).viewport == 0,
        t.input_sent(Seq::empty()) == t,
{
}

/// Shift makes no difference to the control character that a letter key sends: the
/// upper case letter that it comes with is counted from another place.
pub proof fn law_control_keys(c: char, upper: char, mods: KeyModifiers, shifted: KeyModifiers)
    requires
        'a' <= c <= 'z',
        upper as int == c as int - 0x20,
        mods.ctrl,
        !mods.shift,
        shifted == (KeyModifiers { shift: true, ..mods }),
    ensures
        char_key_text(c, mods) == char_key_text(upper, shifted),
        char_key_text(c, mods).len() == 1,
{
}

/// A modifier key on its own sends nothing.
pub proof fn law_modifier_keys(t: TerminalModel, key: KeyCode, mods: KeyModifiers)
    requires
        key == KeyCode::Control || key == KeyCode::Alt || key == KeyCode::Meta || key
            == KeyCode::Super || key == KeyCode::Hyper || key == KeyCode::Shift,
    ensures
        t.key_down(key, mods).0 == t,
        t.key_down(key, mods).1 == Ok::<_, KeyError>(HostModel::Input(Seq::empty())),
{
}

proof fn lemma_press_keeps_mouse(t: TerminalModel, x: usize, y: i64)
    ensures
        t.press_left(x, y).0.mouse_position == t.mouse_position,
{
    let m = t.grab();
    assert(m.mouse_position == t.mouse_position);
    let row = t.shown_row(y as int);
    assert(m.select_word(x, row, word_bounds(m.row_text(row as int))).0.mouse_position
        == m.mouse_position);
    assert(m.select_line(x, row).0.mouse_position == m.mouse_position);
}

proof fn lemma_selecting_keeps_mouse(t: TerminalModel, event: MouseEvent)
    ensures
        t.selecting_event(event) matches Some(after) ==> after.0.mouse_position
            == t.mouse_position,
{
    lemma_press_keeps_mouse(t, event.x, event.y);
}

proof fn lemma_reported_keeps_mouse(t: TerminalModel, event: MouseEvent)
    ensures
        t.reported_event(event).0.mouse_position == t.mouse_position,
{
}

/// The mouse beyond the right or the bottom of the screen is over its last column or
/// row.
pub proof fn law_mouse_clamped(t: TerminalModel, event: MouseEvent, now: u64)
    requires
        t.wf(),
    ensures
        t.mouse_event(event, now) == t.mouse_event(t.clamp_event(event), now),
        t.clamp_event(event).x == at_most(event.x as int, t.cols() - 1),
        t.clamp_event(event).y == at_most(event.y as int, t.rows() - 1),
        t.mouse_event(event, now).0.mouse_position == (Place {
            x: t.clamp_event(event).x as int,
            y: t.clamp_event(event).y as int,
        }),
{
    let e = t.clamp_event(event);
    let m = t.track_mouse(e, now);
    lemma_selecting_keeps_mouse(m, e);
    lemma_reported_keeps_mouse(m, e);
}

/// Whether two screens have lines with the same text.
pub open spec fn same_text(a: ScreenModel, b: ScreenModel) -> bool {
    &&& a.same_size(b)
    &&& forall|i: int|
        0 <= i < a.lines.len() ==> cells_text((#[trigger] a.lines[i]).cells) == cells_text(
            b.lines[i].cells,
        )
}

/// Whether the screen of a terminal has the same text, and its cursor is in the same
/// place.
pub open spec fn output_kept(before: TerminalModel, after: TerminalModel) -> bool {
    same_text(after.active(), before.active()) && after.cursor == before.cursor
}

proof fn lemma_highlight_keeps_text(t: TerminalModel)
    ensures
        output_kept(t, t.recompute_highlight()),
{
    let place = t.active().phys_or_first(t.mouse_position.y - t.viewport);
    let found = t.active().links_found(place, t.hyperlink_rules);
    if 0 <= place < t.active().lines.len() {
        law_linked_by_idempotent(t.active().lines[place], t.hyperlink_rules);
    }
    assert(same_text(found, t.active()));
}

proof fn lemma_track_mouse_keeps_text(t: TerminalModel, event: MouseEvent, now: u64)
    ensures
        output_kept(t, t.track_mouse(event, now)),
{
    let to = Place { x: event.x as int, y: event.y as int };
    lemma_highlight_keeps_text(TerminalModel { mouse_position: to, ..t });
}

proof fn lemma_dirty_selection_keeps_text(t: TerminalModel)
    ensures
        output_kept(t, t.dirty_selection()),
{
}

proof fn lemma_select_keeps_text(
    t: TerminalModel,
    from: SelectionCoordinate,
    range: SelectionRange,
)
    ensures
        output_kept(t, t.select(from, range)),
{
    lemma_dirty_selection_keeps_text(
        TerminalModel { selection_start: Some(from), selection_range: Some(range), ..t },
    );
}

proof fn lemma_select_word_keeps_text(
    t: TerminalModel,
    x: usize,
    row: i64,
    segments: Seq<(usize, usize)>,
)
    ensures
        output_kept(t, t.select_word(x, row, segments).0),
{
    if let Some(word) = word_at(segments, x as int) {
        let from = SelectionCoordinate { x: word.0, y: row };
        let to = SelectionCoordinate { x: (word.0 + word.1 - 1) as usize, y: row };
        lemma_select_keeps_text(t, from, SelectionRange { start: from, end: to });
    }
}

proof fn lemma_select_line_keeps_text(t: TerminalModel, x: usize, row: i64)
    ensures
        output_kept(t, t.select_line(x, row).0),
{
    lemma_select_keeps_text(
        t,
        SelectionCoordinate { x, y: row },
        SelectionRange {
            start: SelectionCoordinate { x: 0, y: row },
            end: SelectionCoordinate { x: usize::MAX, y: row },
        },
    );
}

#[verifier::rlimit(30)]
proof fn lemma_press_keeps_text(t: TerminalModel, x: usize, y: i64)
    ensures
        output_kept(t, t.press_left(x, y).0),
{
    let m = t.grab();
    let row = t.shown_row(y as int);
    lemma_dirty_selection_keeps_text(
        TerminalModel { current_mouse_button: MouseButton::Left, ..t },
    );
    assert(output_kept(t, m));
    lemma_select_word_keeps_text(m, x, row, word_bounds(m.row_text(row as int)));
    lemma_select_line_keeps_text(m, x, row);
}

proof fn lemma_drag_keeps_text(t: TerminalModel, to: SelectionCoordinate)
    ensures
        output_kept(t, t.drag(to)),
{
    let range = SelectionRange { start: t.drag_start(to), end: to };
    let m = t.dirty_selection();
    lemma_dirty_selection_keeps_text(t);
    lemma_dirty_selection_keeps_text(TerminalModel { selection_range: Some(range), ..m });
}

proof fn lemma_selecting_keeps_text(t: TerminalModel, event: MouseEvent)
    ensures
        t.selecting_event(event) matches Some(after) ==> output_kept(t, after.0),
{
    match (event.kind, event.button) {
        (MouseEventKind::Press, MouseButton::Left) => {
            lemma_press_keeps_text(t, event.x, event.y);
        },
        (MouseEventKind::Move, _) => {
            lemma_drag_keeps_text(
                t,
                SelectionCoordinate { x: event.x, y: t.shown_row(event.y as int) },
            );
        },
        _ => {},
    }
}

proof fn lemma_reported_keeps_text(t: TerminalModel, event: MouseEvent)
    ensures
        output_kept(t, t.reported_event(event).0),
{
    lemma_viewport_keeps_text(t, t.viewport - 1);
    lemma_viewport_keeps_text(t, t.viewport + 1);
}

/// The mouse changes no text, and leaves the cursor where it is.
pub proof fn law_mouse_keeps_text(t: TerminalModel, event: MouseEvent, now: u64)
    ensures
        output_kept(t, t.mouse_event(event, now).0),
{
    let e = t.clamp_event(event);
    let m = t.track_mouse(e, now);
    lemma_track_mouse_keeps_text(t, e, now);
    lemma_selecting_keeps_text(m, e);
    lemma_reported_keeps_text(m, e);
}

/// A key changes no text, and leaves the cursor where it is.
pub proof fn law_key_keeps_text(t: TerminalModel, key: KeyCode, mods: KeyModifiers)
    ensures
        output_kept(t, t.key_down(key, mods).0),
{
    lemma_viewport_keeps_text(t, t.viewport + t.rows());
    lemma_viewport_keeps_text(t, t.viewport - t.rows());
}

// Size

/// A terminal of another size has screens of that size, scrolls all of the screen, and
/// shows its last lines.
pub proof fn law_resize(t: TerminalModel, rows: int, cols: int)
    requires
        t.wf(),
        1 <= rows,
        1 <= cols,
        rows + t.screen.scrollback <= size_limit(),
    ensures
        ({
            let after = t.resize(rows, cols);
            &&& after.screen.rows == rows && after.screen.cols == cols
            &&& after.alt_screen.rows == rows && after.alt_screen.cols == cols
            &&& after.region_start == 0 && after.region_end == rows
            &&& after.viewport == 0
            &&& after.cursor == t.cursor
            &&& after.tabs == t.tabs.grown(cols)
        }),
{
}

} // verus!
