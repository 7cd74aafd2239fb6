//! What is in view: the viewport, the two screens, and their size.
use super::super::model::{Place, TerminalModel};
use super::editing::{erased_by, row_selected};
use super::modes::with_mode;
use super::{law_enter_alt_screen, lemma_highlight_keeps_text, performed, same_text};
use crate::cell::CellModel;
use crate::escape::{Action, DecPrivateModeCode, EraseInDisplay};
use crate::hyperlink::Rule;
use crate::line::cell_at;
use crate::screen::{size_limit, ScreenModel};
use vstd::prelude::*;

verus! {

/// Scrolling the viewport moves it towards the newest line where the distance is positive
/// and towards the oldest where it is negative, as far as there are lines. After that
/// nothing is selected.
pub proof fn law_scroll_viewport(t: TerminalModel, delta: int)
    requires
        t.wf(),
    ensures
        ({
            let after = t.scroll_viewport(delta);
            &&& 0 <= t.viewport - delta <= t.active().top() ==> after.viewport_top()
                == t.viewport_top() + delta
            &&& t.viewport - delta < 0 ==> after.viewport_top() == t.active().top()
            &&& t.viewport - delta > t.active().top() ==> after.viewport_top() == 0
            &&& after.selection_range is None
            &&& after.selection_start is None
            &&& after.active().same_size(t.active())
        }),
{
    let shown = t.clear_selection().show_viewport(t.viewport_near(t.viewport - delta));
    assert(shown.active().same_size(t.active()));
}

/// A line that is no longer selected will be drawn again.
pub proof fn law_clear_selection_dirty(t: TerminalModel, i: int)
    requires
        t.wf(),
        0 <= i < t.active().lines.len(),
        row_selected(t, i - t.active().top()),
    ensures
        t.clear_selection().active().lines[i].dirty,
        t.clear_selection().active().lines[i].cells == t.active().lines[i].cells,
        t.clear_selection().selection_range is None,
        t.clear_selection().selection_start is None,
{
}

#[verifier::rlimit(60)]
proof fn lemma_entering(t: TerminalModel)
    ensures
        with_mode(t, DecPrivateModeCode::ClearAndEnableAlternateScreen, true)
            == t.enter_alt_screen(),
{
    reveal(performed);
}

/// The alternate screen is empty when it comes into view: every cell is a space that is
/// drawn as the pen draws. The cursor is at its top left.
#[verifier::rlimit(40)]
pub proof fn law_alt_screen_empty(t: TerminalModel)
    requires
        t.wf(),
        !t.alt_screen_is_active,
    ensures
        ({
            let after = with_mode(t, DecPrivateModeCode::ClearAndEnableAlternateScreen, true);
            &&& forall|x: int, y: int|
                0 <= x < t.cols() && 0 <= y < t.rows() ==> (#[trigger] after.cell(x, y)).text == ' '
                    && after.cell(x, y).attrs.rendition == t.pen.rendition
            &&& after.cursor == (Place { x: 0, y: 0 })
            &&& after.viewport == 0
            &&& after.screen == t.screen
        }),
{
    lemma_entering(t);
    law_enter_alt_screen(t);
    let top = t.save_cursor().show_screen(true).cursor_to(0, 0);
    let erased = top.erase_in_display(EraseInDisplay::EraseDisplay);
    assert(erased.active().wf());
    assert(erased.active().rows == t.rows());
    assert(erased.pen == t.pen);
    assert forall|x: int, y: int| 0 <= x < t.cols() && 0 <= y < t.rows() implies erased_by(
        #[trigger] erased.cell(x, y),
        t.pen,
    ) by {}
    let shown = erased.clear_selection().show_viewport(erased.viewport_near(0));
    assert(shown.active().same_size(erased.active()));
    let after = erased.set_scroll_viewport(0);
    assert(after == shown.recompute_highlight());
    let place = shown.active().phys_or_first(shown.mouse_position.y - shown.viewport);
    let found = shown.active().links_found(place, shown.hyperlink_rules);
    assert forall|x: int, y: int| 0 <= x < t.cols() && 0 <= y < t.rows() implies (
    #[trigger] after.cell(x, y)).text == erased.cell(x, y).text && after.cell(x, y).attrs.rendition
        == erased.cell(x, y).attrs.rendition by {
        let i = erased.active().top() + y;
        assert(shown.active().lines[i].cells == erased.active().lines[i].cells);
        assert(found.lines[i].cells.len() == shown.active().lines[i].cells.len());
        assert(after.active().lines[i].cells == found.lines[i].cells);
    }
}

// Size

/// A screen that gets more rows gets them at the bottom, blank, and keeps what it shows in
/// the others; one that gets fewer keeps its last rows in view. The last lines are kept
/// as far as the screen and its scrollback have room. A row that gets more columns is
/// blank in them, and one that gets fewer is cut off.
pub proof fn law_resized(s: ScreenModel, rows: int, cols: int)
    requires
        s.wf(),
        1 <= rows,
        1 <= cols,
    ensures
        ({
            let after = s.resized(rows, cols);
            &&& after.rows == rows
            &&& after.cols == cols
            &&& after.scrollback == s.scrollback
            &&& rows >= s.rows ==> {
                &&& forall|x: int, y: int|
                    0 <= x < cols && 0 <= y < s.rows ==> cell_at(#[trigger] after.row(y).cells, x)
                        == #[trigger] cell_at(s.row(y).cells, x)
                &&& forall|x: int, y: int|
                    0 <= x < cols && s.rows <= y < rows ==> #[trigger] cell_at(
                        after.row(y).cells,
                        x,
                    ) == CellModel::blank()
            }
            &&& rows < s.rows ==> {
                &&& after.lines.len() == if s.lines.len() < rows + s.scrollback {
                    s.lines.len() as int
                } else {
                    rows + s.scrollback
                }
                &&& forall|x: int, k: int|
                    0 <= x < cols && 0 <= k < after.lines.len() ==> #[trigger] cell_at(
                        after.lines[after.lines.len() - 1 - k].cells,
                        x,
                    ) == cell_at(s.lines[s.lines.len() - 1 - k].cells, x)
            }
        }),
{
}

/// A row of another number of columns has that many, and another number of rows alone
/// changes no line.
pub proof fn law_resized_lines(s: ScreenModel, rows: int, cols: int)
    requires
        s.wf(),
        1 <= rows,
        1 <= cols,
    ensures
        cols != s.cols ==> forall|i: int|
            0 <= i < s.resized(rows, cols).lines.len() ==> (#[trigger] s.resized(
                rows,
                cols,
            ).lines[i]).cells.len() == cols && s.resized(rows, cols).lines[i].dirty,
        s.resized(s.rows, s.cols).lines == s.lines,
{
    assert(s.resized(s.rows, s.cols).lines =~= s.lines);
}

/// Another size changes the text of both screens by what has no room in them and by nothing
/// else. Nothing is selected after it.
pub proof fn law_resize_keeps_text(t: TerminalModel, rows: int, cols: int)
    requires
        t.wf(),
        1 <= rows,
        1 <= cols,
        rows + t.screen.scrollback <= size_limit(),
        cols <= size_limit(),
    ensures
        ({
            let after = t.resize(rows, cols);
            &&& same_text(t.screen.resized(rows, cols), after.screen)
            &&& same_text(t.alt_screen.resized(rows, cols), after.alt_screen)
            &&& after.alt_screen_is_active == t.alt_screen_is_active
            &&& after.selection_range is None
            &&& after.pen == t.pen
            &&& after.saved_cursor == t.saved_cursor
        }),
{
    let sized = t.with_size(rows, cols);
    let shown = sized.clear_selection().show_viewport(sized.viewport_near(0));
    lemma_highlight_keeps_text(shown);
    assert(same_text(sized.active(), shown.active()));
}

// A new terminal

/// A new terminal is blank, with its cursor at the top left, a plain pen, no mode set, and
/// the whole screen for its scroll region. There is a tab stop in every eighth column.
pub proof fn law_fresh(rows: int, cols: int, scrollback: int, rules: Seq<Rule>)
    requires
        1 <= rows,
        1 <= cols,
        0 <= scrollback,
    ensures
        ({
            let t = TerminalModel::fresh(rows, cols, scrollback, rules);
            &&& t.rows() == rows
            &&& t.cols() == cols
            &&& t.screen.scrollback == scrollback
            &&& t.alt_screen.scrollback == 0
            &&& forall|x: int, y: int|
                0 <= x < cols && 0 <= y < rows ==> #[trigger] t.cell(x, y) == CellModel::blank()
            &&& t.screen.top() == 0
            &&& t.alt_screen.top() == 0
            &&& t.cursor == (Place { x: 0, y: 0 })
            &&& t.pen == CellModel::blank().attrs
            &&& t.region_start == 0
            &&& t.region_end == rows
            &&& t.cursor_visible
            &&& !t.alt_screen_is_active
            &&& !t.wrap_next
            &&& !t.bracketed_paste
            &&& !t.application_cursor_keys
            &&& !t.application_keypad
            &&& !t.sgr_mouse
            &&& !t.button_event_mouse
            &&& t.selection_range is None
            &&& t.selection_start is None
            &&& t.current_highlight is None
            &&& t.viewport == 0
            &&& t.hyperlink_rules == rules
            &&& t.title == "wezterm"@
            &&& t.tabs.stops.len() == cols
            &&& forall|x: int|
                0 <= x < cols ==> #[trigger] t.tabs.stops[x] == (x % 8 == 0)
        }),
{
}

/// Where the cursor is shown, the viewport shows the line of the cursor.
pub proof fn law_shown_cursor(t: TerminalModel)
    requires
        t.wf(),
        t.cursor_on_screen(),
        0 <= t.shown_cursor().y < t.rows(),
    ensures
        t.viewport_top() + t.shown_cursor().y == t.active().top() + t.cursor.y,
        t.viewport_line(t.shown_cursor().y) == t.active().row(t.cursor.y),
        t.shown_cursor().x == t.cursor.x,
{
}

/// The viewport shows the last lines where it was not moved, and else the lines that are as
/// far above them as it was moved.
pub proof fn law_viewport_lines(t: TerminalModel, i: int)
    requires
        t.wf(),
        0 <= i < t.rows(),
    ensures
        t.viewport == 0 ==> t.viewport_line(i) == t.active().row(i),
        t.viewport_line(i) == t.active().lines[t.active().lines.len() - t.rows() - t.viewport + i],
        0 <= t.active().lines.len() - t.rows() - t.viewport,
{
}

/// A terminal whose cursor is on the screen can do whatever is asked of it.
pub proof fn law_accepts(t: TerminalModel, action: Action)
    requires
        t.wf(),
        t.cursor_on_screen(),
        t.rows() < u32::MAX,
        t.cols() < u32::MAX,
    ensures
        t.accepts(action),
{
}

} // verus!
