//! What the mouse selects, reports and scrolls.
use super::super::model::{Place, TerminalModel};
use super::super::mouse::{law_word_at, law_word_at_place, word_at};
use super::editing::row_selected;
use super::{lemma_track_mouse_keeps_text, same_text};
use crate::attributes::LinkModel;
use crate::host::HostModel;
use crate::input::{MouseButton, MouseEvent, MouseEventKind};
use crate::line::{cells_text, is_linked, LineModel};
use crate::outside::{tiles, word_bounds};
use crate::selection::{SelectionCoordinate, SelectionRange};
use crate::text::{decimal, trimmed_end};
use vstd::prelude::*;

verus! {

/// Whether an event is over a cell of the screen.
pub open spec fn over_screen(t: TerminalModel, event: MouseEvent) -> bool {
    event.x < t.cols() && 0 <= event.y < t.rows()
}

/// Whether the mouse selects: it does unless the program in the terminal has asked for
/// reports and shift is not held.
pub open spec fn mouse_selects(t: TerminalModel, event: MouseEvent) -> bool {
    !t.sgr_mouse || event.modifiers.shift
}

/// How many clicks a press makes with those that came before it: one more than they where
/// the button is theirs and half a second has not passed since, and else one.
pub open spec fn clicks(t: TerminalModel, button: MouseButton, now: u64) -> int {
    match t.last_mouse_click {
        Some(last) => if last.button == button && now <= last.time + 500 && last.streak
            < usize::MAX {
            last.streak + 1
        } else if last.button == button && now <= last.time + 500 {
            last.streak as int
        } else {
            1
        },
        None => 1,
    }
}

/// Whether a row of the screen or its scrollback is the line that the viewport shows in
/// row `y`.
pub open spec fn shown_at(t: TerminalModel, row: int, y: int) -> bool {
    t.active().phys_or_first(row) == t.viewport_top() + y
}

proof fn lemma_tracked(t: TerminalModel, event: MouseEvent, now: u64)
    requires
        t.wf(),
        over_screen(t, event),
    ensures
        t.clamp_event(event) == event,
        ({
            let m = t.track_mouse(event, now);
            &&& same_text(t.active(), m.active())
            &&& m.rows() == t.rows()
            &&& m.cols() == t.cols()
            &&& m.viewport == t.viewport
            &&& m.viewport_top() == t.viewport_top()
            &&& m.alt_screen_is_active == t.alt_screen_is_active
            &&& m.selection_range == t.selection_range
            &&& m.selection_start == t.selection_start
            &&& m.current_mouse_button == t.current_mouse_button
            &&& m.sgr_mouse == t.sgr_mouse
            &&& m.button_event_mouse == t.button_event_mouse
            &&& m.application_cursor_keys == t.application_cursor_keys
            &&& m.mouse_position == (Place { x: event.x as int, y: event.y as int })
            &&& event.kind is Press ==> m.streak() == clicks(t, event.button, now)
            &&& event.kind is Press ==> (m.last_mouse_click matches Some(click) && click.button
                == event.button && click.time == now)
            &&& !(event.kind is Press) ==> m.last_mouse_click == t.last_mouse_click
        }),
{
    lemma_track_mouse_keeps_text(t, event, now);
}

/// What holds of every terminal of the places that the viewport shows.
pub open spec fn shows_lines(t: TerminalModel) -> bool {
    &&& t.active().wf()
    &&& t.active().rows == t.rows()
    &&& t.active().cols == t.cols()
    &&& 0 <= t.viewport <= t.active().top()
}

proof fn lemma_grabbed(m: TerminalModel)
    requires
        shows_lines(m),
    ensures
        ({
            let g = m.grab();
            &&& shows_lines(g)
            &&& same_text(m.active(), g.active())
            &&& g.viewport == m.viewport
            &&& g.current_mouse_button == MouseButton::Left
        }),
{
}

proof fn lemma_selected(m: TerminalModel, from: SelectionCoordinate, range: SelectionRange)
    requires
        shows_lines(m),
    ensures
        ({
            let s = m.select(from, range);
            &&& shows_lines(s)
            &&& same_text(m.active(), s.active())
            &&& s.viewport == m.viewport
            &&& s.current_mouse_button == m.current_mouse_button
            &&& s.selection_start == Some(from)
            &&& s.selection_range == Some(range)
        }),
{
}

/// The text of a selection in one row is that of its columns in the line that the row is,
/// without the white space at the end.
proof fn lemma_one_row_text(t: TerminalModel, y: i64, line: Seq<char>)
    requires
        shows_lines(t),
        t.selection_range matches Some(sel) && sel.start.y == y && sel.end.y == y && sel.start.x
            <= sel.end.x,
        line == cells_text(t.active().lines[t.active().phys_or_first(y as int)].cells),
        line.len() <= usize::MAX,
    ensures
        ({
            let sel = t.selection_range->Some_0;
            t.selection_text() == trimmed_end(columns_text(line, sel.start.x as int, sel.end.x as int))
        }),
{
    let sel = t.selection_range->Some_0;
    reveal_with_fuel(TerminalModel::selected_rows_text, 2);
    let cells = t.active().lines[t.active().phys_or_first(y as int)];
    assert(t.selection_text() == t.selected_row_text(sel, y as int));
    let cols = sel.selected(y as int);
    assert(cells.text_of(cols.0 as int, cols.1 as int) =~= columns_text(
        line,
        sel.start.x as int,
        sel.end.x as int,
    ));
}

/// The characters of a line from one column to another, both included, as far as the line
/// has them.
pub open spec fn columns_text(line: Seq<char>, first: int, last: int) -> Seq<char> {
    if first >= line.len() {
        Seq::empty()
    } else if last + 1 >= line.len() {
        line.skip(first)
    } else {
        line.subrange(first, last + 1)
    }
}

/// What a press of the left button has selected of the line that the viewport shows in the
/// row of the mouse: nothing yet after one click, a word after two, the line after three.
pub open spec fn selected_by_press(
    before: TerminalModel,
    after: TerminalModel,
    action: HostModel,
    x: int,
    y: int,
    count: int,
) -> bool {
    let line = cells_text(before.viewport_line(y).cells);
    if count == 1 {
        &&& after.selection_range is None
        &&& after.selection_start matches Some(from) && from.x == x && shown_at(
            after,
            from.y as int,
            y,
        )
        &&& action == HostModel::SetClipboard(None)
    } else if count == 2 {
        match after.selection_range {
            Some(sel) => {
                &&& sel.start.x <= sel.end.x
                &&& sel.start.y == sel.end.y
                &&& shown_at(after, sel.start.y as int, y)
                &&& word_bounds(line).contains(
                    (sel.start.x, (sel.end.x - sel.start.x + 1) as usize),
                )
                &&& if x == 0 {
                    sel.start.x == 0
                } else {
                    sel.start.x < x <= sel.end.x + 1
                }
                &&& after.selection_start == Some(sel.start)
                &&& action == HostModel::SetClipboard(
                    Some(trimmed_end(columns_text(line, sel.start.x as int, sel.end.x as int))),
                )
            },
            None => {
                &&& after.selection_start is None
                &&& action == HostModel::SetClipboard(None)
            },
        }
    } else if count == 3 {
        &&& after.selection_range matches Some(sel) && sel.start.x == 0 && sel.end.x == usize::MAX
            && sel.start.y == sel.end.y && shown_at(after, sel.start.y as int, y)
        &&& after.selection_start matches Some(from) && from.x == x && shown_at(
            after,
            from.y as int,
            y,
        )
        &&& action == HostModel::SetClipboard(Some(trimmed_end(line)))
    } else {
        &&& after.selection_range is None
        &&& after.selection_start is None
        &&& action == HostModel::SetClipboard(None)
    }
}

proof fn lemma_press_once(m: TerminalModel, x: usize, y: i64)
    requires
        shows_lines(m),
        0 <= y < m.rows(),
        m.streak() != 2,
        m.streak() != 3,
    ensures
        selected_by_press(
            m,
            m.press_left(x, y).0,
            m.press_left(x, y).1,
            x as int,
            y as int,
            m.streak(),
        ),
        m.press_left(x, y).0.current_mouse_button == MouseButton::Left,
        m.press_left(x, y).0.viewport == m.viewport,
{
    lemma_grabbed(m);
}

proof fn lemma_press_twice(m: TerminalModel, x: usize, y: i64, end: int)
    requires
        shows_lines(m),
        0 <= y < m.rows(),
        m.streak() == 2,
        tiles(word_bounds(cells_text(m.viewport_line(y as int).cells)), 0, end),
        end <= usize::MAX,
        m.viewport_line(y as int).cells.len() <= usize::MAX,
    ensures
        selected_by_press(
            m,
            m.press_left(x, y).0,
            m.press_left(x, y).1,
            x as int,
            y as int,
            2,
        ),
        m.press_left(x, y).0.selection_range is Some <==> x <= end && end > 0,
        m.press_left(x, y).0.current_mouse_button == MouseButton::Left,
        m.press_left(x, y).0.viewport == m.viewport,
{
    lemma_grabbed(m);
    let g = m.grab();
    let row = m.shown_row(y as int);
    let line = cells_text(m.viewport_line(y as int).cells);
    assert(g.row_text(row as int) == line);
    let segments = word_bounds(line);
    law_word_at_place(segments, 0, end, x as int);
    if end > 0 && x <= end {
        law_word_at(segments, 0, end, x as int);
    }
    lemma_tiles_parts(segments, 0, end);
    if let Some(word) = word_at(segments, x as int) {
        let from = SelectionCoordinate { x: word.0, y: row };
        let to = SelectionCoordinate { x: (word.0 + word.1 - 1) as usize, y: row };
        let range = SelectionRange { start: from, end: to };
        lemma_selected(g, from, range);
        let s = g.select(from, range);
        lemma_one_row_text(s, row, line);
        let i = choose|i: int| 0 <= i < segments.len() && #[trigger] segments[i] == word;
        assert(segments[i].1 > 0);
        assert(segments.contains((from.x, (to.x - from.x + 1) as usize)));
    }
}

proof fn lemma_tiles_parts(segments: Seq<(usize, usize)>, start: int, end: int)
    requires
        tiles(segments, start, end),
    ensures
        start <= end,
        segments.len() > 0 ==> start < end,
        forall|i: int|
            0 <= i < segments.len() ==> (#[trigger] segments[i]).1 > 0 && segments[i].0
                + segments[i].1 <= end,
    decreases segments.len(),
{
    if segments.len() > 0 {
        let rest = segments.drop_first();
        lemma_tiles_parts(rest, start + segments[0].1, end);
        assert forall|i: int| 0 <= i < segments.len() implies (#[trigger] segments[i]).1 > 0
            && segments[i].0 + segments[i].1 <= end by {
            if i > 0 {
                assert(segments[i] == rest[i - 1]);
            }
        }
    }
}

proof fn lemma_press_thrice(m: TerminalModel, x: usize, y: i64)
    requires
        shows_lines(m),
        0 <= y < m.rows(),
        m.streak() == 3,
        m.viewport_line(y as int).cells.len() <= usize::MAX,
    ensures
        selected_by_press(
            m,
            m.press_left(x, y).0,
            m.press_left(x, y).1,
            x as int,
            y as int,
            3,
        ),
        m.press_left(x, y).0.current_mouse_button == MouseButton::Left,
        m.press_left(x, y).0.viewport == m.viewport,
{
    lemma_grabbed(m);
    let g = m.grab();
    let row = m.shown_row(y as int);
    let line = cells_text(m.viewport_line(y as int).cells);
    let from = SelectionCoordinate { x, y: row };
    let range = SelectionRange {
        start: SelectionCoordinate { x: 0, y: row },
        end: SelectionCoordinate { x: usize::MAX, y: row },
    };
    lemma_selected(g, from, range);
    lemma_one_row_text(g.select(from, range), row, line);
    assert(columns_text(line, 0, usize::MAX as int) =~= line);
}

/// A press of the left button selects in the line that the viewport shows in the row of
/// the mouse, wherever the viewport is: one click starts a selection in the cell of the
/// mouse, two clicks select the word there, and three select the line. What is selected
/// goes to the clipboard. The segments of the line are taken to make up `end` bytes of
/// text, and its cells to fit in memory.
pub proof fn law_press_left(t: TerminalModel, event: MouseEvent, now: u64, end: int)
    requires
        t.wf(),
        over_screen(t, event),
        mouse_selects(t, event),
        event.kind == MouseEventKind::Press,
        event.button == MouseButton::Left,
        t.viewport_line(event.y as int).cells.len() <= usize::MAX,
        tiles(word_bounds(cells_text(t.viewport_line(event.y as int).cells)), 0, end),
        end <= usize::MAX,
    ensures
        ({
            let (after, action) = t.mouse_event(event, now);
            let count = clicks(t, MouseButton::Left, now);
            &&& selected_by_press(t, after, action, event.x as int, event.y as int, count)
            &&& count == 2 ==> (after.selection_range is Some <==> event.x <= end && end > 0)
            &&& after.viewport == t.viewport
            &&& after.current_mouse_button == MouseButton::Left
            &&& forall|i: int|
                0 <= i < after.active().lines.len() && (row_selected(t, i - t.active().top())
                    || row_selected(after, i - t.active().top()))
                    ==> (#[trigger] after.active().lines[i]).dirty
        }),
{
    lemma_tracked(t, event, now);
    let m = t.track_mouse(event, now);
    lemma_press_dirty(m, event.x, event.y);
    lemma_tracked_shows(t, event, now);
    if m.streak() == 2 {
        lemma_press_twice(m, event.x, event.y, end);
    } else if m.streak() == 3 {
        lemma_press_thrice(m, event.x, event.y);
    } else {
        lemma_press_once(m, event.x, event.y);
    }
    lemma_selecting(t, event, now);
}

proof fn lemma_selected_dirty(m: TerminalModel, from: SelectionCoordinate, range: SelectionRange)
    requires
        shows_lines(m),
    ensures
        ({
            let s = m.select(from, range);
            forall|i: int|
                0 <= i < s.active().lines.len() ==> (#[trigger] s.active().lines[i]).dirty == (
                m.active().lines[i].dirty || m.active().phys_or_first(range.first_row()) <= i
                    < m.active().phys_or_first(range.last_row() + 1))
        }),
{
}

proof fn lemma_press_dirty(m: TerminalModel, x: usize, y: i64)
    requires
        shows_lines(m),
        0 <= y < m.rows(),
    ensures
        ({
            let after = m.press_left(x, y).0;
            forall|i: int|
                0 <= i < after.active().lines.len() && (row_selected(m, i - m.active().top())
                    || row_selected(after, i - m.active().top()))
                    ==> (#[trigger] after.active().lines[i]).dirty
        }),
{
    lemma_grabbed(m);
    let g = m.grab();
    assert forall|i: int|
        0 <= i < g.active().lines.len() && row_selected(m, i - m.active().top()) implies (
    #[trigger] g.active().lines[i]).dirty by {}
    let row = m.shown_row(y as int);
    let segments = word_bounds(g.row_text(row as int));
    if let Some(word) = word_at(segments, x as int) {
        let from = SelectionCoordinate { x: word.0, y: row };
        let to = SelectionCoordinate { x: (word.0 + word.1 - 1) as usize, y: row };
        lemma_selected(g, from, SelectionRange { start: from, end: to });
        lemma_selected_dirty(g, from, SelectionRange { start: from, end: to });
    }
    let from = SelectionCoordinate { x, y: row };
    let line = SelectionRange {
        start: SelectionCoordinate { x: 0, y: row },
        end: SelectionCoordinate { x: usize::MAX, y: row },
    };
    lemma_selected(g, from, line);
    lemma_selected_dirty(g, from, line);
}

proof fn lemma_tracked_shows(t: TerminalModel, event: MouseEvent, now: u64)
    requires
        t.wf(),
        over_screen(t, event),
    ensures
        shows_lines(t.track_mouse(event, now)),
        cells_text(t.track_mouse(event, now).viewport_line(event.y as int).cells) == cells_text(
            t.viewport_line(event.y as int).cells,
        ),
        t.track_mouse(event, now).viewport_line(event.y as int).cells.len() == t.viewport_line(
            event.y as int,
        ).cells.len(),
{
    lemma_tracked(t, event, now);
    let m = t.track_mouse(event, now);
    let a = m.viewport_line(event.y as int);
    let b = t.viewport_line(event.y as int);
    assert(t.active().lines[t.viewport_top() + event.y] == b);
    assert(cells_text(a.cells).len() == a.cells.len());
    assert(cells_text(b.cells).len() == b.cells.len());
}

proof fn lemma_selecting(t: TerminalModel, event: MouseEvent, now: u64)
    requires
        t.wf(),
        over_screen(t, event),
        mouse_selects(t, event),
    ensures
        event.kind is Press && event.button is Left ==> t.mouse_event(event, now) == t.track_mouse(
            event,
            now,
        ).press_left(event.x, event.y),
        t.track_mouse(event, now).selecting_event(event) matches Some(after) ==> t.mouse_event(
            event,
            now,
        ) == after,
{
    lemma_tracked(t, event, now);
}

// Dragging

/// Dragging with the left button down selects from where the selection started to the cell
/// of the mouse in the line that the viewport shows there. The lines that were selected
/// and those that then are will be drawn again.
pub proof fn law_drag(t: TerminalModel, event: MouseEvent, now: u64)
    requires
        t.wf(),
        over_screen(t, event),
        mouse_selects(t, event),
        event.kind == MouseEventKind::Move,
        t.current_mouse_button == MouseButton::Left,
    ensures
        ({
            let (after, action) = t.mouse_event(event, now);
            &&& after.selection_range matches Some(sel) && {
                &&& sel.end.x == event.x
                &&& shown_at(after, sel.end.y as int, event.y as int)
                &&& match (t.selection_range, t.selection_start) {
                    (Some(old), _) => sel.start == old.start,
                    (None, Some(start)) => sel.start == start,
                    (None, None) => sel.start == sel.end,
                }
            }
            &&& after.selection_start == t.selection_start
            &&& after.current_mouse_button == MouseButton::Left
            &&& after.viewport == t.viewport
            &&& action == HostModel::Nothing
            &&& forall|i: int|
                0 <= i < after.active().lines.len() && (row_selected(t, i - t.active().top())
                    || row_selected(after, i - t.active().top()))
                    ==> (#[trigger] after.active().lines[i]).dirty
        }),
{
    lemma_tracked(t, event, now);
    lemma_tracked_shows(t, event, now);
    lemma_selecting(t, event, now);
    let m = t.track_mouse(event, now);
    let to = SelectionCoordinate { x: event.x, y: m.shown_row(event.y as int) };
    lemma_dragged(m, to);
    assert(m.selecting_event(event) == Some((m.drag(to), HostModel::Nothing)));
}

proof fn lemma_dragged(m: TerminalModel, to: SelectionCoordinate)
    requires
        shows_lines(m),
    ensures
        ({
            let d = m.drag(to);
            &&& shows_lines(d)
            &&& d.active().same_size(m.active())
            &&& d.viewport == m.viewport
            &&& d.current_mouse_button == m.current_mouse_button
            &&& d.selection_start == m.selection_start
            &&& d.selection_range == Some(SelectionRange { start: m.drag_start(to), end: to })
            &&& forall|i: int|
                0 <= i < d.active().lines.len() && (row_selected(m, i - m.active().top())
                    || row_selected(d, i - m.active().top()))
                    ==> (#[trigger] d.active().lines[i]).dirty
        }),
{
    let once = m.dirty_selection();
    assert(shows_lines(once));
    assert forall|i: int|
        0 <= i < once.active().lines.len() && row_selected(m, i - m.active().top()) implies (
    #[trigger] once.active().lines[i]).dirty by {}
    let range = SelectionRange { start: m.drag_start(to), end: to };
    let twice = TerminalModel { selection_range: Some(range), ..once };
    assert(m.drag(to) == twice.dirty_selection());
    assert forall|i: int| 0 <= i < once.active().lines.len() implies (
    #[trigger] m.drag(to).active().lines[i]).dirty == (once.active().lines[i].dirty || (
    m.active().phys_or_first(range.first_row()) <= i < m.active().phys_or_first(
        range.last_row() + 1,
    ))) by {}
}

/// Pressing the left button once in a cell and dragging to another selects from the one to
/// the other, in the lines that the viewport shows there.
pub proof fn law_press_and_drag(
    t: TerminalModel,
    press: MouseEvent,
    drag: MouseEvent,
    first: u64,
    second: u64,
)
    requires
        t.wf(),
        t.mouse_event(press, first).0.wf(),
        over_screen(t, press),
        over_screen(t.mouse_event(press, first).0, drag),
        mouse_selects(t, press),
        mouse_selects(t.mouse_event(press, first).0, drag),
        press.kind == MouseEventKind::Press,
        press.button == MouseButton::Left,
        drag.kind == MouseEventKind::Move,
        clicks(t, MouseButton::Left, first) == 1,
    ensures
        ({
            let after = t.mouse_event(press, first).0.mouse_event(drag, second).0;
            after.selection_range matches Some(sel) && {
                &&& sel.start.x == press.x
                &&& sel.end.x == drag.x
                &&& shown_at(after, sel.start.y as int, press.y as int)
                &&& shown_at(after, sel.end.y as int, drag.y as int)
            }
        }),
{
    let pressed = t.mouse_event(press, first).0;
    lemma_tracked(t, press, first);
    lemma_tracked_shows(t, press, first);
    lemma_selecting(t, press, first);
    lemma_press_once(t.track_mouse(press, first), press.x, press.y);
    law_drag(pressed, drag, second);
    lemma_tracked(pressed, drag, second);
    lemma_tracked_shows(pressed, drag, second);
    lemma_selecting(pressed, drag, second);
    let m = pressed.track_mouse(drag, second);
    lemma_dragged(m, SelectionCoordinate { x: drag.x, y: m.shown_row(drag.y as int) });
    assert(m.active().same_size(pressed.active()));
    assert(m.viewport == pressed.viewport);
}

proof fn lemma_rows_text_same(
    a: TerminalModel,
    b: TerminalModel,
    sel: SelectionRange,
    count: nat,
)
    requires
        same_text(a.active(), b.active()),
        a.active().lines.len() > 0,
        sel.first_row() + count <= a.rows(),
        a.active().rows == a.rows(),
        a.active().rows <= a.active().lines.len(),
    ensures
        a.selected_rows_text(sel, count) == b.selected_rows_text(sel, count),
    decreases count,
{
    if count > 0 {
        lemma_rows_text_same(a, b, sel, (count - 1) as nat);
        let row = sel.first_row() + count - 1;
        let place = a.active().phys_or_first(row);
        assert(0 <= place < a.active().lines.len());
        let x = a.active().lines[place];
        let y = b.active().lines[place];
        assert(cells_text(x.cells).len() == x.cells.len());
        assert(cells_text(y.cells).len() == y.cells.len());
    }
}

/// Releasing the left button after one click puts the selected text into the clipboard;
/// where there is none, it follows the link under the mouse. The selection stays.
pub proof fn law_release_left(t: TerminalModel, event: MouseEvent, now: u64)
    requires
        t.wf(),
        over_screen(t, event),
        mouse_selects(t, event),
        event.kind == MouseEventKind::Release,
        event.button == MouseButton::Left,
        t.last_mouse_click matches Some(click) && click.streak == 1,
    ensures
        ({
            let (after, action) = t.mouse_event(event, now);
            &&& after.current_mouse_button == MouseButton::NoButton
            &&& after.selection_range == t.selection_range
            &&& after.selection_start == t.selection_start
            &&& action == if t.selection_text().len() > 0 {
                HostModel::SetClipboard(Some(t.selection_text()))
            } else {
                match after.current_highlight {
                    Some(link) => HostModel::ClickLink(link),
                    None => HostModel::Nothing,
                }
            }
        }),
{
    lemma_tracked(t, event, now);
    lemma_tracked_shows(t, event, now);
    lemma_selecting(t, event, now);
    let m = t.track_mouse(event, now);
    if let Some(sel) = t.selection_range {
        lemma_rows_text_same(t, m, sel, (sel.last_row() - sel.first_row() + 1) as nat);
    }
}

// Reports

/// A report of the mouse: an escape, a bracket, the less-than sign, the number of the
/// button, the column and the row counted from one, and a letter.
pub open spec fn report_text(button: nat, event: MouseEvent, letter: char) -> Seq<char> {
    seq!['\x1b', '[', '<'] + decimal(button) + seq![';'] + decimal((event.x + 1) as nat) + seq![';']
        + decimal((event.y + 1) as nat) + seq![letter]
}

/// The number of the buttons that can be held: left, middle and right, from zero on.
pub open spec fn button_number(button: MouseButton) -> nat {
    match button {
        MouseButton::Left => 0,
        MouseButton::Middle => 1,
        _ => 2,
    }
}

pub open spec fn can_be_held(button: MouseButton) -> bool {
    button is Left || button is Middle || button is Right
}

/// Whether an event is one that the mouse selects with: a press of the left button, its
/// release after one click, or a move while it is held.
pub open spec fn can_select(t: TerminalModel, event: MouseEvent) -> bool {
    match event.kind {
        MouseEventKind::Press => event.button is Left,
        MouseEventKind::Release => event.button is Left && (t.last_mouse_click matches Some(click)
            && click.streak == 1),
        MouseEventKind::Move => t.current_mouse_button is Left,
    }
}

/// Where the program in the terminal has asked for reports, and shift is not held or the
/// event is not one that selects, a press
/// is reported with the number of its button, the wheel with a number from 64 on, a
/// release with three and a small letter, and a move, if it asked for that too, with the
/// number of the button that is held and 32. The selection and the viewport stay.
pub proof fn law_mouse_report(t: TerminalModel, event: MouseEvent, now: u64)
    requires
        t.wf(),
        over_screen(t, event),
        t.sgr_mouse,
        !event.modifiers.shift || !can_select(t, event),
    ensures
        ({
            let (after, action) = t.mouse_event(event, now);
            &&& after.selection_range == t.selection_range
            &&& after.selection_start == t.selection_start
            &&& after.viewport == t.viewport
            &&& match event.kind {
                MouseEventKind::Press => if event.button is WheelUp {
                    action == HostModel::Report(report_text(64, event, 'M'))
                        && after.current_mouse_button == t.current_mouse_button
                } else if event.button is WheelDown {
                    action == HostModel::Report(report_text(65, event, 'M'))
                        && after.current_mouse_button == t.current_mouse_button
                } else if can_be_held(event.button) {
                    action == HostModel::Report(
                        report_text(button_number(event.button), event, 'M'),
                    ) && after.current_mouse_button == event.button
                } else {
                    action == HostModel::Nothing
                },
                MouseEventKind::Release => action == HostModel::Report(report_text(3, event, 'm'))
                    && after.current_mouse_button == MouseButton::NoButton,
                MouseEventKind::Move => if t.button_event_mouse && can_be_held(
                    t.current_mouse_button,
                ) {
                    action == HostModel::Report(
                        report_text(32 + button_number(t.current_mouse_button), event, 'M'),
                    ) && after.current_mouse_button == t.current_mouse_button
                } else {
                    action == HostModel::Nothing && after.current_mouse_button
                        == t.current_mouse_button
                },
            }
        }),
{
    lemma_tracked(t, event, now);
}

/// Where the program has not asked for reports, an event that does not select pastes if it
/// is a press of the middle button, and does nothing else; nothing is reported.
pub proof fn law_mouse_without_reports(t: TerminalModel, event: MouseEvent, now: u64)
    requires
        t.wf(),
        over_screen(t, event),
        !t.sgr_mouse,
        !can_select(t, event),
        !(event.kind is Press && (event.button is WheelUp || event.button is WheelDown)),
    ensures
        ({
            let (after, action) = t.mouse_event(event, now);
            &&& after.selection_range == t.selection_range
            &&& after.selection_start == t.selection_start
            &&& after.viewport == t.viewport
            &&& action == if event.kind is Press && event.button is Middle {
                HostModel::PasteReport
            } else {
                HostModel::Nothing
            }
            &&& after.current_mouse_button == match event.kind {
                MouseEventKind::Press => event.button,
                MouseEventKind::Release => MouseButton::NoButton,
                MouseEventKind::Move => t.current_mouse_button,
            }
        }),
{
    lemma_tracked(t, event, now);
}

/// Where the program has not asked for reports, the wheel moves the viewport of the primary
/// screen by one line, as far as there are lines, and sends the cursor keys up and down
/// where the alternate screen is shown.
pub proof fn law_wheel(t: TerminalModel, event: MouseEvent, now: u64)
    requires
        t.wf(),
        over_screen(t, event),
        !t.sgr_mouse,
        event.kind is Press,
        event.button is WheelUp || event.button is WheelDown,
    ensures
        ({
            let (after, action) = t.mouse_event(event, now);
            let up = event.button is WheelUp;
            if t.alt_screen_is_active {
                &&& after.viewport == t.viewport
                &&& action == HostModel::Input(
                    seq![
                        '\x1b',
                        if t.application_cursor_keys {
                            'O'
                        } else {
                            '['
                        },
                        if up {
                            'A'
                        } else {
                            'B'
                        },
                    ],
                )
            } else {
                &&& action == HostModel::Nothing
                &&& after.viewport == if up && t.viewport < t.active().top() {
                    t.viewport + 1
                } else if !up && t.viewport > 0 {
                    t.viewport - 1
                } else {
                    t.viewport
                }
            }
        }),
{
    lemma_tracked(t, event, now);
}

// Links

/// The link in a column of a line.
pub open spec fn link_in(line: LineModel, x: int) -> Option<LinkModel> {
    if 0 <= x < line.cells.len() {
        line.cells[x].attrs.link
    } else {
        None
    }
}

/// The link that is highlighted when the mouse comes over another cell is the one of that
/// cell in the line that the viewport shows there, once links were looked for in it.
pub proof fn law_highlight(t: TerminalModel, event: MouseEvent, now: u64)
    requires
        t.wf(),
        over_screen(t, event),
        event.kind is Move,
        !mouse_selects(t, event) || !(t.current_mouse_button is Left),
        t.mouse_position != (Place { x: event.x as int, y: event.y as int }),
    ensures
        ({
            let after = t.mouse_event(event, now).0;
            &&& after.mouse_position == (Place { x: event.x as int, y: event.y as int })
            &&& after.current_highlight == link_in(
                after.viewport_line(event.y as int),
                event.x as int,
            )
            &&& after.viewport_line(event.y as int).cells == t.viewport_line(
                event.y as int,
            ).linked_by(t.hyperlink_rules).cells
        }),
{
    lemma_tracked(t, event, now);
}

/// The link that is highlighted after the viewport moved is the one under the mouse in the
/// line that it shows there.
pub proof fn law_highlight_after_scroll(t: TerminalModel, position: int)
    requires
        t.wf(),
        0 <= t.mouse_position.y < t.rows(),
    ensures
        ({
            let after = t.set_scroll_viewport(position);
            after.current_highlight == link_in(
                after.viewport_line(t.mouse_position.y),
                t.mouse_position.x,
            )
        }),
{
    let shown = t.clear_selection().show_viewport(t.viewport_near(position));
    assert(shown.active().same_size(t.active()));
    assert(shown.mouse_position == t.mouse_position);
}

/// When the highlight is looked for again, every line that has a link will be drawn again.
pub proof fn law_highlight_dirty(t: TerminalModel, i: int, x: int)
    requires
        t.wf(),
        0 <= i < t.active().lines.len(),
        0 <= x < t.recompute_highlight().active().lines[i].cells.len(),
        t.recompute_highlight().active().lines[i].cells[x].attrs.link is Some,
    ensures
        t.recompute_highlight().active().lines[i].dirty,
{
    let place = t.active().phys_or_first(t.mouse_position.y - t.viewport);
    let found = t.active().links_found(place, t.hyperlink_rules);
    assert(is_linked(found.lines[i].cells[x]));
    assert(found.lines[i].has_link());
}

} // verus!
