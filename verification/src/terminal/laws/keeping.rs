//! What output, the keys and the mouse leave as it was.
use super::super::model::TerminalModel;
use super::super::mouse::word_at;
use super::drawing::{lemma_printed, printed};
use super::editing::{
    edited, lemma_delete_character, lemma_delete_line, lemma_erase_character,
    lemma_erase_in_display, lemma_erase_in_line, lemma_insert_character, lemma_insert_line,
    lemma_scroll_down, lemma_scroll_up,
};
use super::moving::{controlled, escaped, lemma_controlled, lemma_escaped};
use super::pointing::clicks;
use crate::attributes::AttrModel;
use crate::cell::columns;
use crate::escape::{ControlCode, Edit, EraseInDisplay, EscCode};
use crate::input::{KeyCode, KeyModifiers, MouseButton, MouseEvent, MouseEventKind};
use crate::outside::word_bounds;
use crate::selection::{SelectionCoordinate, SelectionRange};
use vstd::prelude::*;

verus! {

/// Whether the modes are as they were.
pub open spec fn modes_kept(before: TerminalModel, after: TerminalModel) -> bool {
    &&& after.alt_screen_is_active == before.alt_screen_is_active
    &&& after.bracketed_paste == before.bracketed_paste
    &&& after.application_cursor_keys == before.application_cursor_keys
    &&& after.application_keypad == before.application_keypad
    &&& after.sgr_mouse == before.sgr_mouse
    &&& after.button_event_mouse == before.button_event_mouse
    &&& after.cursor_visible == before.cursor_visible
}

/// Whether what output goes by is as it was: the pen, the scroll region, the tab stops, the
/// saved cursor, the rules for links and the title.
pub open spec fn setting_kept(before: TerminalModel, after: TerminalModel) -> bool {
    &&& after.pen == before.pen
    &&& after.region_start == before.region_start
    &&& after.region_end == before.region_end
    &&& after.tabs == before.tabs
    &&& after.saved_cursor == before.saved_cursor
    &&& after.hyperlink_rules == before.hyperlink_rules
    &&& after.title == before.title
}

/// Whether what the mouse did, and what is in view, is as it was.
pub open spec fn view_kept(before: TerminalModel, after: TerminalModel) -> bool {
    &&& after.viewport == before.viewport
    &&& after.mouse_position == before.mouse_position
    &&& after.current_mouse_button == before.current_mouse_button
    &&& after.last_mouse_click == before.last_mouse_click
    &&& after.current_highlight == before.current_highlight
}

/// Whether the screen that is not shown is as it was.
pub open spec fn other_screen_kept(before: TerminalModel, after: TerminalModel) -> bool {
    if before.alt_screen_is_active {
        after.screen == before.screen
    } else {
        after.alt_screen == before.alt_screen
    }
}

/// Whether nothing changed but the screen that is shown, the cursor on it, and the
/// selection.
pub open spec fn only_output(before: TerminalModel, after: TerminalModel) -> bool {
    &&& modes_kept(before, after)
    &&& setting_kept(before, after)
    &&& view_kept(before, after)
    &&& other_screen_kept(before, after)
}

proof fn lemma_next_row_output(t: TerminalModel, x: int)
    ensures
        only_output(t, t.next_row(x)),
{
}

proof fn lemma_reverse_output(t: TerminalModel)
    ensures
        only_output(t, t.c1_reverse_index()),
{
}

#[verifier::rlimit(60)]
proof fn lemma_print_output(t: TerminalModel, c: char, width: int)
    ensures
        only_output(t, t.print_wide(c, width)),
{
    let line = t.new_line(true);
    lemma_next_row_output(t, 0);
    assert(only_output(t, t.print_here(c, width)));
    assert(only_output(line, line.print_here(c, width)));
}

/// Printing changes nothing but the screen that is shown, the cursor on it, and the
/// selection.
#[verifier::rlimit(60)]
pub proof fn law_print_keeps(t: TerminalModel, c: char)
    ensures
        only_output(t, printed(t, c)),
{
    lemma_printed(t, c);
    lemma_print_output(t, c, columns(c) as int);
}

/// Whether nothing changed but the screen that is shown and the selection.
pub open spec fn only_edited(before: TerminalModel, after: TerminalModel) -> bool {
    &&& only_output(before, after)
    &&& after.cursor == before.cursor
    &&& after.wrap_next == before.wrap_next
}

proof fn lemma_delete_lines_keep(t: TerminalModel, n: u32)
    ensures
        only_edited(t, t.delete_lines(n)),
{
}

proof fn lemma_insert_lines_keep(t: TerminalModel, n: u32)
    ensures
        only_edited(t, t.insert_lines(n)),
{
}

proof fn lemma_delete_characters_keep(t: TerminalModel, n: u32)
    ensures
        only_edited(t, t.delete_characters(n)),
{
}

proof fn lemma_insert_characters_keep(t: TerminalModel, n: u32)
    ensures
        only_edited(t, t.insert_characters(n)),
{
}

proof fn lemma_clear_cols_keep(t: TerminalModel, start: int, end: int, attrs: AttrModel)
    ensures
        only_edited(t, t.clear_cols(start, end, attrs)),
{
}

proof fn lemma_scroll_up_keep(t: TerminalModel, count: int)
    ensures
        only_edited(t, t.scroll_up(count)),
{
}

proof fn lemma_scroll_down_keep(t: TerminalModel, count: int)
    ensures
        only_edited(t, t.scroll_down(count)),
{
}

proof fn lemma_erase_in_display_keep(t: TerminalModel, erase: EraseInDisplay)
    ensures
        only_edited(t, t.erase_in_display(erase)),
{
}

/// An edit changes nothing but the screen that is shown and the selection.
pub proof fn law_edit_keeps(t: TerminalModel, edit: Edit)
    ensures
        only_edited(t, edited(t, edit)),
{
    match edit {
        Edit::DeleteCharacter(n) => {
            lemma_delete_character(t, n);
            lemma_delete_characters_keep(t, n);
        },
        Edit::DeleteLine(n) => {
            lemma_delete_line(t, n);
            lemma_delete_lines_keep(t, n);
        },
        Edit::EraseCharacter(n) => {
            lemma_erase_character(t, n);
            lemma_clear_cols_keep(t, t.cursor.x, t.edit_limit(n), AttrModel::plain());
        },
        Edit::EraseInLine(erase) => {
            lemma_erase_in_line(t, erase);
            let attrs = t.pen.sgr_only();
            lemma_clear_cols_keep(t, t.cursor.x, t.cols(), attrs);
            lemma_clear_cols_keep(t, 0, t.cursor.x, attrs);
            lemma_clear_cols_keep(t, 0, t.cols(), attrs);
        },
        Edit::InsertCharacter(n) => {
            lemma_insert_character(t, n);
            lemma_insert_characters_keep(t, n);
        },
        Edit::InsertLine(n) => {
            lemma_insert_line(t, n);
            lemma_insert_lines_keep(t, n);
        },
        Edit::ScrollDown(n) => {
            lemma_scroll_down(t, n);
            lemma_scroll_down_keep(t, n as int);
        },
        Edit::ScrollUp(n) => {
            lemma_scroll_up(t, n);
            lemma_scroll_up_keep(t, n as int);
        },
        Edit::EraseInDisplay(erase) => {
            lemma_erase_in_display(t, erase);
            lemma_erase_in_display_keep(t, erase);
        },
    }
}

/// Control characters change nothing but the screen that is shown, the cursor on it, and
/// the selection.
pub proof fn law_control_keeps(t: TerminalModel, control: ControlCode)
    ensures
        only_output(t, controlled(t, control)),
{
    lemma_controlled(t, control);
    lemma_next_row_output(t, 0);
}

/// The sequences for the rows above and below change nothing but the screen that is shown,
/// the cursor on it, and the selection.
pub proof fn law_index_keeps(t: TerminalModel)
    ensures
        only_output(t, escaped(t, EscCode::Index)),
        only_output(t, escaped(t, EscCode::NextLine)),
        only_output(t, escaped(t, EscCode::ReverseIndex)),
{
    lemma_escaped(t, EscCode::Index);
    lemma_escaped(t, EscCode::NextLine);
    lemma_escaped(t, EscCode::ReverseIndex);
    lemma_next_row_output(t, t.column());
    lemma_next_row_output(t, 0);
    lemma_reverse_output(t);
}

/// A key changes nothing but the viewport, what follows from where it is, and which lines
/// will be drawn again.
#[verifier::rlimit(40)]
pub proof fn law_key_keeps(t: TerminalModel, key: KeyCode, mods: KeyModifiers)
    ensures
        modes_kept(t, t.key_down(key, mods).0),
        setting_kept(t, t.key_down(key, mods).0),
        other_screen_kept(t, t.key_down(key, mods).0),
        t.key_down(key, mods).0.cursor == t.cursor,
        t.key_down(key, mods).0.wrap_next == t.wrap_next,
        t.key_down(key, mods).0.mouse_position == t.mouse_position,
        t.key_down(key, mods).0.current_mouse_button == t.current_mouse_button,
        t.key_down(key, mods).0.last_mouse_click == t.last_mouse_click,
{
    lemma_scroll_keeps(t, t.viewport + t.rows());
    lemma_scroll_keeps(t, t.viewport - t.rows());
}

proof fn lemma_scroll_keeps(t: TerminalModel, position: int)
    ensures
        ({
            let after = t.set_scroll_viewport(position);
            &&& modes_kept(t, after)
            &&& setting_kept(t, after)
            &&& other_screen_kept(t, after)
            &&& after.cursor == t.cursor
            &&& after.wrap_next == t.wrap_next
            &&& after.mouse_position == t.mouse_position
            &&& after.current_mouse_button == t.current_mouse_button
            &&& after.last_mouse_click == t.last_mouse_click
        }),
{
}

/// Whether the mouse changed nothing of what output goes by or what it has written.
pub open spec fn output_setting_kept(before: TerminalModel, after: TerminalModel) -> bool {
    &&& modes_kept(before, after)
    &&& setting_kept(before, after)
    &&& other_screen_kept(before, after)
    &&& after.cursor == before.cursor
    &&& after.wrap_next == before.wrap_next
}

proof fn lemma_track_keeps(t: TerminalModel, event: MouseEvent, now: u64)
    ensures
        output_setting_kept(t, t.track_mouse(event, now)),
{
}

/// As `output_setting_kept`, and the mouse and its last click are as they were.
pub open spec fn mouse_setting_kept(before: TerminalModel, after: TerminalModel) -> bool {
    &&& output_setting_kept(before, after)
    &&& after.last_mouse_click == before.last_mouse_click
    &&& after.mouse_position == before.mouse_position
}

proof fn lemma_dirty_selection_keeps(t: TerminalModel)
    ensures
        mouse_setting_kept(t, t.dirty_selection()),
{
}

proof fn lemma_select_keeps(t: TerminalModel, from: SelectionCoordinate, range: SelectionRange)
    ensures
        mouse_setting_kept(t, t.select(from, range)),
{
    lemma_dirty_selection_keeps(
        TerminalModel { selection_start: Some(from), selection_range: Some(range), ..t },
    );
}

proof fn lemma_select_word_keeps(
    t: TerminalModel,
    x: usize,
    row: i64,
    segments: Seq<(usize, usize)>,
)
    ensures
        mouse_setting_kept(t, t.select_word(x, row, segments).0),
{
    if let Some(word) = word_at(segments, x as int) {
        let from = SelectionCoordinate { x: word.0, y: row };
        let to = SelectionCoordinate { x: (word.0 + word.1 - 1) as usize, y: row };
        lemma_select_keeps(t, from, SelectionRange { start: from, end: to });
    }
}

proof fn lemma_press_keeps(t: TerminalModel, x: usize, y: i64)
    ensures
        mouse_setting_kept(t, t.press_left(x, y).0),
{
    let g = t.grab();
    let row = t.shown_row(y as int);
    lemma_dirty_selection_keeps(TerminalModel { current_mouse_button: MouseButton::Left, ..t });
    assert(mouse_setting_kept(t, g));
    lemma_select_word_keeps(g, x, row, word_bounds(g.row_text(row as int)));
    lemma_select_keeps(
        g,
        SelectionCoordinate { x, y: row },
        SelectionRange {
            start: SelectionCoordinate { x: 0, y: row },
            end: SelectionCoordinate { x: usize::MAX, y: row },
        },
    );
}

proof fn lemma_drag_keeps(t: TerminalModel, to: SelectionCoordinate)
    ensures
        mouse_setting_kept(t, t.drag(to)),
{
    let range = SelectionRange { start: t.drag_start(to), end: to };
    let m = t.dirty_selection();
    lemma_dirty_selection_keeps(t);
    lemma_dirty_selection_keeps(TerminalModel { selection_range: Some(range), ..m });
}

proof fn lemma_selecting_keeps(t: TerminalModel, event: MouseEvent)
    ensures
        t.selecting_event(event) matches Some(after) ==> mouse_setting_kept(t, after.0),
{
    match (event.kind, event.button) {
        (MouseEventKind::Press, MouseButton::Left) => {
            lemma_press_keeps(t, event.x, event.y);
        },
        (MouseEventKind::Move, _) => {
            lemma_drag_keeps(
                t,
                SelectionCoordinate { x: event.x, y: t.shown_row(event.y as int) },
            );
        },
        _ => {},
    }
}

#[verifier::rlimit(40)]
proof fn lemma_reported_keeps(t: TerminalModel, event: MouseEvent)
    ensures
        mouse_setting_kept(t, t.reported_event(event).0),
{
    lemma_scroll_keeps(t, t.viewport + 1);
    lemma_scroll_keeps(t, t.viewport - 1);
}

/// The mouse changes nothing of what output goes by, and leaves the cursor where it is.
pub proof fn law_mouse_keeps(t: TerminalModel, event: MouseEvent, now: u64)
    ensures
        output_setting_kept(t, t.mouse_event(event, now).0),
{
    let e = t.clamp_event(event);
    let m = t.track_mouse(e, now);
    lemma_track_keeps(t, e, now);
    lemma_selecting_keeps(m, e);
    lemma_reported_keeps(m, e);
}

/// A press is counted with the clicks before it, and is then the last one; nothing else is
/// counted.
pub proof fn law_click_counted(t: TerminalModel, event: MouseEvent, now: u64)
    requires
        t.wf(),
    ensures
        ({
            let after = t.mouse_event(event, now).0;
            if event.kind is Press {
                after.last_mouse_click matches Some(click) && click.button == event.button
                    && click.time == now && click.streak == clicks(t, event.button, now)
            } else {
                after.last_mouse_click == t.last_mouse_click
            }
        }),
{
    let e = t.clamp_event(event);
    let m = t.track_mouse(e, now);
    lemma_selecting_keeps(m, e);
    lemma_reported_keeps(m, e);
}

} // verus!
