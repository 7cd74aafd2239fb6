//! What the mouse does.
use super::model::{Place, TerminalModel};
use super::{CursorPosition, TerminalState};
use crate::host::{HostAction, HostModel};
use crate::input::{KeyCode, KeyModifiers, LastMouseClick, MouseButton, MouseEvent, MouseEventKind};
use crate::line::cells_text;
use crate::outside::{split_word_bound_indices, tiles, word_bounds};
use crate::screen::{at_least, at_most, size_limit};
use crate::selection::{SelectionCoordinate, SelectionRange};
use crate::text::{decimal, push_decimal, push_signed_decimal, signed_decimal};
use vstd::prelude::*;

verus! {

/// The first of the segments that does not end before `x`, where it does not start
/// after `x` either. The segments are the bytes where each starts and their number.
pub open spec fn word_at(segments: Seq<(usize, usize)>, x: int) -> Option<(usize, usize)>
    decreases segments.len(),
{
    if segments.len() == 0 || x < segments[0].0 {
        None
    } else if x <= segments[0].0 + segments[0].1 {
        Some(segments[0])
    } else {
        word_at(segments.drop_first(), x)
    }
}

/// Where the segments make up the text from `start` up to `end`, a segment is found
/// for every `x` in it, and it has `x` in it or ends before it.
pub proof fn law_word_at(segments: Seq<(usize, usize)>, start: int, end: int, x: int)
    requires
        tiles(segments, start, end),
        start <= x <= end,
        start < end,
    ensures
        word_at(segments, x) matches Some(word) && word.0 <= x <= word.0 + word.1 && start <= word.0
            && word.0 + word.1 <= end,
    decreases segments.len(),
{
    lemma_tiles_grow(segments, start, end);
    let next = start + segments[0].1;
    if x <= next {
        lemma_tiles_grow(segments.drop_first(), next, end);
    } else {
        law_word_at(segments.drop_first(), next, end, x);
    }
}

/// The segment that is found is one of those given. It starts before `x` and does not end
/// before it, but for the first, which is also found where it starts. Past the end
/// nothing is found.
pub proof fn law_word_at_place(segments: Seq<(usize, usize)>, start: int, end: int, x: int)
    requires
        tiles(segments, start, end),
        start <= x,
    ensures
        word_at(segments, x) matches Some(word) ==> {
            &&& x <= end
            &&& word.0 + word.1 >= x
            &&& if x == start {
                word.0 == start
            } else {
                word.0 < x
            }
            &&& exists|i: int| 0 <= i < segments.len() && #[trigger] segments[i] == word
        },
        word_at(segments, x) is None ==> x > end || start == end,
    decreases segments.len(),
{
    lemma_tiles_grow(segments, start, end);
    if segments.len() > 0 {
        let next = start + segments[0].1;
        let rest = segments.drop_first();
        lemma_tiles_grow(rest, next, end);
        if x > next {
            law_word_at_place(rest, next, end, x);
            if let Some(word) = word_at(rest, x) {
                let i = choose|i: int| 0 <= i < rest.len() && #[trigger] rest[i] == word;
                assert(segments[i + 1] == word);
            }
        } else {
            assert(segments[0] == word_at(segments, x)->Some_0);
        }
    }
}

proof fn lemma_tiles_grow(segments: Seq<(usize, usize)>, start: int, end: int)
    requires
        tiles(segments, start, end),
    ensures
        start <= end,
        start < end ==> segments.len() > 0,
    decreases segments.len(),
{
    if segments.len() > 0 {
        lemma_tiles_grow(segments.drop_first(), start + segments[0].1, end);
    }
}

/// The first of the segments that does not end before `x`, where it does not start
/// after `x` either.
pub fn find_word(segments: &Vec<(usize, usize)>, x: usize) -> (word: Option<(usize, usize)>)
    requires
        forall|i: int|
            0 <= i < segments@.len() ==> (#[trigger] segments@[i]).0 + segments@[i].1 <= usize::MAX,
    ensures
        word == word_at(segments@, x as int),
        word matches Some(w) ==> exists|i: int|
            0 <= i < segments@.len() && w == #[trigger] segments@[i],
{
    let mut i: usize = 0;
    assert(segments@.skip(0) =~= segments@);
    while i < segments.len()
        invariant
            i <= segments@.len(),
            forall|j: int|
                0 <= j < segments@.len() ==> (#[trigger] segments@[j]).0 + segments@[j].1
                    <= usize::MAX,
            word_at(segments@, x as int) == word_at(segments@.skip(i as int), x as int),
        decreases segments@.len() - i,
    {
        let word = segments[i];
        assert(segments@.skip(i as int)[0] == segments@[i as int]);
        if x < word.0 {
            return None;
        }
        if x <= word.0 + word.1 {
            return Some(word);
        }
        assert(segments@.skip(i as int).drop_first() =~= segments@.skip(i + 1));
        i += 1;
    }
    None
}

/// A report of the mouse: the button, and the cell counted from one.
pub open spec fn mouse_report(button: nat, x: int, y: int, last: char) -> Seq<char> {
    seq!['\x1b', '[', '<'] + decimal(button) + seq![';'] + decimal((x + 1) as nat) + seq![';']
        + signed_decimal(y + 1) + seq![last]
}

fn write_mouse_report(button: u64, x: usize, y: i64, last: char) -> (text: String)
    requires
        x < usize::MAX,
        y < i64::MAX,
    ensures
        text@ == mouse_report(button as nat, x as int, y as int, last),
{
    let mut text = String::new();
    text.push('\x1b');
    text.push('[');
    text.push('<');
    push_decimal(&mut text, button);
    text.push(';');
    push_decimal(&mut text, (x + 1) as u64);
    text.push(';');
    push_signed_decimal(&mut text, y + 1);
    text.push(last);
    assert(text@ =~= mouse_report(button as nat, x as int, y as int, last));
    text
}

/// The number of a button in a report of a press.
pub open spec fn press_number(button: MouseButton) -> Option<nat> {
    match button {
        MouseButton::Left => Some(0),
        MouseButton::Middle => Some(1),
        MouseButton::Right => Some(2),
        _ => None,
    }
}

impl TerminalModel {
    /// The event with its cell on the screen: beyond the right or the bottom it is
    /// the last column or row.
    pub open spec fn clamp_event(self, event: MouseEvent) -> MouseEvent {
        MouseEvent {
            x: at_most(event.x as int, self.cols() - 1) as usize,
            y: at_most(event.y as int, self.rows() - 1) as i64,
            ..event
        }
    }

    /// The terminal with the mouse over a cell.
    pub open spec fn mouse_at(self, to: Place) -> TerminalModel {
        if to != self.mouse_position {
            TerminalModel { mouse_position: to, ..self }.recompute_highlight()
        } else {
            self
        }
    }

    /// The terminal after a press of a button was counted.
    pub open spec fn count_click(self, button: MouseButton, now: u64) -> TerminalModel {
        TerminalModel {
            last_mouse_click: Some(
                match self.last_mouse_click {
                    None => LastMouseClick::single(button, now),
                    Some(click) => click.followed_by(button, now),
                },
            ),
            ..self
        }
    }

    /// How many clicks of one button have come in quick succession.
    pub open spec fn streak(self) -> int {
        match self.last_mouse_click {
            Some(click) => click.streak as int,
            None => 0,
        }
    }

    /// The row of the screen or its scrollback that the viewport shows in row `y`, or
    /// the first that can be told.
    pub open spec fn shown_row(self, y: int) -> i64 {
        at_least(y - self.viewport, i64::MIN as int) as i64
    }

    /// The terminal ready to select from a cell on when the mouse is dragged.
    pub open spec fn start_selection(self, from: SelectionCoordinate) -> TerminalModel {
        TerminalModel { selection_range: None, selection_start: Some(from), ..self }
    }

    /// The terminal with a selection and where it was started; its lines are dirty.
    pub open spec fn select(self, from: SelectionCoordinate, range: SelectionRange) -> TerminalModel {
        TerminalModel {
            selection_start: Some(from),
            selection_range: Some(range),
            ..self
        }.dirty_selection()
    }

    /// The terminal with the word at column `x` of a row selected, and what is to be
    /// done. The segments are those of the text of the row.
    pub open spec fn select_word(self, x: usize, row: i64, segments: Seq<(usize, usize)>) -> (
        TerminalModel,
        HostModel,
    ) {
        match word_at(segments, x as int) {
            Some(word) => {
                let from = SelectionCoordinate { x: word.0, y: row };
                let to = SelectionCoordinate { x: (word.0 + word.1 - 1) as usize, y: row };
                let selected = self.select(from, SelectionRange { start: from, end: to });
                (selected, HostModel::SetClipboard(Some(selected.selection_text())))
            },
            None => (self.without_selection(), HostModel::SetClipboard(None)),
        }
    }

    /// The terminal with a row selected, and what is to be done.
    pub open spec fn select_line(self, x: usize, row: i64) -> (TerminalModel, HostModel) {
        let selected = self.select(
            SelectionCoordinate { x, y: row },
            SelectionRange {
                start: SelectionCoordinate { x: 0, y: row },
                end: SelectionCoordinate { x: usize::MAX, y: row },
            },
        );
        (selected, HostModel::SetClipboard(Some(selected.selection_text())))
    }

    /// The text of a row of the screen or its scrollback.
    pub open spec fn row_text(self, row: int) -> Seq<char> {
        cells_text(self.active().lines[self.active().phys_or_first(row)].cells)
    }

    /// The terminal with the left button down, and the selected lines dirty.
    pub open spec fn grab(self) -> TerminalModel {
        TerminalModel { current_mouse_button: MouseButton::Left, ..self }.dirty_selection()
    }

    /// The terminal after a press of the left button in a cell, and what is to be
    /// done: one click starts a selection, two select a word, three a line.
    pub open spec fn press_left(self, x: usize, y: i64) -> (TerminalModel, HostModel) {
        let m = self.grab();
        let row = self.shown_row(y as int);
        if self.streak() == 1 {
            (
                m.start_selection(SelectionCoordinate { x, y: row }),
                HostModel::SetClipboard(None),
            )
        } else if self.streak() == 2 {
            m.select_word(x, row, word_bounds(m.row_text(row as int)))
        } else if self.streak() == 3 {
            m.select_line(x, row)
        } else {
            (m.without_selection(), HostModel::SetClipboard(None))
        }
    }

    /// What is to be done when the left button is released after one click: the
    /// selected text goes to the clipboard; where nothing is selected, a link under
    /// the mouse is followed.
    pub open spec fn release_action(self) -> HostModel {
        if self.selection_text().len() > 0 {
            HostModel::SetClipboard(Some(self.selection_text()))
        } else {
            match self.current_highlight {
                Some(link) => HostModel::ClickLink(link),
                None => HostModel::Nothing,
            }
        }
    }

    /// Where the selection starts, or is to start when the mouse is dragged to a cell.
    pub open spec fn drag_start(self, to: SelectionCoordinate) -> SelectionCoordinate {
        match self.selection_range {
            Some(sel) => sel.start,
            None => match self.selection_start {
                Some(start) => start,
                None => to,
            },
        }
    }

    /// The terminal with another selection; its lines are dirty.
    pub open spec fn reselect(self, range: SelectionRange) -> TerminalModel {
        TerminalModel { selection_range: Some(range), ..self }.dirty_selection()
    }

    /// The terminal with its selection dragged to a cell. The lines that were selected
    /// and those that are then are dirty.
    pub open spec fn drag(self, to: SelectionCoordinate) -> TerminalModel {
        self.dirty_selection().reselect(SelectionRange { start: self.drag_start(to), end: to })
    }

    /// The terminal after an event that selects, and what is to be done; `None` for an
    /// event that does not select.
    pub open spec fn selecting_event(self, event: MouseEvent) -> Option<
        (TerminalModel, HostModel),
    > {
        match (event.kind, event.button) {
            (MouseEventKind::Press, MouseButton::Left) => Some(
                self.press_left(event.x, event.y),
            ),
            (MouseEventKind::Release, MouseButton::Left) => if self.streak() == 1 {
                Some(
                    (
                        TerminalModel { current_mouse_button: MouseButton::NoButton, ..self },
                        self.release_action(),
                    ),
                )
            } else {
                None
            },
            (MouseEventKind::Move, _) => if self.current_mouse_button == MouseButton::Left {
                Some(
                    (
                        self.drag(
                            SelectionCoordinate { x: event.x, y: self.shown_row(event.y as int) },
                        ),
                        HostModel::Nothing,
                    ),
                )
            } else {
                None
            },
            _ => None,
        }
    }

    /// A report of an event where the program in the terminal has asked for reports.
    pub open spec fn report(self, button: nat, event: MouseEvent, last: char) -> HostModel {
        if self.sgr_mouse {
            HostModel::Report(mouse_report(button, event.x as int, event.y as int, last))
        } else {
            HostModel::Nothing
        }
    }

    /// The terminal after the wheel was turned, and what is to be done. Without
    /// reports the alternate screen gets cursor keys, and the primary screen scrolls.
    pub open spec fn wheel(self, up: bool, event: MouseEvent) -> (TerminalModel, HostModel) {
        let key = if up {
            KeyCode::Up
        } else {
            KeyCode::Down
        };
        if self.sgr_mouse {
            (
                self,
                self.report(
                    if up {
                        64
                    } else {
                        65
                    },
                    event,
                    'M',
                ),
            )
        } else if self.alt_screen_is_active {
            let after = self.key_down(key, KeyModifiers::no_modifiers());
            (
                after.0,
                match after.1 {
                    Ok(action) => action,
                    Err(_) => HostModel::Nothing,
                },
            )
        } else {
            (
                self.scroll_viewport(
                    if up {
                        -1
                    } else {
                        1
                    },
                ),
                HostModel::Nothing,
            )
        }
    }

    /// The terminal after an event that is reported to the program in it, and what is
    /// to be done.
    pub open spec fn reported_event(self, event: MouseEvent) -> (TerminalModel, HostModel) {
        match event.kind {
            MouseEventKind::Press => if event.button == MouseButton::WheelUp {
                self.wheel(true, event)
            } else if event.button == MouseButton::WheelDown {
                self.wheel(false, event)
            } else {
                (
                    TerminalModel { current_mouse_button: event.button, ..self },
                    match press_number(event.button) {
                        Some(number) => if !self.sgr_mouse && event.button
                            == MouseButton::Middle {
                            HostModel::PasteReport
                        } else {
                            self.report(number, event, 'M')
                        },
                        None => HostModel::Nothing,
                    },
                )
            },
            MouseEventKind::Release => (
                TerminalModel { current_mouse_button: MouseButton::NoButton, ..self },
                self.report(3, event, 'm'),
            ),
            MouseEventKind::Move => (
                self,
                match press_number(self.current_mouse_button) {
                    Some(number) => if self.button_event_mouse {
                        self.report(32 + number, event, 'M')
                    } else {
                        HostModel::Nothing
                    },
                    None => HostModel::Nothing,
                },
            ),
        }
    }

    /// The terminal with the mouse where an event has it, and a press counted.
    pub open spec fn track_mouse(self, event: MouseEvent, now: u64) -> TerminalModel {
        let m = self.mouse_at(Place { x: event.x as int, y: event.y as int });
        if event.kind == MouseEventKind::Press {
            m.count_click(event.button, now)
        } else {
            m
        }
    }

    /// The terminal after a mouse event at a time, and what is to be done. An event
    /// selects unless the program in the terminal has asked for reports and shift is
    /// not held.
    pub open spec fn mouse_event(self, event: MouseEvent, now: u64) -> (TerminalModel, HostModel) {
        let e = self.clamp_event(event);
        let m = self.track_mouse(e, now);
        let selected = m.selecting_event(e);
        if !(self.sgr_mouse && !e.modifiers.shift) && selected is Some {
            selected.unwrap()
        } else {
            m.reported_event(e)
        }
    }
}

impl TerminalState {
    fn mouse_at(&mut self, to: CursorPosition)
        requires
            old(self)@.wf(),
            to.y <= size_limit(),
        ensures
            final(self)@ == old(self)@.mouse_at(to@),
            final(self)@.rows() == old(self)@.rows(),
            final(self)@.wf(),
    {
        if to != self.mouse_position {
            self.mouse_position = to;
            self.recompute_highlight();
        }
    }

    fn count_click(&mut self, button: MouseButton, now: u64)
        requires
            old(self)@.wf(),
        ensures
            final(self)@ == old(self)@.count_click(button, now),
            final(self)@.wf(),
    {
        let click = match self.last_mouse_click {
            None => LastMouseClick::new(button, now),
            Some(click) => click.add(button, now),
        };
        self.last_mouse_click = Some(click);
    }

    fn streak(&self) -> (streak: usize)
        ensures
            streak == self@.streak(),
    {
        match self.last_mouse_click {
            Some(click) => click.streak,
            None => 0,
        }
    }

    fn select(&mut self, from: SelectionCoordinate, range: SelectionRange)
        requires
            old(self)@.wf(),
            from.y < old(self)@.rows(),
            range.last_row() < old(self)@.rows(),
        ensures
            final(self)@ == old(self)@.select(from, range),
            final(self)@.wf(),
    {
        self.selection_start = Some(from);
        self.selection_range = Some(range);
        self.dirty_selection_lines();
    }

    /// Selects the word at column `x` of a row, where the segments of the text of the
    /// row are given, and puts it into the clipboard.
    pub fn select_word(&mut self, x: usize, row: i64, segments: &Vec<(usize, usize)>) -> (action:
        HostAction)
        requires
            old(self)@.wf(),
            row < old(self)@.rows(),
            forall|i: int|
                0 <= i < segments@.len() ==> (#[trigger] segments@[i]).1 > 0 && segments@[i].0
                    + segments@[i].1 <= usize::MAX,
        ensures
            final(self)@ == old(self)@.select_word(x, row, segments@).0,
            action@ == old(self)@.select_word(x, row, segments@).1,
            final(self)@.wf(),
    {
        match find_word(segments, x) {
            Some((start, len)) => {
                let from = SelectionCoordinate { x: start, y: row };
                let to = SelectionCoordinate { x: start + len - 1, y: row };
                self.select(from, SelectionRange { start: from, end: to });
                let text = self.get_selection_text();
                HostAction::SetClipboard(Some(text))
            },
            None => {
                self.deselect();
                HostAction::SetClipboard(None)
            },
        }
    }

    fn select_line(&mut self, x: usize, row: i64) -> (action: HostAction)
        requires
            old(self)@.wf(),
            row < old(self)@.rows(),
        ensures
            final(self)@ == old(self)@.select_line(x, row).0,
            action@ == old(self)@.select_line(x, row).1,
            final(self)@.wf(),
    {
        self.select(
            SelectionCoordinate { x, y: row },
            SelectionRange {
                start: SelectionCoordinate { x: 0, y: row },
                end: SelectionCoordinate { x: usize::MAX, y: row },
            },
        );
        let text = self.get_selection_text();
        HostAction::SetClipboard(Some(text))
    }

    /// The text of the line in a row.
    fn row_text(&self, row: i64) -> (text: String)
        requires
            self@.wf(),
            row < self@.rows(),
        ensures
            text@ == self@.row_text(row as int),
    {
        let screen = self.screen();
        let idx: usize = screen.scrollback_or_visible_row(row);
        assert(screen.lines@.len() == screen@.lines.len());
        screen.lines[idx].as_str()
    }

    fn grab(&mut self)
        requires
            old(self)@.wf(),
        ensures
            final(self)@ == old(self)@.grab(),
            final(self)@.wf(),
            final(self)@.rows() == old(self)@.rows(),
    {
        self.current_mouse_button = MouseButton::Left;
        self.dirty_selection_lines();
    }

    fn start_selection(&mut self, from: SelectionCoordinate)
        requires
            old(self)@.wf(),
            from.y < old(self)@.rows(),
        ensures
            final(self)@ == old(self)@.start_selection(from),
            final(self)@.wf(),
    {
        self.selection_range = None;
        self.selection_start = Some(from);
    }

    fn deselect(&mut self)
        requires
            old(self)@.wf(),
        ensures
            final(self)@ == old(self)@.without_selection(),
            final(self)@.wf(),
    {
        self.selection_range = None;
        self.selection_start = None;
    }

    /// The row of the screen or its scrollback that the viewport shows in row `y`, or
    /// the first that can be told.
    pub(super) fn shown_row(&self, y: i64) -> (row: i64)
        requires
            self@.wf_core(),
            y <= size_limit(),
        ensures
            row == self@.shown_row(y as int),
    {
        if y >= i64::MIN + self.viewport_offset {
            y - self.viewport_offset
        } else {
            i64::MIN
        }
    }

    fn press_left(&mut self, x: usize, y: i64) -> (action: HostAction)
        requires
            old(self)@.wf(),
            y < old(self)@.rows(),
        ensures
            final(self)@ == old(self)@.press_left(x, y).0,
            action@ == old(self)@.press_left(x, y).1,
            final(self)@.wf(),
    {
        let row: i64 = self.shown_row(y);
        let streak: usize = self.streak();
        self.grab();
        if streak == 1 {
            // Prepare to start a new selection.
            // We don't form the selection until the mouse drags.
            self.start_selection(SelectionCoordinate { x, y: row });
            HostAction::SetClipboard(None)
        } else if streak == 2 {
            // Double click to select a word on the current line
            let text = self.row_text(row);
            let segments = split_word_bound_indices(text.as_str());
            self.select_word(x, row, &segments)
        } else if streak == 3 {
            // triple click to select the current line
            self.select_line(x, row)
        } else {
            // otherwise, clear out the selection
            self.deselect();
            HostAction::SetClipboard(None)
        }
    }

    fn release_action(&self) -> (action: HostAction)
        requires
            self@.wf(),
        ensures
            action@ == self@.release_action(),
    {
        let text = self.get_selection_text();
        if !text.as_str().is_empty() {
            HostAction::SetClipboard(Some(text))
        } else {
            // If the button release wasn't a drag, consider
            // whether it was a click on a hyperlink
            match self.current_highlight() {
                Some(link) => HostAction::ClickLink(link),
                None => HostAction::Nothing,
            }
        }
    }

    fn reselect(&mut self, range: SelectionRange)
        requires
            old(self)@.wf(),
            range.last_row() < old(self)@.rows(),
        ensures
            final(self)@ == old(self)@.reselect(range),
            final(self)@.wf(),
    {
        self.selection_range = Some(range);
        self.dirty_selection_lines();
    }

    /// The selection that dragging the mouse to a cell makes.
    fn dragged(&self, to: SelectionCoordinate) -> (range: SelectionRange)
        ensures
            range == (SelectionRange { start: self@.drag_start(to), end: to }),
    {
        match self.selection_range {
            None => {
                let start = match self.selection_start {
                    Some(start) => start,
                    None => to,
                };
                SelectionRange::start(start).extend(to)
            },
            Some(sel) => sel.extend(to),
        }
    }

    fn drag(&mut self, to: SelectionCoordinate)
        requires
            old(self)@.wf(),
            to.y < old(self)@.rows(),
        ensures
            final(self)@ == old(self)@.drag(to),
            final(self)@.wf(),
    {
        let range = self.dragged(to);
        self.dirty_selection_lines();
        // Dirty lines again to reflect new range
        self.reselect(range);
    }

    #[verifier::rlimit(30)]
    fn selecting_event(&mut self, event: MouseEvent) -> (action: Option<HostAction>)
        requires
            old(self)@.wf(),
            event.y < old(self)@.rows(),
        ensures
            match old(self)@.selecting_event(event) {
                Some((after, todo)) => {
                    &&& action matches Some(a)
                    &&& a@ == todo
                    &&& final(self)@ == after
                },
                None => action is None && final(self)@ == old(self)@,
            },
            final(self)@.wf(),
    {
        match (event.kind, event.button) {
            (MouseEventKind::Press, MouseButton::Left) => {
                let action = self.press_left(event.x, event.y);
                Some(action)
            },
            (MouseEventKind::Release, MouseButton::Left) => {
                // Only consider a drag selection if we have a streak==1.
                // The double/triple click cases are handled above.
                if self.streak() == 1 {
                    // Finish selecting a region, update clipboard
                    let action = self.release_action();
                    self.current_mouse_button = MouseButton::NoButton;
                    Some(action)
                } else {
                    None
                }
            },
            (MouseEventKind::Move, _) => {
                if self.current_mouse_button == MouseButton::Left {
                    // dragging out the selection region
                    let y: i64 = self.shown_row(event.y);
                    self.drag(SelectionCoordinate { x: event.x, y });
                    Some(HostAction::Nothing)
                } else {
                    None
                }
            },
            _ => None,
        }
    }

    fn report(&self, button: u64, event: MouseEvent, last: char) -> (action: HostAction)
        requires
            event.x < usize::MAX,
            event.y < i64::MAX,
        ensures
            action@ == self@.report(button as nat, event, last),
    {
        if self.sgr_mouse {
            HostAction::Report(write_mouse_report(button, event.x, event.y, last))
        } else {
            HostAction::Nothing
        }
    }

    fn wheel(&mut self, up: bool, event: MouseEvent) -> (action: HostAction)
        requires
            old(self)@.wf(),
            event.x < usize::MAX,
            event.y < i64::MAX,
        ensures
            final(self)@ == old(self)@.wheel(up, event).0,
            action@ == old(self)@.wheel(up, event).1,
            final(self)@.wf(),
    {
        if self.sgr_mouse {
            self.report(
                if up {
                    64
                } else {
                    65
                },
                event,
                'M',
            )
        } else if self.alt_screen_is_active {
            // Send cursor keys instead (equivalent to xterm's alternateScroll mode)
            let key = if up {
                KeyCode::Up
            } else {
                KeyCode::Down
            };
            match self.key_down(key, KeyModifiers::default()) {
                Ok(action) => action,
                Err(_) => HostAction::Nothing,
            }
        } else {
            self.scroll_viewport(
                if up {
                    -1
                } else {
                    1
                },
            );
            HostAction::Nothing
        }
    }

    fn reported_event(&mut self, event: MouseEvent) -> (action: HostAction)
        requires
            old(self)@.wf(),
            event.x < usize::MAX,
            event.y < i64::MAX,
        ensures
            final(self)@ == old(self)@.reported_event(event).0,
            action@ == old(self)@.reported_event(event).1,
            final(self)@.wf(),
    {
        match event.kind {
            MouseEventKind::Press => match event.button {
                MouseButton::WheelUp => self.wheel(true, event),
                MouseButton::WheelDown => self.wheel(false, event),
                button => {
                    self.current_mouse_button = button;
                    match button {
                        MouseButton::Left => self.report(0, event, 'M'),
                        MouseButton::Middle => {
                            if self.sgr_mouse {
                                self.report(1, event, 'M')
                            } else {
                                HostAction::PasteReport
                            }
                        },
                        MouseButton::Right => self.report(2, event, 'M'),
                        _ => HostAction::Nothing,
                    }
                },
            },
            MouseEventKind::Release => {
                self.current_mouse_button = MouseButton::NoButton;
                self.report(3, event, 'm')
            },
            MouseEventKind::Move => {
                if !self.button_event_mouse {
                    HostAction::Nothing
                } else {
                    match self.current_mouse_button {
                        MouseButton::Left => self.report(32, event, 'M'),
                        MouseButton::Middle => self.report(33, event, 'M'),
                        MouseButton::Right => self.report(34, event, 'M'),
                        _ => HostAction::Nothing,
                    }
                }
            },
        }
    }

    /// The event with its cell on the screen.
    fn clamp_event(&self, event: MouseEvent) -> (clamped: MouseEvent)
        requires
            self@.wf(),
        ensures
            clamped == self@.clamp_event(event),
            clamped.x < self@.cols(),
            clamped.y < self@.rows(),
    {
        let rows: i64 = self.screen().physical_rows as i64;
        let cols: usize = self.screen().physical_cols;
        let y: i64 = if event.y < rows - 1 {
            event.y
        } else {
            rows - 1
        };
        let x: usize = if event.x < cols - 1 {
            event.x
        } else {
            cols - 1
        };
        MouseEvent { kind: event.kind, x, y, button: event.button, modifiers: event.modifiers }
    }

    fn track_mouse(&mut self, event: MouseEvent, now: u64)
        requires
            old(self)@.wf(),
            event.y < old(self)@.rows(),
        ensures
            final(self)@ == old(self)@.track_mouse(event, now),
            final(self)@.rows() == old(self)@.rows(),
            final(self)@.wf(),
    {
        // Remember the last reported mouse position so that we can use it
        // for highlighting clickable things elsewhere.
        self.mouse_at(CursorPosition { x: event.x, y: event.y });

        // Perform click counting
        if event.kind == MouseEventKind::Press {
            self.count_click(event.button, now);
        }
    }

    /// Processes an event of the mouse at a time in milliseconds: moves the highlight,
    /// selects, scrolls, or reports the event to the program in the terminal.
    pub fn mouse_event(&mut self, event: MouseEvent, now: u64) -> (action: HostAction)
        requires
            old(self)@.wf(),
        ensures
            final(self)@ == old(self)@.mouse_event(event, now).0,
            action@ == old(self)@.mouse_event(event, now).1,
            final(self)@.wf(),
    {
        // Clamp the mouse coordinates to the size of the model.
        // This situation can trigger for example when the
        // window is resized and leaves a partial row at the bottom of the
        // terminal.  The mouse can move over that portion and the gui layer
        // can thus send us out-of-bounds row or column numbers.  We want to
        // make sure that we clamp this and handle it nicely at the model layer.
        let event = self.clamp_event(event);

        // First pass to figure out if we're messing with the selection
        let send_event = self.sgr_mouse && !event.modifiers.shift;

        self.track_mouse(event, now);
        if !send_event {
            if let Some(action) = self.selecting_event(event) {
                return action;
            }
        }
        self.reported_event(event)
    }
}

} // verus!
