//! The actions of control sequences.
use super::laws::{
    entered_alt_screen, law_enter_alt_screen, law_leave_alt_screen, left_alt_screen,
};
use super::model::{column_number, Place, TerminalModel};
use super::TerminalState;
use crate::attributes::{link_view, AttrModel, CellAttributes, Hyperlink, LinkModel, Rendition};
use crate::cell::CellModel;
use crate::escape::{
    Cursor, DecPrivateMode, DecPrivateModeCode, Device, Edit, EraseInDisplay, EraseInLine, Mode,
    Position, Sgr,
};
use crate::host::{HostAction, HostModel};
use crate::range::{in_range, within};
use crate::screen::{at_least, at_most};
use crate::text::{decimal, push_decimal};
use vstd::prelude::*;

verus! {

/// The rendition after a change of it.
pub open spec fn rendered(r: Rendition, sgr: Sgr) -> Rendition {
    match sgr {
        Sgr::Reset => Rendition::plain(),
        Sgr::Intensity(intensity) => Rendition { intensity, ..r },
        Sgr::Underline(underline) => Rendition { underline, ..r },
        Sgr::Blink(blink) => Rendition { blink, ..r },
        Sgr::Italic(italic) => Rendition { italic, ..r },
        Sgr::Inverse(reverse) => Rendition { reverse, ..r },
        Sgr::Invisible(invisible) => Rendition { invisible, ..r },
        Sgr::StrikeThrough(strikethrough) => Rendition { strikethrough, ..r },
        Sgr::Font(_) => r,
        Sgr::Foreground(foreground) => Rendition { foreground, ..r },
        Sgr::Background(background) => Rendition { background, ..r },
    }
}

/// The mode that shows the alternate screen, or the primary one.
pub open spec fn alt_screen_mode(enter: bool) -> Mode {
    let mode = DecPrivateMode::Code(DecPrivateModeCode::ClearAndEnableAlternateScreen);
    if enter {
        Mode::SetDecPrivateMode(mode)
    } else {
        Mode::ResetDecPrivateMode(mode)
    }
}

/// A row or column that is counted from one, counted from zero.
pub open spec fn from_zero(n: u32) -> int {
    n - 1
}

/// The low 32 bits of a number.
pub open spec fn low_bits(n: int) -> int {
    n % 0x1_0000_0000
}

/// The report of where the cursor is, counted from one, in 32 bits.
pub open spec fn position_report(cursor: Place) -> Seq<char> {
    seq!['\x1b', '['] + decimal((low_bits(cursor.y) + 1) as nat) + seq![';'] + decimal(
        (low_bits(cursor.x) + 1) as nat,
    ) + seq!['R']
}

/// Whether the report of where the cursor is fits in 32 bits.
pub open spec fn reportable(cursor: Place) -> bool {
    low_bits(cursor.y) < u32::MAX && low_bits(cursor.x) < u32::MAX
}

impl TerminalModel {
    // Modes

    /// The terminal with the alternate screen shown, erased, its cursor at the top
    /// left; where the cursor was is saved.
    pub open spec fn enter_alt_screen(self) -> TerminalModel {
        if self.alt_screen_is_active {
            self
        } else {
            self.save_cursor().show_screen(true).cursor_to(0, 0).erase_in_display(
                EraseInDisplay::EraseDisplay,
            ).set_scroll_viewport(0)
        }
    }

    /// The terminal with the primary screen shown, and its cursor where it was saved.
    pub open spec fn leave_alt_screen(self) -> TerminalModel {
        if self.alt_screen_is_active {
            self.show_screen(false).restore_cursor().set_scroll_viewport(0)
        } else {
            self
        }
    }

    pub open spec fn show_screen(self, alt: bool) -> TerminalModel {
        TerminalModel { alt_screen_is_active: alt, ..self }
    }

    pub open spec fn set_mode(self, code: DecPrivateModeCode, on: bool) -> TerminalModel {
        match code {
            DecPrivateModeCode::BracketedPaste => TerminalModel { bracketed_paste: on, ..self },
            DecPrivateModeCode::ApplicationCursorKeys => TerminalModel {
                application_cursor_keys: on,
                ..self
            },
            DecPrivateModeCode::ShowCursor => TerminalModel { cursor_visible: on, ..self },
            DecPrivateModeCode::ButtonEventMouse => TerminalModel {
                button_event_mouse: on,
                ..self
            },
            DecPrivateModeCode::SGRMouse => TerminalModel { sgr_mouse: on, ..self },
            DecPrivateModeCode::ClearAndEnableAlternateScreen => if on {
                self.enter_alt_screen()
            } else {
                self.leave_alt_screen()
            },
            DecPrivateModeCode::StartBlinkingCursor => self,
            DecPrivateModeCode::MouseTracking => self,
            DecPrivateModeCode::HighlightMouseTracking => self,
            DecPrivateModeCode::AnyEventMouse => self,
        }
    }

    pub open spec fn csi_mode(self, mode: Mode) -> TerminalModel {
        match mode {
            Mode::SetDecPrivateMode(DecPrivateMode::Code(code)) => self.set_mode(code, true),
            Mode::ResetDecPrivateMode(DecPrivateMode::Code(code)) => self.set_mode(code, false),
            _ => self,
        }
    }

    // Editing

    /// The column after the `n` columns from the cursor on, or after the last column.
    pub open spec fn edit_limit(self, n: u32) -> int {
        at_most(self.cursor.x + n, self.cols())
    }

    /// The number of columns from the cursor up to the limit.
    pub open spec fn edit_count(self, n: u32) -> int {
        at_least(self.edit_limit(n) - self.cursor.x, 0)
    }

    pub open spec fn erase_cells(self, count: int) -> TerminalModel {
        self.with_active(self.active().erase_cells(self.cursor.x, self.cursor.y, count))
    }

    pub open spec fn delete_characters(self, n: u32) -> TerminalModel {
        self.erase_cells(self.edit_count(n)).deselect_cols(
            self.cursor.x,
            self.edit_limit(n),
            self.cursor.y,
        )
    }

    pub open spec fn insert_cells(self, count: int) -> TerminalModel {
        self.with_active(self.active().insert_cells(self.cursor.x, self.cursor.y, count))
    }

    pub open spec fn insert_characters(self, n: u32) -> TerminalModel {
        self.insert_cells(self.edit_count(n)).deselect_cols(
            self.cursor.x,
            self.edit_limit(n),
            self.cursor.y,
        )
    }

    /// The terminal with spaces in some columns of the row where the cursor is. The
    /// selection goes where it has one of them.
    pub open spec fn clear_cols(self, start: int, end: int, attrs: AttrModel) -> TerminalModel {
        self.with_active(
            self.active().fill_row(self.cursor.y, start, end, CellModel::space(attrs)),
        ).deselect_cols(start, end, self.cursor.y)
    }

    pub open spec fn erase_in_line(self, erase: EraseInLine) -> TerminalModel {
        let attrs = self.pen.sgr_only();
        match erase {
            EraseInLine::EraseToEndOfLine => self.clear_cols(self.cursor.x, self.cols(), attrs),
            EraseInLine::EraseToStartOfLine => self.clear_cols(0, self.cursor.x, attrs),
            EraseInLine::EraseLine => self.clear_cols(0, self.cols(), attrs),
        }
    }

    /// The terminal with the lines from the cursor to the end of the scroll region
    /// scrolled up.
    pub open spec fn delete_lines_here(self, count: int) -> TerminalModel {
        self.with_active(self.active().scrolled_up(self.cursor_row(), self.region_end, count))
    }

    /// The terminal with the lines from the cursor to the end of the scroll region
    /// scrolled down.
    pub open spec fn insert_lines_here(self, count: int) -> TerminalModel {
        self.with_active(self.active().scrolled_down(self.cursor_row(), self.region_end, count))
    }

    /// The terminal with `n` lines taken out at the cursor, and the lines below them in
    /// the scroll region moved up.
    pub open spec fn delete_lines(self, n: u32) -> TerminalModel {
        if within(self.cursor.y, self.region_start, self.region_end) {
            self.delete_lines_here(n as int).deselect_rows(self.cursor.y, self.region_end)
        } else {
            self
        }
    }

    /// The terminal with `n` lines put in at the cursor, and the lines below it in the
    /// scroll region moved down.
    pub open spec fn insert_lines(self, n: u32) -> TerminalModel {
        if within(self.cursor.y, self.region_start, self.region_end) {
            self.insert_lines_here(n as int).deselect_rows(self.cursor.y, self.region_end)
        } else {
            self
        }
    }

    pub open spec fn csi_edit(self, edit: Edit) -> TerminalModel {
        match edit {
            Edit::DeleteCharacter(n) => self.delete_characters(n),
            Edit::DeleteLine(n) => self.delete_lines(n),
            Edit::EraseCharacter(n) => self.clear_cols(
                self.cursor.x,
                self.edit_limit(n),
                AttrModel::plain(),
            ),
            Edit::EraseInLine(erase) => self.erase_in_line(erase),
            Edit::InsertCharacter(n) => self.insert_characters(n),
            Edit::InsertLine(n) => self.insert_lines(n),
            Edit::ScrollDown(n) => self.scroll_down(n as int),
            Edit::ScrollUp(n) => self.scroll_up(n as int),
            Edit::EraseInDisplay(erase) => self.erase_in_display(erase),
        }
    }

    /// Whether the terminal can do the edit: a cursor that is in no column has no
    /// columns after it or before it.
    pub open spec fn accepts_edit(self, edit: Edit) -> bool {
        match edit {
            Edit::DeleteCharacter(n) => n == 0 || self.has_column(),
            Edit::EraseCharacter(n) => n == 0 || self.has_column(),
            Edit::InsertCharacter(n) => n == 0 || self.has_column(),
            Edit::EraseInLine(EraseInLine::EraseToStartOfLine) => self.has_column(),
            _ => true,
        }
    }

    // Cursor

    pub open spec fn with_region(self, first: int, last: int) -> TerminalModel {
        TerminalModel { region_start: first, region_end: last + 1, ..self }
    }

    /// The terminal with other margins, counted from one, whichever comes first; the
    /// last row bounds them.
    pub open spec fn set_margins(self, top: u32, bottom: u32) -> TerminalModel {
        let a = at_most(from_zero(top), self.rows() - 1);
        let b = at_most(from_zero(bottom), self.rows() - 1);
        self.with_region(at_most(a, b), at_least(a, b))
    }

    /// The terminal with its cursor moved by a distance, but not past the left or the
    /// top.
    pub open spec fn move_cursor(self, dx: int, dy: int) -> TerminalModel {
        self.cursor_to(
            at_least(column_number(self.cursor.x) + dx, 0),
            at_least(self.cursor.y + dy, 0),
        )
    }

    pub open spec fn csi_cursor(self, cursor: Cursor) -> TerminalModel {
        match cursor {
            Cursor::SetTopAndBottomMargins { top, bottom } => self.set_margins(top, bottom),
            Cursor::ForwardTabulation(n) => self.horizontal_tabs(n as nat),
            Cursor::Left(n) => self.move_cursor(-n, 0),
            Cursor::Right(n) => self.move_cursor(n as int, 0),
            Cursor::Up(n) => self.move_cursor(0, -n),
            Cursor::Down(n) => self.move_cursor(0, n as int),
            Cursor::CharacterAndLinePosition { line, col } => self.cursor_to(
                from_zero(col),
                from_zero(line),
            ),
            Cursor::Position { line, col } => self.cursor_to(
                from_zero(col),
                from_zero(line),
            ),
            Cursor::CharacterAbsolute(col) => self.cursor_to(
                from_zero(col),
                self.cursor_row(),
            ),
            Cursor::CharacterPositionAbsolute(col) => self.cursor_to(
                from_zero(col),
                self.cursor_row(),
            ),
            Cursor::CharacterPositionBackward(n) => self.move_cursor(-n, 0),
            Cursor::CharacterPositionForward(n) => self.move_cursor(n as int, 0),
            Cursor::LinePositionAbsolute(line) => self.cursor_to(
                self.column(),
                from_zero(line),
            ),
            Cursor::LinePositionBackward(n) => self.move_cursor(0, -n),
            Cursor::LinePositionForward(n) => self.move_cursor(0, n as int),
            Cursor::NextLine(n) => self.new_lines(n as nat),
            Cursor::PrecedingLine(n) => self.cursor_to(0, at_least(self.cursor.y - n, 0)),
            Cursor::SaveCursor => self.save_cursor(),
            Cursor::RestoreCursor => self.restore_cursor(),
            Cursor::BackwardTabulation(_) => self,
            Cursor::TabulationClear(_) => self,
            Cursor::TabulationControl(_) => self,
            Cursor::LineTabulation(_) => self,
            Cursor::ActivePositionReport { .. } => self,
            Cursor::RequestActivePositionReport => self,
        }
    }

    /// Whether the terminal can do what a cursor sequence asks for: there is no tab
    /// stop to go to for a cursor that is in no column, and a report has 32 bits for
    /// the row and the column.
    pub open spec fn accepts_cursor(self, cursor: Cursor) -> bool {
        match cursor {
            Cursor::ForwardTabulation(n) => n == 0 || self.has_column(),
            Cursor::RequestActivePositionReport => reportable(self.cursor),
            _ => true,
        }
    }

    /// Whether a cursor sequence leaves a cursor on the screen that is on it: the rows
    /// and columns that it names are counted from one.
    pub open spec fn cursor_keeps_screen(self, cursor: Cursor) -> bool {
        match cursor {
            Cursor::CharacterAndLinePosition { line, col } => line >= 1 && col >= 1,
            Cursor::Position { line, col } => line >= 1 && col >= 1,
            Cursor::CharacterAbsolute(col) => col >= 1,
            Cursor::CharacterPositionAbsolute(col) => col >= 1,
            Cursor::LinePositionAbsolute(line) => line >= 1,
            Cursor::RestoreCursor => self.saved_in_view(),
            _ => true,
        }
    }

    /// What is to be done for a cursor sequence.
    pub open spec fn csi_cursor_action(self, cursor: Cursor) -> HostModel {
        match cursor {
            Cursor::RequestActivePositionReport => HostModel::Report(position_report(self.cursor)),
            _ => HostModel::Nothing,
        }
    }

    // Attributes and device

    pub open spec fn with_rendition(self, rendition: Rendition) -> TerminalModel {
        TerminalModel { pen: AttrModel { rendition, ..self.pen }, ..self }
    }

    pub open spec fn csi_sgr(self, sgr: Sgr) -> TerminalModel {
        self.with_rendition(rendered(self.pen.rendition, sgr))
    }

    pub open spec fn set_hyperlink(self, link: Option<LinkModel>) -> TerminalModel {
        TerminalModel { pen: AttrModel { link, ..self.pen }, ..self }
    }

    pub open spec fn csi_device(self, device: Device) -> TerminalModel {
        match device {
            Device::SoftReset => TerminalModel { pen: AttrModel::plain(), ..self },
            _ => self,
        }
    }
}

/// What is to be done for a device sequence.
pub open spec fn device_action(device: Device) -> HostModel {
    match device {
        // we are a VT102
        Device::RequestPrimaryDeviceAttributes => HostModel::Report(
            seq!['\x1b', '[', '?', '6', 'c'],
        ),
        Device::RequestSecondaryDeviceAttributes => HostModel::Report(
            seq!['\x1b', '[', '>', '0', ';', '0', ';', '0', 'c'],
        ),
        Device::StatusReport => HostModel::Report(seq!['\x1b', '[', '0', 'n']),
        Device::DeviceAttributes(_) => HostModel::Nothing,
        Device::SoftReset => HostModel::Nothing,
    }
}

/// The low 32 bits of a number.
fn low_bits_of(n: i64) -> (low: u64)
    ensures
        low == low_bits(n as int),
{
    if n >= 0 {
        n as u64 % 0x1_0000_0000
    } else {
        0xffff_ffff - (-(n + 1)) as u64 % 0x1_0000_0000
    }
}

fn write_position_report(x: usize, y: i64) -> (text: String)
    requires
        reportable(Place { x: x as int, y: y as int }),
    ensures
        text@ == position_report(Place { x: x as int, y: y as int }),
{
    let line: u64 = low_bits_of(y) + 1;
    let col: u64 = x as u64 % 0x1_0000_0000 + 1;
    let mut text = String::new();
    text.push('\x1b');
    text.push('[');
    push_decimal(&mut text, line);
    text.push(';');
    push_decimal(&mut text, col);
    text.push('R');
    assert(text@ =~= position_report(Place { x: x as int, y: y as int }));
    text
}

/// A row or column that is counted from one, counted from zero.
fn counted_from_zero(n: u32) -> (place: i64)
    ensures
        place == from_zero(n),
{
    n as i64 - 1
}

fn change_rendition(rendition: Rendition, sgr: Sgr) -> (changed: Rendition)
    ensures
        changed == rendered(rendition, sgr),
{
    let mut changed = rendition;
    match sgr {
        Sgr::Reset => {
            changed = CellAttributes::default().rendition;
        },
        Sgr::Intensity(intensity) => {
            changed.intensity = intensity;
        },
        Sgr::Underline(underline) => {
            changed.underline = underline;
        },
        Sgr::Blink(blink) => {
            changed.blink = blink;
        },
        Sgr::Italic(italic) => {
            changed.italic = italic;
        },
        Sgr::Inverse(inverse) => {
            changed.reverse = inverse;
        },
        Sgr::Invisible(invis) => {
            changed.invisible = invis;
        },
        Sgr::StrikeThrough(strike) => {
            changed.strikethrough = strike;
        },
        Sgr::Foreground(col) => {
            changed.foreground = col;
        },
        Sgr::Background(col) => {
            changed.background = col;
        },
        Sgr::Font(_) => {},
    }
    changed
}

impl TerminalState {
    /// Whether the report of where the cursor is fits in 32 bits.
    pub(super) fn can_report(&self) -> (b: bool)
        ensures
            b == reportable(self@.cursor),
    {
        low_bits_of(self.cursor.y) < 0xffff_ffff && self.cursor.x as u64 % 0x1_0000_0000
            < 0xffff_ffff
    }

    fn show_screen(&mut self, alt: bool)
        requires
            old(self)@.wf_core(),
        ensures
            final(self)@ == old(self)@.show_screen(alt),
            final(self)@.wf_core(),
    {
        self.alt_screen_is_active = alt;
    }

    fn enter_alt_screen(&mut self)
        requires
            old(self)@.wf(),
        ensures
            final(self)@ == old(self)@.enter_alt_screen(),
            !old(self)@.alt_screen_is_active ==> entered_alt_screen(old(self)@, final(self)@),
            final(self)@.wf(),
            old(self)@.cursor_on_screen() ==> final(self)@.cursor_on_screen(),
    {
        if !self.alt_screen_is_active {
            self.save_cursor();
            self.show_screen(true);
            self.set_cursor_pos(&Position::Absolute(0), &Position::Absolute(0));
            self.erase_in_display(EraseInDisplay::EraseDisplay);
            self.set_scroll_viewport(0);
            proof {
                law_enter_alt_screen(old(self)@);
            }
        }
    }

    fn leave_alt_screen(&mut self)
        requires
            old(self)@.wf(),
        ensures
            final(self)@ == old(self)@.leave_alt_screen(),
            old(self)@.alt_screen_is_active && old(self)@.saved_on_screen() ==> left_alt_screen(
                old(self)@,
                final(self)@,
            ),
            final(self)@.wf(),
            old(self)@.cursor_on_screen() && old(self)@.saved_in_view()
                ==> final(self)@.cursor_on_screen(),
    {
        if self.alt_screen_is_active {
            self.show_screen(false);
            self.restore_cursor();
            self.set_scroll_viewport(0);
            proof {
                if old(self)@.saved_on_screen() {
                    law_leave_alt_screen(old(self)@);
                }
            }
        }
    }

    fn set_bracketed_paste(&mut self, on: bool)
        requires
            old(self)@.wf(),
        ensures
            final(self)@ == (TerminalModel { bracketed_paste: on, ..old(self)@ }),
            final(self)@.wf(),
            old(self)@.cursor_on_screen() ==> final(self)@.cursor_on_screen(),
    {
        self.bracketed_paste = on;
    }

    fn set_application_cursor_keys(&mut self, on: bool)
        requires
            old(self)@.wf(),
        ensures
            final(self)@ == (TerminalModel { application_cursor_keys: on, ..old(self)@ }),
            final(self)@.wf(),
            old(self)@.cursor_on_screen() ==> final(self)@.cursor_on_screen(),
    {
        self.application_cursor_keys = on;
    }

    fn set_cursor_visible(&mut self, on: bool)
        requires
            old(self)@.wf(),
        ensures
            final(self)@ == (TerminalModel { cursor_visible: on, ..old(self)@ }),
            final(self)@.wf(),
            old(self)@.cursor_on_screen() ==> final(self)@.cursor_on_screen(),
    {
        self.cursor_visible = on;
    }

    fn set_button_event_mouse(&mut self, on: bool)
        requires
            old(self)@.wf(),
        ensures
            final(self)@ == (TerminalModel { button_event_mouse: on, ..old(self)@ }),
            final(self)@.wf(),
            old(self)@.cursor_on_screen() ==> final(self)@.cursor_on_screen(),
    {
        self.button_event_mouse = on;
    }

    fn set_sgr_mouse(&mut self, on: bool)
        requires
            old(self)@.wf(),
        ensures
            final(self)@ == (TerminalModel { sgr_mouse: on, ..old(self)@ }),
            final(self)@.wf(),
            old(self)@.cursor_on_screen() ==> final(self)@.cursor_on_screen(),
    {
        self.sgr_mouse = on;
    }

    #[verifier::rlimit(60)]
    fn set_mode(&mut self, code: DecPrivateModeCode, on: bool)
        requires
            old(self)@.wf(),
        ensures
            final(self)@ == old(self)@.set_mode(code, on),
            code == DecPrivateModeCode::ClearAndEnableAlternateScreen && on
                && !old(self)@.alt_screen_is_active ==> entered_alt_screen(old(self)@, final(self)@),
            code == DecPrivateModeCode::ClearAndEnableAlternateScreen && !on
                && old(self)@.alt_screen_is_active && old(self)@.saved_on_screen()
                ==> left_alt_screen(old(self)@, final(self)@),
            final(self)@.wf(),
            old(self)@.cursor_on_screen() && old(self)@.saved_in_view()
                ==> final(self)@.cursor_on_screen(),
    {
        match code {
            DecPrivateModeCode::BracketedPaste => self.set_bracketed_paste(on),
            DecPrivateModeCode::ApplicationCursorKeys => self.set_application_cursor_keys(on),
            DecPrivateModeCode::ShowCursor => self.set_cursor_visible(on),
            DecPrivateModeCode::ButtonEventMouse => self.set_button_event_mouse(on),
            DecPrivateModeCode::SGRMouse => self.set_sgr_mouse(on),
            DecPrivateModeCode::ClearAndEnableAlternateScreen => {
                if on {
                    self.enter_alt_screen();
                } else {
                    self.leave_alt_screen();
                }
            },
            DecPrivateModeCode::StartBlinkingCursor => {},
            DecPrivateModeCode::MouseTracking => {},
            DecPrivateModeCode::HighlightMouseTracking => {},
            DecPrivateModeCode::AnyEventMouse => {},
        }
    }

    pub fn perform_csi_mode(&mut self, mode: Mode)
        requires
            old(self)@.wf(),
        ensures
            final(self)@ == old(self)@.csi_mode(mode),
            mode == alt_screen_mode(old(self)@.alt_screen_is_active) ==> final(self)@ == old(self)@,
            mode == alt_screen_mode(true) && !old(self)@.alt_screen_is_active
                ==> entered_alt_screen(old(self)@, final(self)@),
            mode == alt_screen_mode(false) && old(self)@.alt_screen_is_active
                && old(self)@.saved_on_screen() ==> left_alt_screen(old(self)@, final(self)@),
            final(self)@.wf(),
            old(self)@.cursor_on_screen() && old(self)@.saved_in_view()
                ==> final(self)@.cursor_on_screen(),
    {
        match mode {
            Mode::SetDecPrivateMode(DecPrivateMode::Code(code)) => self.set_mode(code, true),
            Mode::ResetDecPrivateMode(DecPrivateMode::Code(code)) => self.set_mode(code, false),
            _ => {},
        }
    }

    /// The column after the `n` columns from the cursor on, or after the last column.
    fn edit_limit(&self, n: u32) -> (limit: usize)
        requires
            self@.wf(),
        ensures
            limit == self@.edit_limit(n),
    {
        let x: usize = self.cursor.x;
        let cols: usize = self.screen().physical_cols;
        if x < cols && (n as u64) < (cols - x) as u64 {
            x + n as usize
        } else {
            cols
        }
    }

    fn erase_cells(&mut self, count: usize)
        requires
            old(self)@.wf(),
        ensures
            final(self)@ == old(self)@.erase_cells(count as int),
            final(self)@.wf(),
            old(self)@.cursor_on_screen() ==> final(self)@.cursor_on_screen(),
    {
        let x: usize = self.cursor.x;
        let y: i64 = self.cursor.y;
        self.screen_mut().erase_cells(x, y, count);
    }

    fn delete_characters(&mut self, n: u32)
        requires
            old(self)@.wf(),
        ensures
            final(self)@ == old(self)@.delete_characters(n),
            final(self)@.wf(),
            old(self)@.cursor_on_screen() ==> final(self)@.cursor_on_screen(),
    {
        let x: usize = self.cursor.x;
        let y: i64 = self.cursor.y;
        let limit: usize = self.edit_limit(n);
        let count: usize = if limit > x {
            limit - x
        } else {
            0
        };
        self.erase_cells(count);
        let _ = self.clear_selection_if_intersects(x..limit, y);
    }

    fn insert_cells(&mut self, count: usize)
        requires
            old(self)@.wf(),
            count > 0 ==> old(self)@.cursor.x + count <= old(self)@.cols(),
        ensures
            final(self)@ == old(self)@.insert_cells(count as int),
            final(self)@.wf(),
            old(self)@.cursor_on_screen() ==> final(self)@.cursor_on_screen(),
    {
        let x: usize = self.cursor.x;
        let y: i64 = self.cursor.y;
        self.screen_mut().insert_cells(x, y, count);
    }

    fn insert_characters(&mut self, n: u32)
        requires
            old(self)@.wf(),
        ensures
            final(self)@ == old(self)@.insert_characters(n),
            final(self)@.wf(),
            old(self)@.cursor_on_screen() ==> final(self)@.cursor_on_screen(),
    {
        let x: usize = self.cursor.x;
        let y: i64 = self.cursor.y;
        let limit: usize = self.edit_limit(n);
        let count: usize = if limit > x {
            limit - x
        } else {
            0
        };
        self.insert_cells(count);
        let _ = self.clear_selection_if_intersects(x..limit, y);
    }

    fn clear_cols(&mut self, start: usize, end: usize, attrs: &CellAttributes)
        requires
            old(self)@.wf(),
        ensures
            final(self)@ == old(self)@.clear_cols(start as int, end as int, attrs@),
            final(self)@.wf(),
            old(self)@.cursor_on_screen() ==> final(self)@.cursor_on_screen(),
    {
        let y: i64 = self.cursor.y;
        self.screen_mut().clear_line(y, start..end, attrs);
        let _ = self.clear_selection_if_intersects(start..end, y);
    }

    fn erase_in_line(&mut self, erase: EraseInLine)
        requires
            old(self)@.wf(),
        ensures
            final(self)@ == old(self)@.erase_in_line(erase),
            final(self)@.wf(),
            old(self)@.cursor_on_screen() ==> final(self)@.cursor_on_screen(),
    {
        let cx: usize = self.cursor.x;
        let pen = self.pen.clone_sgr_only();
        let cols: usize = self.screen().physical_cols;
        match erase {
            EraseInLine::EraseToEndOfLine => self.clear_cols(cx, cols, &pen),
            EraseInLine::EraseToStartOfLine => self.clear_cols(0, cx, &pen),
            EraseInLine::EraseLine => self.clear_cols(0, cols, &pen),
        }
    }

    fn delete_lines_here(&mut self, count: usize)
        requires
            old(self)@.wf(),
            within(old(self)@.cursor.y, old(self)@.region_start, old(self)@.region_end),
        ensures
            final(self)@ == old(self)@.delete_lines_here(count as int),
            final(self)@.wf(),
            old(self)@.cursor_on_screen() ==> final(self)@.cursor_on_screen(),
    {
        let y: i64 = self.cursor.y;
        let y: i64 = if y > 0 {
            y
        } else {
            0
        };
        let end: i64 = self.scroll_region.end;
        self.screen_mut().scroll_up(&(y..end), count);
    }

    fn delete_lines(&mut self, n: u32)
        requires
            old(self)@.wf(),
        ensures
            final(self)@ == old(self)@.delete_lines(n),
            final(self)@.wf(),
            old(self)@.cursor_on_screen() ==> final(self)@.cursor_on_screen(),
    {
        let y: i64 = self.cursor.y;
        if in_range(y, &self.scroll_region) {
            let end: i64 = self.scroll_region.end;
            self.delete_lines_here(n as usize);
            let _ = self.clear_selection_if_intersects_rows(y..end);
        }
    }

    fn insert_lines_here(&mut self, count: usize)
        requires
            old(self)@.wf(),
            within(old(self)@.cursor.y, old(self)@.region_start, old(self)@.region_end),
        ensures
            final(self)@ == old(self)@.insert_lines_here(count as int),
            final(self)@.wf(),
            old(self)@.cursor_on_screen() ==> final(self)@.cursor_on_screen(),
    {
        let y: i64 = self.cursor.y;
        let y: i64 = if y > 0 {
            y
        } else {
            0
        };
        let end: i64 = self.scroll_region.end;
        self.screen_mut().scroll_down(&(y..end), count);
    }

    fn insert_lines(&mut self, n: u32)
        requires
            old(self)@.wf(),
        ensures
            final(self)@ == old(self)@.insert_lines(n),
            final(self)@.wf(),
            old(self)@.cursor_on_screen() ==> final(self)@.cursor_on_screen(),
    {
        let y: i64 = self.cursor.y;
        if in_range(y, &self.scroll_region) {
            let end: i64 = self.scroll_region.end;
            self.insert_lines_here(n as usize);
            let _ = self.clear_selection_if_intersects_rows(y..end);
        }
    }

    pub fn perform_csi_edit(&mut self, edit: Edit)
        requires
            old(self)@.wf(),
            old(self)@.accepts_edit(edit),
        ensures
            final(self)@ == old(self)@.csi_edit(edit),
            final(self)@.wf(),
            old(self)@.cursor_on_screen() ==> final(self)@.cursor_on_screen(),
    {
        match edit {
            Edit::DeleteCharacter(n) => self.delete_characters(n),
            Edit::DeleteLine(n) => self.delete_lines(n),
            Edit::EraseCharacter(n) => {
                let limit: usize = self.edit_limit(n);
                let blank = CellAttributes::default();
                self.clear_cols(self.cursor.x, limit, &blank);
            },
            Edit::EraseInLine(erase) => self.erase_in_line(erase),
            Edit::InsertCharacter(n) => self.insert_characters(n),
            Edit::InsertLine(n) => self.insert_lines(n),
            Edit::ScrollDown(n) => self.scroll_down(n as usize),
            Edit::ScrollUp(n) => self.scroll_up(n as usize),
            Edit::EraseInDisplay(erase) => self.erase_in_display(erase),
        }
    }

    fn set_scroll_region(&mut self, first: i64, last: i64)
        requires
            old(self)@.wf(),
            -1 <= first <= last < old(self)@.rows(),
        ensures
            final(self)@ == old(self)@.with_region(first as int, last as int),
            final(self)@.wf(),
            old(self)@.cursor_on_screen() ==> final(self)@.cursor_on_screen(),
    {
        self.scroll_region = first..last + 1;
    }

    fn set_margins(&mut self, top: u32, bottom: u32)
        requires
            old(self)@.wf(),
        ensures
            final(self)@ == old(self)@.set_margins(top, bottom),
            final(self)@.wf(),
            old(self)@.cursor_on_screen() ==> final(self)@.cursor_on_screen(),
    {
        let last: i64 = self.screen().physical_rows as i64 - 1;
        let mut top: i64 = counted_from_zero(top);
        if top > last {
            top = last;
        }
        let mut bottom: i64 = counted_from_zero(bottom);
        if bottom > last {
            bottom = last;
        }
        if top > bottom {
            self.set_scroll_region(bottom, top);
        } else {
            self.set_scroll_region(top, bottom);
        }
    }

    fn move_cursor(&mut self, dx: i64, dy: i64)
        requires
            old(self)@.wf(),
            -u32::MAX <= dx <= u32::MAX,
            -u32::MAX <= dy <= u32::MAX,
        ensures
            final(self)@ == old(self)@.move_cursor(dx as int, dy as int),
            final(self)@.wf(),
            old(self)@.cursor_on_screen() ==> final(self)@.cursor_on_screen(),
    {
        self.set_cursor_pos(&Position::Relative(dx), &Position::Relative(dy));
    }

    fn forward_tabs(&mut self, n: u32)
        requires
            old(self)@.wf(),
            n == 0 || old(self)@.has_column(),
        ensures
            final(self)@ == old(self)@.horizontal_tabs(n as nat),
            final(self)@.wf(),
            old(self)@.cursor_on_screen() ==> final(self)@.cursor_on_screen(),
    {
        let ghost before = self@;
        let mut i: u32 = 0;
        while i < n
            invariant
                i <= n,
                self@.wf(),
                self@ == before.horizontal_tabs(i as nat),
                before.cursor_on_screen() ==> self@.cursor_on_screen(),
                i < n ==> self@.has_column(),
            decreases n - i,
        {
            self.c0_horizontal_tab();
            i += 1;
        }
    }

    fn next_lines(&mut self, n: u32)
        requires
            old(self)@.wf(),
        ensures
            final(self)@ == old(self)@.new_lines(n as nat),
            final(self)@.wf(),
            old(self)@.cursor_on_screen() ==> final(self)@.cursor_on_screen(),
    {
        let ghost before = self@;
        let mut i: u32 = 0;
        while i < n
            invariant
                i <= n,
                self@.wf(),
                self@ == before.new_lines(i as nat),
                before.cursor_on_screen() ==> self@.cursor_on_screen(),
            decreases n - i,
        {
            self.new_line(true);
            i += 1;
        }
    }

    #[verifier::rlimit(40)]
    pub fn perform_csi_cursor(&mut self, cursor: Cursor) -> (action: HostAction)
        requires
            old(self)@.wf(),
            old(self)@.accepts_cursor(cursor),
        ensures
            final(self)@ == old(self)@.csi_cursor(cursor),
            cursor matches Cursor::Position { line, col } ==> (1 <= line <= old(self)@.rows() && 1
                <= col <= old(self)@.cols() ==> final(self)@.cursor == (Place {
                x: col - 1,
                y: line - 1,
            })),
            action@ == old(self)@.csi_cursor_action(cursor),
            final(self)@.wf(),
            old(self)@.cursor_on_screen() && old(self)@.cursor_keeps_screen(cursor)
                ==> final(self)@.cursor_on_screen(),
    {
        match cursor {
            Cursor::SetTopAndBottomMargins { top, bottom } => self.set_margins(top, bottom),
            Cursor::ForwardTabulation(n) => self.forward_tabs(n),
            Cursor::BackwardTabulation(_) => {},
            Cursor::TabulationClear(_) => {},
            Cursor::TabulationControl(_) => {},
            Cursor::LineTabulation(_) => {},
            Cursor::Left(n) => self.move_cursor(-(n as i64), 0),
            Cursor::Right(n) => self.move_cursor(n as i64, 0),
            Cursor::Up(n) => self.move_cursor(0, -(n as i64)),
            Cursor::Down(n) => self.move_cursor(0, n as i64),
            Cursor::CharacterAndLinePosition { line, col } | Cursor::Position {
                line,
                col,
            } => self.set_cursor_pos(
                &Position::Absolute(counted_from_zero(col)),
                &Position::Absolute(counted_from_zero(line)),
            ),
            Cursor::CharacterAbsolute(col)
            | Cursor::CharacterPositionAbsolute(col) => self.set_cursor_pos(
                &Position::Absolute(counted_from_zero(col)),
                &Position::Relative(0),
            ),
            Cursor::CharacterPositionBackward(n) => self.move_cursor(-(n as i64), 0),
            Cursor::CharacterPositionForward(n) => self.move_cursor(n as i64, 0),
            Cursor::LinePositionAbsolute(line) => self.set_cursor_pos(
                &Position::Relative(0),
                &Position::Absolute(counted_from_zero(line)),
            ),
            Cursor::LinePositionBackward(n) => self.move_cursor(0, -(n as i64)),
            Cursor::LinePositionForward(n) => self.move_cursor(0, n as i64),
            Cursor::NextLine(n) => self.next_lines(n),
            Cursor::PrecedingLine(n) => self.set_cursor_pos(
                &Position::Absolute(0),
                &Position::Relative(-(n as i64)),
            ),
            Cursor::ActivePositionReport { .. } => {
                // This is really a response from the terminal, and
                // we don't need to process it as a terminal command
            },
            Cursor::RequestActivePositionReport => {
                return HostAction::Report(write_position_report(self.cursor.x, self.cursor.y));
            },
            Cursor::SaveCursor => self.save_cursor(),
            Cursor::RestoreCursor => self.restore_cursor(),
        }
        HostAction::Nothing
    }

    fn set_rendition(&mut self, rendition: Rendition)
        requires
            old(self)@.wf(),
        ensures
            final(self)@ == old(self)@.with_rendition(rendition),
            final(self)@.wf(),
            old(self)@.cursor_on_screen() ==> final(self)@.cursor_on_screen(),
    {
        self.pen.rendition = rendition;
    }

    pub fn perform_csi_sgr(&mut self, sgr: Sgr)
        requires
            old(self)@.wf(),
        ensures
            final(self)@ == old(self)@.csi_sgr(sgr),
            final(self)@.wf(),
            old(self)@.cursor_on_screen() ==> final(self)@.cursor_on_screen(),
    {
        let rendition = change_rendition(self.pen.rendition, sgr);
        self.set_rendition(rendition);
    }

    pub(super) fn set_hyperlink(&mut self, link: Option<Hyperlink>)
        requires
            old(self)@.wf(),
        ensures
            final(self)@ == old(self)@.set_hyperlink(link_view(link)),
            final(self)@.wf(),
            old(self)@.cursor_on_screen() ==> final(self)@.cursor_on_screen(),
    {
        self.pen.hyperlink = link;
    }

    pub fn perform_device(&mut self, dev: Device) -> (action: HostAction)
        requires
            old(self)@.wf(),
        ensures
            final(self)@ == old(self)@.csi_device(dev),
            action@ == device_action(dev),
            final(self)@.wf(),
            old(self)@.cursor_on_screen() ==> final(self)@.cursor_on_screen(),
    {
        let mut text = String::new();
        match dev {
            Device::DeviceAttributes(_) => HostAction::Nothing,
            Device::SoftReset => {
                self.pen = CellAttributes::default();
                HostAction::Nothing
            },
            Device::RequestPrimaryDeviceAttributes => {
                text.append("\x1b[?6c");
                proof {
                    reveal_strlit("\x1b[?6c");
                    assert(text@ =~= seq!['\x1b', '[', '?', '6', 'c']);
                }
                HostAction::Report(text)
            },
            Device::RequestSecondaryDeviceAttributes => {
                text.append("\x1b[>0;0;0c");
                proof {
                    reveal_strlit("\x1b[>0;0;0c");
                    assert(text@ =~= seq!['\x1b', '[', '>', '0', ';', '0', ';', '0', 'c']);
                }
                HostAction::Report(text)
            },
            Device::StatusReport => {
                text.append("\x1b[0n");
                proof {
                    reveal_strlit("\x1b[0n");
                    assert(text@ =~= seq!['\x1b', '[', '0', 'n']);
                }
                HostAction::Report(text)
            },
        }
    }
}

} // verus!
