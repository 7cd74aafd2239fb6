use wezterm::attributes::{
    Blink, CellAttributes, ColorAttribute, Hyperlink, Intensity, Underline,
};
use wezterm::escape::{
    Action, ControlCode, Cursor, DecPrivateMode, DecPrivateModeCode, Device, Edit, EraseInDisplay,
    EraseInLine, Esc, EscCode, Mode, OperatingSystemCommand, Sgr, CSI,
};
use wezterm::host::HostAction;
use wezterm::hyperlink::Rule;
use wezterm::terminal::performer::Performer;
use wezterm::terminal::TerminalState;

fn terminal(rows: usize, cols: usize) -> TerminalState {
    TerminalState::new(rows, cols, 10, Vec::new())
}

fn perform(state: &mut TerminalState, action: Action) -> HostAction {
    assert!(state.accepts(&action));
    Performer { state }.perform(action)
}

fn write(state: &mut TerminalState, text: &str) {
    for c in text.chars() {
        let action = match c {
            '\n' => Action::Control(ControlCode::LineFeed),
            '\r' => Action::Control(ControlCode::CarriageReturn),
            '\t' => Action::Control(ControlCode::HorizontalTab),
            '\x08' => Action::Control(ControlCode::Backspace),
            c => Action::Print(c),
        };
        assert_eq!(perform(state, action), HostAction::Nothing);
    }
}

fn csi(state: &mut TerminalState, csi: CSI) -> HostAction {
    perform(state, Action::CSI(csi))
}

fn cursor(state: &mut TerminalState, cursor: Cursor) {
    assert_eq!(csi(state, CSI::Cursor(cursor)), HostAction::Nothing);
}

fn edit(state: &mut TerminalState, edit: Edit) {
    assert_eq!(csi(state, CSI::Edit(edit)), HostAction::Nothing);
}

fn esc(state: &mut TerminalState, code: EscCode) {
    assert_eq!(perform(state, Action::Esc(Esc::Code(code))), HostAction::Nothing);
}

fn goto(state: &mut TerminalState, line: u32, col: u32) {
    cursor(state, Cursor::Position { line, col });
}

fn set(state: &mut TerminalState, code: DecPrivateModeCode) {
    csi(state, CSI::Mode(Mode::SetDecPrivateMode(DecPrivateMode::Code(code))));
}

fn reset(state: &mut TerminalState, code: DecPrivateModeCode) {
    csi(state, CSI::Mode(Mode::ResetDecPrivateMode(DecPrivateMode::Code(code))));
}

fn place(state: &TerminalState) -> (usize, i64) {
    let pos = state.cursor_pos();
    (pos.x, pos.y)
}

fn rows(state: &TerminalState) -> Vec<String> {
    let screen = state.screen();
    let top = screen.lines.len() - screen.physical_rows;
    screen.lines[top..].iter().map(|l| l.as_str()).collect()
}

#[test]
fn a_new_terminal_is_blank() {
    let t = terminal(2, 3);
    assert_eq!(rows(&t), vec!["   ", "   "]);
    assert_eq!(place(&t), (0, 0));
    assert_eq!(t.get_title(), "wezterm");
    assert_eq!(t.get_viewport_offset(), 0);
    assert_eq!(t.get_selection_text(), "");
    assert_eq!(t.current_highlight(), None);
    assert!(t.has_dirty_lines());
}

#[test]
fn text_is_printed_and_wraps() {
    let mut t = terminal(3, 4);
    write(&mut t, "abcd");
    assert_eq!(rows(&t), vec!["abcd", "    ", "    "]);
    assert_eq!(place(&t), (3, 0));
    write(&mut t, "e");
    assert_eq!(rows(&t), vec!["abcd", "e   ", "    "]);
    assert_eq!(place(&t), (1, 1));
}

#[test]
fn a_carriage_return_cancels_the_wrap() {
    let mut t = terminal(2, 4);
    write(&mut t, "abcd\rx");
    assert_eq!(rows(&t), vec!["xbcd", "    "]);
}

#[test]
fn wide_characters_take_two_columns() {
    let mut t = terminal(1, 5);
    write(&mut t, "\u{4e16}a");
    assert_eq!(place(&t), (3, 0));
    assert_eq!(rows(&t), vec!["\u{4e16}\0a  "]);
}

#[test]
fn the_width_of_a_character_can_be_given() {
    let mut t = terminal(1, 5);
    t.print_wide('x', 3);
    assert_eq!(rows(&t), vec!["x\0\0  "]);
    assert_eq!(place(&t), (3, 0));
}

#[test]
fn the_screen_scrolls_at_the_bottom() {
    let mut t = terminal(2, 2);
    write(&mut t, "a\nb\nc");
    assert_eq!(rows(&t), vec!["b ", "c "]);
    assert_eq!(t.screen().lines.len(), 3);
    assert_eq!(t.screen().lines[0].as_str(), "a ");
    assert_eq!(place(&t), (1, 1));
}

#[test]
fn the_scrollback_is_bounded() {
    let mut t = TerminalState::new(2, 2, 3, Vec::new());
    for _ in 0..20 {
        write(&mut t, "x\n");
    }
    assert_eq!(t.screen().lines.len(), 5);
}

#[test]
fn tabs_and_backspace() {
    let mut t = terminal(1, 20);
    write(&mut t, "\t");
    assert_eq!(place(&t), (8, 0));
    write(&mut t, "\t\t");
    assert_eq!(place(&t), (19, 0));
    write(&mut t, "\x08\x08");
    assert_eq!(place(&t), (17, 0));
    write(&mut t, "\r\x08");
    assert_eq!(place(&t), (0, 0));
    goto(&mut t, 1, 4);
    esc(&mut t, EscCode::HorizontalTabSet);
    write(&mut t, "\r\t");
    assert_eq!(place(&t), (3, 0));
    cursor(&mut t, Cursor::ForwardTabulation(2));
    assert_eq!(place(&t), (16, 0));
}

#[test]
fn the_cursor_stays_on_the_screen() {
    let mut t = terminal(4, 6);
    goto(&mut t, 100, 100);
    assert_eq!(place(&t), (5, 3));
    cursor(&mut t, Cursor::Left(2));
    cursor(&mut t, Cursor::Up(1));
    assert_eq!(place(&t), (3, 2));
    cursor(&mut t, Cursor::Left(100));
    cursor(&mut t, Cursor::Up(100));
    assert_eq!(place(&t), (0, 0));
    cursor(&mut t, Cursor::Right(100));
    cursor(&mut t, Cursor::Down(100));
    assert_eq!(place(&t), (5, 3));
    cursor(&mut t, Cursor::PrecedingLine(2));
    assert_eq!(place(&t), (0, 1));
    cursor(&mut t, Cursor::NextLine(1));
    assert_eq!(place(&t), (0, 2));
    cursor(&mut t, Cursor::CharacterAbsolute(3));
    cursor(&mut t, Cursor::LinePositionAbsolute(2));
    assert_eq!(place(&t), (2, 1));
    cursor(&mut t, Cursor::CharacterPositionAbsolute(5));
    cursor(&mut t, Cursor::CharacterPositionBackward(1));
    cursor(&mut t, Cursor::CharacterPositionForward(2));
    assert_eq!(place(&t), (5, 1));
    cursor(&mut t, Cursor::LinePositionForward(1));
    cursor(&mut t, Cursor::LinePositionBackward(2));
    assert_eq!(place(&t), (5, 0));
    cursor(&mut t, Cursor::CharacterAndLinePosition { line: 2, col: 2 });
    assert_eq!(place(&t), (1, 1));
}

#[test]
fn the_cursor_is_saved_and_restored() {
    let mut t = terminal(4, 6);
    goto(&mut t, 2, 3);
    cursor(&mut t, Cursor::SaveCursor);
    goto(&mut t, 4, 6);
    cursor(&mut t, Cursor::RestoreCursor);
    assert_eq!(place(&t), (2, 1));
    esc(&mut t, EscCode::DecSaveCursorPosition);
    write(&mut t, "\r\n");
    esc(&mut t, EscCode::DecRestoreCursorPosition);
    assert_eq!(place(&t), (2, 1));
}

#[test]
fn the_position_of_the_cursor_is_reported() {
    let mut t = terminal(4, 20);
    goto(&mut t, 3, 12);
    assert_eq!(
        csi(&mut t, CSI::Cursor(Cursor::RequestActivePositionReport)),
        HostAction::Report("\x1b[3;12R".to_string())
    );
    let before = place(&t);
    goto(&mut t, 3, 12);
    assert_eq!(place(&t), before);
}

#[test]
fn row_and_column_zero_are_off_the_screen() {
    let mut t = terminal(4, 4);
    goto(&mut t, 0, 0);
    assert_eq!(place(&t), (usize::MAX, -1));
    cursor(&mut t, Cursor::SaveCursor);
    cursor(&mut t, Cursor::Left(1));
    assert_eq!(place(&t), (0, 0));
    cursor(&mut t, Cursor::RestoreCursor);
    assert_eq!(place(&t), (usize::MAX, -1));
    write(&mut t, "\n");
    assert_eq!(place(&t), (0, 0));
    goto(&mut t, 3, 3);
    cursor(&mut t, Cursor::CharacterAbsolute(0));
    assert_eq!(place(&t), (usize::MAX, 2));
    cursor(&mut t, Cursor::Down(1));
    assert_eq!(place(&t), (0, 3));
    goto(&mut t, 3, 3);
    cursor(&mut t, Cursor::LinePositionAbsolute(0));
    assert_eq!(place(&t), (2, -1));
    cursor(&mut t, Cursor::Right(1));
    assert_eq!(place(&t), (3, 0));
}

#[test]
fn a_cursor_in_no_column_cannot_be_written_at() {
    let mut t = terminal(2, 4);
    write(&mut t, "abc");
    cursor(&mut t, Cursor::CharacterAbsolute(0));
    for action in [
        Action::Print('x'),
        Action::Control(ControlCode::HorizontalTab),
        Action::Esc(Esc::Code(EscCode::HorizontalTabSet)),
        Action::CSI(CSI::Cursor(Cursor::ForwardTabulation(1))),
        Action::CSI(CSI::Cursor(Cursor::RequestActivePositionReport)),
        Action::CSI(CSI::Edit(Edit::DeleteCharacter(1))),
        Action::CSI(CSI::Edit(Edit::EraseCharacter(1))),
        Action::CSI(CSI::Edit(Edit::InsertCharacter(1))),
        Action::CSI(CSI::Edit(Edit::EraseInLine(EraseInLine::EraseToStartOfLine))),
    ] {
        assert!(!t.accepts(&action), "{:?}", action);
    }
    edit(&mut t, Edit::DeleteCharacter(0));
    edit(&mut t, Edit::EraseInLine(EraseInLine::EraseToEndOfLine));
    assert_eq!(rows(&t), vec!["abc ", "    "]);
    edit(&mut t, Edit::EraseInLine(EraseInLine::EraseLine));
    assert_eq!(rows(&t), vec!["    ", "    "]);
    write(&mut t, "\rx");
    assert_eq!(rows(&t), vec!["x   ", "    "]);
}

#[test]
fn a_margin_of_zero_is_above_the_screen() {
    let mut t = terminal(4, 4);
    write(&mut t, "a\nb\nc\nd");
    cursor(&mut t, Cursor::SetTopAndBottomMargins { top: 0, bottom: 2 });
    goto(&mut t, 2, 1);
    write(&mut t, "\n");
    assert_eq!(rows(&t), vec!["b   ", "    ", "c   ", "d   "]);
    goto(&mut t, 1, 1);
    esc(&mut t, EscCode::ReverseIndex);
    assert_eq!(place(&t), (0, -1));
    esc(&mut t, EscCode::ReverseIndex);
    assert_eq!(place(&t), (0, -1));
    assert_eq!(rows(&t), vec!["    ", "b   ", "c   ", "d   "]);
    cursor(&mut t, Cursor::SetTopAndBottomMargins { top: 0, bottom: 0 });
    write(&mut t, "\n");
    assert_eq!(place(&t), (0, -1));
    assert_eq!(rows(&t), vec!["    ", "b   ", "c   ", "d   "]);
}

#[test]
fn a_reverse_index_goes_above_the_first_row() {
    let mut t = terminal(4, 4);
    write(&mut t, "a");
    cursor(&mut t, Cursor::SetTopAndBottomMargins { top: 2, bottom: 3 });
    goto(&mut t, 1, 3);
    esc(&mut t, EscCode::ReverseIndex);
    assert_eq!(place(&t), (2, -1));
    let request = || Action::CSI(CSI::Cursor(Cursor::RequestActivePositionReport));
    assert!(!t.accepts(&request()));
    esc(&mut t, EscCode::ReverseIndex);
    assert_eq!(place(&t), (2, -2));
    assert_eq!(
        perform(&mut t, request()),
        HostAction::Report("\x1b[4294967295;3R".to_string())
    );
    write(&mut t, "b");
    assert_eq!(rows(&t), vec!["a   ", "    ", "    ", "    "]);
    assert_eq!(place(&t), (3, -2));
}

#[test]
fn the_scroll_region_scrolls_alone() {
    let mut t = terminal(4, 2);
    write(&mut t, "a\nb\nc\nd");
    cursor(&mut t, Cursor::SetTopAndBottomMargins { top: 3, bottom: 2 });
    goto(&mut t, 3, 2);
    write(&mut t, "\n");
    assert_eq!(rows(&t), vec!["a ", "c ", "  ", "d "]);
    assert_eq!(place(&t), (0, 2));
    goto(&mut t, 2, 2);
    esc(&mut t, EscCode::ReverseIndex);
    assert_eq!(rows(&t), vec!["a ", "  ", "c ", "d "]);
    assert_eq!(place(&t), (1, 1));
    esc(&mut t, EscCode::ReverseIndex);
    assert_eq!(rows(&t), vec!["a ", "  ", "  ", "d "]);
    esc(&mut t, EscCode::Index);
    assert_eq!(place(&t), (1, 2));
    esc(&mut t, EscCode::NextLine);
    assert_eq!(place(&t), (0, 2));
    assert_eq!(t.screen().lines.len(), 4);
    edit(&mut t, Edit::ScrollUp(1));
    edit(&mut t, Edit::ScrollDown(1));
    assert_eq!(rows(&t), vec!["a ", "  ", "  ", "d "]);
}

#[test]
fn margins_stop_at_the_last_row() {
    let mut t = terminal(3, 2);
    write(&mut t, "a\nb\nc");
    cursor(&mut t, Cursor::SetTopAndBottomMargins { top: 2, bottom: 100 });
    write(&mut t, "\n");
    assert_eq!(rows(&t), vec!["a ", "c ", "  "]);
}

#[test]
fn characters_are_deleted_inserted_and_erased() {
    let mut t = terminal(1, 6);
    write(&mut t, "abcdef");
    goto(&mut t, 1, 2);
    edit(&mut t, Edit::DeleteCharacter(2));
    assert_eq!(rows(&t), vec!["adef  "]);
    edit(&mut t, Edit::InsertCharacter(1));
    assert_eq!(rows(&t), vec!["a def "]);
    edit(&mut t, Edit::EraseCharacter(3));
    assert_eq!(rows(&t), vec!["a   f "]);
    edit(&mut t, Edit::DeleteCharacter(100));
    assert_eq!(rows(&t), vec!["a     "]);
    edit(&mut t, Edit::InsertCharacter(u32::MAX));
    edit(&mut t, Edit::EraseCharacter(u32::MAX));
    assert_eq!(rows(&t), vec!["a     "]);
}

#[test]
fn lines_are_deleted_and_inserted() {
    let mut t = terminal(4, 2);
    write(&mut t, "a\nb\nc\nd");
    goto(&mut t, 2, 1);
    edit(&mut t, Edit::DeleteLine(1));
    assert_eq!(rows(&t), vec!["a ", "c ", "d ", "  "]);
    edit(&mut t, Edit::InsertLine(2));
    assert_eq!(rows(&t), vec!["a ", "  ", "  ", "c "]);
    cursor(&mut t, Cursor::SetTopAndBottomMargins { top: 1, bottom: 2 });
    goto(&mut t, 4, 1);
    edit(&mut t, Edit::DeleteLine(1));
    edit(&mut t, Edit::InsertLine(1));
    assert_eq!(rows(&t), vec!["a ", "  ", "  ", "c "]);
}

#[test]
fn parts_of_a_line_are_erased() {
    let mut t = terminal(1, 5);
    write(&mut t, "abcde");
    goto(&mut t, 1, 3);
    edit(&mut t, Edit::EraseInLine(EraseInLine::EraseToStartOfLine));
    assert_eq!(rows(&t), vec!["  cde"]);
    edit(&mut t, Edit::EraseInLine(EraseInLine::EraseToEndOfLine));
    assert_eq!(rows(&t), vec!["     "]);
    write(&mut t, "xy");
    edit(&mut t, Edit::EraseInLine(EraseInLine::EraseLine));
    assert_eq!(rows(&t), vec!["     "]);
    assert_eq!(place(&t), (4, 0));
}

#[test]
fn parts_of_the_display_are_erased() {
    let fill = |erase| {
        let mut t = terminal(3, 2);
        write(&mut t, "aabbcc");
        goto(&mut t, 2, 1);
        edit(&mut t, Edit::EraseInDisplay(erase));
        assert_eq!(place(&t), (0, 1));
        rows(&t)
    };
    assert_eq!(fill(EraseInDisplay::EraseToEndOfDisplay), vec!["aa", "  ", "  "]);
    assert_eq!(fill(EraseInDisplay::EraseToStartOfDisplay), vec!["  ", "bb", "cc"]);
    assert_eq!(fill(EraseInDisplay::EraseDisplay), vec!["  ", "  ", "  "]);
    assert_eq!(fill(EraseInDisplay::EraseScrollback), vec!["aa", "bb", "cc"]);
}

#[test]
fn erased_cells_have_the_rendition_of_the_pen() {
    let mut t = terminal(1, 4);
    csi(&mut t, CSI::Sgr(Sgr::Background(ColorAttribute::PaletteIndex(3))));
    edit(&mut t, Edit::EraseInLine(EraseInLine::EraseToEndOfLine));
    let red = ColorAttribute::PaletteIndex(3);
    assert_eq!(t.screen().lines[0].cells[1].attrs.rendition.background, red);
    edit(&mut t, Edit::EraseCharacter(1));
    assert_eq!(t.screen().lines[0].cells[0].attrs, CellAttributes::default());
}

#[test]
fn the_rendition_changes_one_attribute_at_a_time() {
    let mut t = terminal(1, 4);
    let link = || Hyperlink {
        uri: "https://a/".to_string(),
        implicit: false,
    };
    perform(
        &mut t,
        Action::OperatingSystemCommand(OperatingSystemCommand::SetHyperlink(Some(link()))),
    );
    let sgrs = [
        Sgr::Intensity(Intensity::Bold),
        Sgr::Underline(Underline::Double),
        Sgr::Blink(Blink::Slow),
        Sgr::Italic(true),
        Sgr::Inverse(true),
        Sgr::Invisible(true),
        Sgr::StrikeThrough(true),
        Sgr::Font(2),
        Sgr::Foreground(ColorAttribute::PaletteIndex(1)),
        Sgr::Background(ColorAttribute::TrueColor {
            red: 1,
            green: 2,
            blue: 3,
        }),
    ];
    for sgr in sgrs {
        csi(&mut t, CSI::Sgr(sgr));
    }
    write(&mut t, "a");
    csi(&mut t, CSI::Sgr(Sgr::Reset));
    write(&mut t, "b");
    let cells = &t.screen().lines[0].cells;
    let r = cells[0].attrs.rendition;
    assert_eq!(r.intensity, Intensity::Bold);
    assert_eq!(r.underline, Underline::Double);
    assert_eq!(r.blink, Blink::Slow);
    assert!(r.italic && r.reverse && r.invisible && r.strikethrough);
    assert_eq!(r.foreground, ColorAttribute::PaletteIndex(1));
    assert_eq!(
        r.background,
        ColorAttribute::TrueColor {
            red: 1,
            green: 2,
            blue: 3
        }
    );
    assert_eq!(cells[0].attrs.hyperlink, Some(link()));
    assert_eq!(cells[1].attrs.rendition, CellAttributes::default().rendition);
    assert_eq!(cells[1].attrs.hyperlink, Some(link()));
    csi(&mut t, CSI::Device(Device::SoftReset));
    write(&mut t, "c");
    assert_eq!(t.screen().lines[0].cells[2].attrs, CellAttributes::default());
}

#[test]
fn the_device_reports_itself() {
    let mut t = terminal(1, 1);
    assert_eq!(
        csi(&mut t, CSI::Device(Device::RequestPrimaryDeviceAttributes)),
        HostAction::Report("\x1b[?6c".to_string())
    );
    assert_eq!(
        csi(&mut t, CSI::Device(Device::RequestSecondaryDeviceAttributes)),
        HostAction::Report("\x1b[>0;0;0c".to_string())
    );
    assert_eq!(
        csi(&mut t, CSI::Device(Device::StatusReport)),
        HostAction::Report("\x1b[0n".to_string())
    );
    assert_eq!(
        csi(&mut t, CSI::Device(Device::DeviceAttributes(vec![1]))),
        HostAction::Nothing
    );
}

#[test]
fn the_alternate_screen_leaves_the_primary_one_alone() {
    let mut t = terminal(2, 3);
    write(&mut t, "abc\nd");
    set(&mut t, DecPrivateModeCode::ClearAndEnableAlternateScreen);
    assert_eq!(rows(&t), vec!["   ", "   "]);
    assert_eq!(place(&t), (0, 0));
    write(&mut t, "x\ny\nz\nw");
    assert_eq!(t.screen().lines.len(), 2);
    set(&mut t, DecPrivateModeCode::ClearAndEnableAlternateScreen);
    assert_eq!(rows(&t), vec!["z  ", "w  "]);
    reset(&mut t, DecPrivateModeCode::ClearAndEnableAlternateScreen);
    assert_eq!(rows(&t), vec!["abc", "d  "]);
    assert_eq!(place(&t), (1, 1));
    let before = place(&t);
    reset(&mut t, DecPrivateModeCode::ClearAndEnableAlternateScreen);
    assert_eq!(place(&t), before);
    set(&mut t, DecPrivateModeCode::ClearAndEnableAlternateScreen);
    assert_eq!(rows(&t), vec!["   ", "   "]);
}

#[test]
fn other_modes_change_nothing_that_is_shown() {
    let mut t = terminal(1, 2);
    write(&mut t, "a");
    for code in [
        DecPrivateModeCode::StartBlinkingCursor,
        DecPrivateModeCode::ShowCursor,
        DecPrivateModeCode::MouseTracking,
        DecPrivateModeCode::HighlightMouseTracking,
        DecPrivateModeCode::AnyEventMouse,
    ] {
        set(&mut t, code);
        reset(&mut t, code);
    }
    for mode in [
        Mode::SetDecPrivateMode(DecPrivateMode::Unspecified(9999)),
        Mode::SaveDecPrivateMode(DecPrivateMode::Unspecified(1)),
        Mode::RestoreDecPrivateMode(DecPrivateMode::Unspecified(1)),
    ] {
        assert_eq!(csi(&mut t, CSI::Mode(mode)), HostAction::Nothing);
    }
    assert_eq!(rows(&t), vec!["a "]);
}

#[test]
fn commands_for_the_host() {
    let mut t = terminal(1, 2);
    let mut osc = |osc| perform(&mut t, Action::OperatingSystemCommand(osc));
    assert_eq!(
        osc(OperatingSystemCommand::SetWindowTitle("a".to_string())),
        HostAction::SetTitle("a".to_string())
    );
    assert_eq!(
        osc(OperatingSystemCommand::SetIconNameAndWindowTitle("b".to_string())),
        HostAction::SetTitle("b".to_string())
    );
    assert_eq!(
        osc(OperatingSystemCommand::SetIconName("c".to_string())),
        HostAction::Nothing
    );
    assert_eq!(
        osc(OperatingSystemCommand::ClearSelection(0)),
        HostAction::SetClipboard(None)
    );
    assert_eq!(
        osc(OperatingSystemCommand::SetSelection(0, "clip".to_string())),
        HostAction::SetClipboard(Some("clip".to_string()))
    );
    assert_eq!(
        osc(OperatingSystemCommand::QuerySelection(0)),
        HostAction::Nothing
    );
    assert_eq!(
        osc(OperatingSystemCommand::Unspecified(vec![vec![1]])),
        HostAction::Nothing
    );
}

#[test]
fn actions_that_are_ignored() {
    let mut t = terminal(1, 2);
    write(&mut t, "a");
    for action in [
        Action::DeviceControl(vec![1, 2]),
        Action::Control(ControlCode::Bell),
        Action::Control(ControlCode::Other(5)),
        Action::CSI(CSI::Mouse(vec![])),
        Action::CSI(CSI::Unspecified(vec![b'x'])),
        Action::CSI(CSI::Cursor(Cursor::BackwardTabulation(1))),
        Action::Esc(Esc::Code(EscCode::StringTerminator)),
        Action::Esc(Esc::Code(EscCode::DecLineDrawing)),
        Action::Esc(Esc::Unspecified {
            intermediate: None,
            control: b'Z',
        }),
    ] {
        assert_eq!(perform(&mut t, action), HostAction::Nothing);
    }
    assert_eq!(rows(&t), vec!["a "]);
    assert_eq!(place(&t), (1, 0));
}

#[test]
fn dirty_lines_are_listed() {
    let mut t = terminal(3, 2);
    t.clean_dirty_lines();
    assert!(!t.has_dirty_lines());
    assert!(t.get_dirty_lines().is_empty());
    goto(&mut t, 3, 1);
    write(&mut t, "x");
    assert!(t.has_dirty_lines());
    let listed: Vec<(usize, String)> = t
        .get_dirty_lines()
        .iter()
        .map(|(i, line, _)| (*i, line.as_str()))
        .collect();
    assert_eq!(listed, vec![(0, "  ".to_string()), (2, "x ".to_string())]);
    t.make_all_lines_dirty();
    assert_eq!(t.get_dirty_lines().len(), 3);
}

#[test]
fn lines_below_the_viewport_are_not_listed() {
    let mut t = terminal(2, 2);
    write(&mut t, "a\nb\nc\nd");
    t.scroll_viewport(-2);
    t.clean_dirty_lines();
    write(&mut t, "e");
    assert!(!t.has_dirty_lines());
    assert!(t.get_dirty_lines().is_empty());
    t.scroll_viewport(2);
    assert!(t.has_dirty_lines());
}

#[test]
fn the_viewport_stops_at_either_end() {
    let mut t = terminal(2, 2);
    write(&mut t, "a\nb\nc\nd");
    t.clean_dirty_lines();
    t.scroll_viewport(-1);
    assert_eq!(t.get_viewport_offset(), 1);
    assert_eq!(t.get_dirty_lines().len(), 2);
    assert_eq!(place(&t), (1, 2));
    t.scroll_viewport(1);
    assert_eq!(t.get_viewport_offset(), 0);
    t.scroll_viewport(-100);
    assert_eq!(t.get_viewport_offset(), 2);
    let top: Vec<String> = t.get_dirty_lines().iter().map(|d| d.1.as_str()).collect();
    assert_eq!(top, vec!["a ", "b "]);
    t.scroll_viewport(100);
    assert_eq!(t.get_viewport_offset(), 0);
}

#[test]
fn resizing_keeps_the_text() {
    let mut t = terminal(2, 4);
    write(&mut t, "ab\ncd");
    t.resize(3, 3);
    assert_eq!(rows(&t), vec!["ab ", "cd ", "   "]);
    assert_eq!(place(&t), (2, 1));
    t.resize(1, 3);
    assert_eq!(rows(&t), vec!["   "]);
    assert_eq!(t.screen().lines.len(), 3);
    goto(&mut t, 100, 100);
    assert_eq!(place(&t), (2, 0));
}

#[test]
fn a_link_under_the_mouse_is_highlighted() {
    let rules = vec![Rule {
        pattern: "[a-z]+://[a-z]+".to_string(),
        format: "$0".to_string(),
    }];
    let mut t = TerminalState::new(2, 20, 0, rules);
    write(&mut t, "http://host x");
    t.scroll_viewport(0);
    assert_eq!(
        t.current_highlight(),
        Some(Hyperlink {
            uri: "http://host".to_string(),
            implicit: true
        })
    );
}
