use wezterm::attributes::Hyperlink;
use wezterm::escape::{
    Action, ControlCode, DecPrivateMode, DecPrivateModeCode, Mode, OperatingSystemCommand, CSI,
};
use wezterm::host::HostAction;
use wezterm::input::{KeyCode, KeyModifiers, MouseButton, MouseEvent, MouseEventKind};
use wezterm::terminal::keyboard::{key_step, KeyError, KeyStep};
use wezterm::terminal::mouse::find_word;
use wezterm::terminal::performer::Performer;
use wezterm::terminal::TerminalState;

const PLAIN: KeyModifiers = KeyModifiers {
    shift: false,
    alt: false,
    ctrl: false,
    sup: false,
};
const SHIFT: KeyModifiers = KeyModifiers {
    shift: true,
    ..PLAIN
};
const ALT: KeyModifiers = KeyModifiers { alt: true, ..PLAIN };
const CTRL: KeyModifiers = KeyModifiers {
    ctrl: true,
    ..PLAIN
};
const SUPER: KeyModifiers = KeyModifiers { sup: true, ..PLAIN };

fn terminal(rows: usize, cols: usize, lines: &[&str]) -> TerminalState {
    let mut state = TerminalState::new(rows, cols, 10, Vec::new());
    for (i, line) in lines.iter().enumerate() {
        if i > 0 {
            perform(&mut state, Action::Control(ControlCode::LineFeed));
        }
        for c in line.chars() {
            perform(&mut state, Action::Print(c));
        }
    }
    state
}

fn perform(state: &mut TerminalState, action: Action) {
    Performer { state }.perform(action);
}

fn set(state: &mut TerminalState, code: DecPrivateModeCode) {
    perform(
        state,
        Action::CSI(CSI::Mode(Mode::SetDecPrivateMode(DecPrivateMode::Code(code)))),
    );
}

fn mouse(
    state: &mut TerminalState,
    kind: MouseEventKind,
    button: MouseButton,
    x: usize,
    y: i64,
    now: u64,
) -> HostAction {
    let event = MouseEvent {
        kind,
        x,
        y,
        button,
        modifiers: PLAIN,
    };
    state.mouse_event(event, now)
}

fn press(state: &mut TerminalState, x: usize, y: i64, now: u64) -> HostAction {
    mouse(state, MouseEventKind::Press, MouseButton::Left, x, y, now)
}

fn release(state: &mut TerminalState, x: usize, y: i64, now: u64) -> HostAction {
    mouse(state, MouseEventKind::Release, MouseButton::Left, x, y, now)
}

fn drag(state: &mut TerminalState, x: usize, y: i64) -> HostAction {
    mouse(state, MouseEventKind::Move, MouseButton::Left, x, y, 0)
}

fn input(text: &str) -> Result<HostAction, KeyError> {
    Ok(HostAction::Input(text.to_string()))
}

fn clip(text: &str) -> HostAction {
    HostAction::SetClipboard(Some(text.to_string()))
}

#[test]
fn characters_are_sent_as_they_are() {
    let mut t = terminal(2, 2, &[]);
    assert_eq!(t.key_down(KeyCode::Char('a'), PLAIN), input("a"));
    assert_eq!(t.key_down(KeyCode::Char('\u{e9}'), PLAIN), input("\u{e9}"));
    assert_eq!(t.key_down(KeyCode::Char('a'), ALT), input("\x1ba"));
    assert_eq!(t.key_down(KeyCode::Char('\x7f'), PLAIN), input("\x1b[3~"));
}

#[test]
fn control_characters_do_not_depend_on_shift() {
    let mut t = terminal(2, 2, &[]);
    let both = KeyModifiers {
        shift: true,
        ..CTRL
    };
    assert_eq!(t.key_down(KeyCode::Char('c'), CTRL), input("\x03"));
    assert_eq!(t.key_down(KeyCode::Char('C'), both), input("\x03"));
    assert_eq!(t.key_down(KeyCode::Char('3'), CTRL), input("3"));
    assert_eq!(t.key_down(KeyCode::Char('\u{100}'), CTRL), input("\u{100}"));
}

#[test]
fn cursor_keys_depend_on_the_mode() {
    let mut t = terminal(2, 2, &[]);
    let keys = [
        (KeyCode::Up, 'A'),
        (KeyCode::Down, 'B'),
        (KeyCode::Right, 'C'),
        (KeyCode::Left, 'D'),
        (KeyCode::Home, 'H'),
        (KeyCode::End, 'F'),
    ];
    for (key, letter) in keys {
        assert_eq!(t.key_down(key, PLAIN), input(&format!("\x1b[{}", letter)));
    }
    set(&mut t, DecPrivateModeCode::ApplicationCursorKeys);
    for (key, letter) in keys {
        assert_eq!(t.key_down(key, PLAIN), input(&format!("\x1bO{}", letter)));
    }
}

#[test]
fn function_keys() {
    let mut t = terminal(2, 2, &[]);
    assert_eq!(t.key_down(KeyCode::F(1), PLAIN), input("\x1bOP"));
    assert_eq!(t.key_down(KeyCode::F(4), PLAIN), input("\x1bOS"));
    let numbers = [15, 17, 18, 19, 20, 21, 23, 24];
    for (i, number) in numbers.iter().enumerate() {
        let key = KeyCode::F(i as u8 + 5);
        assert_eq!(t.key_down(key, PLAIN), input(&format!("\x1b[{}~", number)));
    }
    assert_eq!(t.key_down(KeyCode::F(1), SHIFT), input("\x1b[11;2~"));
    assert_eq!(t.key_down(KeyCode::F(5), ALT), input("\x1b[15;3~"));
    assert_eq!(t.key_down(KeyCode::F(12), CTRL), input("\x1b[24;5~"));
    let all = KeyModifiers {
        shift: true,
        alt: true,
        ctrl: true,
        sup: false,
    };
    assert_eq!(t.key_down(KeyCode::F(2), all), input("\x1b[12;8~"));
    assert_eq!(
        t.key_down(KeyCode::F(13), PLAIN),
        Err(KeyError::UnhandledFKey(13))
    );
    assert_eq!(
        t.key_down(KeyCode::F(0), SHIFT),
        Err(KeyError::UnhandledFKey(0))
    );
}

#[test]
fn keys_for_the_host() {
    let mut t = terminal(2, 2, &[]);
    let both = KeyModifiers {
        shift: true,
        ..SUPER
    };
    assert_eq!(t.key_down(KeyCode::Char('n'), SUPER), Ok(HostAction::NewWindow));
    assert_eq!(t.key_down(KeyCode::Char('t'), SUPER), Ok(HostAction::NewTab));
    assert_eq!(
        t.key_down(KeyCode::Char('{'), both),
        Ok(HostAction::ActivateTabRelative(-1))
    );
    assert_eq!(
        t.key_down(KeyCode::Char(']'), both),
        Ok(HostAction::ActivateTabRelative(1))
    );
    assert_eq!(
        t.key_down(KeyCode::Char('1'), SUPER),
        Ok(HostAction::ActivateTab(0))
    );
    assert_eq!(
        t.key_down(KeyCode::Char('0'), SUPER),
        Ok(HostAction::ActivateTab(10))
    );
    assert_eq!(
        t.key_down(KeyCode::Char('\n'), ALT),
        Ok(HostAction::ToggleFullScreen)
    );
    assert_eq!(t.key_down(KeyCode::Insert, SHIFT), Ok(HostAction::PasteInput));
    assert_eq!(t.key_down(KeyCode::Insert, PLAIN), input("\x1b[2~"));
    assert_eq!(t.key_down(KeyCode::Shift, SHIFT), input(""));
    assert_eq!(t.key_down(KeyCode::Unknown, PLAIN), input(""));
    assert_eq!(t.key_up(KeyCode::Char('a'), PLAIN), Ok(HostAction::Nothing));
    assert_eq!(
        key_step(KeyCode::Insert, SHIFT, false),
        KeyStep::Host(HostAction::PasteInput)
    );
}

#[test]
fn pages_scroll_the_viewport() {
    let mut t = terminal(2, 2, &["a", "b", "c", "d", "e"]);
    assert_eq!(t.key_down(KeyCode::PageUp, PLAIN), input("\x1b[5~"));
    assert_eq!(t.key_down(KeyCode::PageDown, PLAIN), input("\x1b[6~"));
    assert_eq!(t.get_viewport_offset(), 0);
    assert_eq!(t.key_down(KeyCode::PageUp, SHIFT), input(""));
    assert_eq!(t.get_viewport_offset(), 2);
    t.input_sent("");
    assert_eq!(t.get_viewport_offset(), 2);
    assert_eq!(t.key_down(KeyCode::PageUp, SHIFT), input(""));
    assert_eq!(t.get_viewport_offset(), 3);
    assert_eq!(t.key_down(KeyCode::PageDown, SHIFT), input(""));
    assert_eq!(t.get_viewport_offset(), 1);
    t.input_sent("x");
    assert_eq!(t.get_viewport_offset(), 0);
}

#[test]
fn pastes_are_bracketed_where_asked_for() {
    let mut t = terminal(1, 1, &[]);
    assert_eq!(t.paste_text("ls\n"), "ls\n");
    set(&mut t, DecPrivateModeCode::BracketedPaste);
    assert_eq!(t.paste_text("ls\n"), "\x1b[200~ls\n\x1b[201~");
}

#[test]
fn dragging_selects_text() {
    let mut t = terminal(3, 10, &["hello", "world", "again"]);
    assert_eq!(press(&mut t, 1, 0, 1000), HostAction::SetClipboard(None));
    assert_eq!(t.get_selection_text(), "");
    assert_eq!(drag(&mut t, 2, 1), HostAction::Nothing);
    assert_eq!(t.get_selection_text(), "ello\nwor");
    t.clean_dirty_lines();
    drag(&mut t, 1, 2);
    assert_eq!(t.get_selection_text(), "ello\nworld\nag");
    let listed: Vec<(usize, std::ops::Range<usize>)> = t
        .get_dirty_lines()
        .into_iter()
        .map(|(i, _, sel)| (i, sel))
        .collect();
    assert_eq!(listed, vec![(0, 1..usize::MAX), (1, 0..usize::MAX), (2, 0..2)]);
    assert_eq!(release(&mut t, 1, 2, 1100), clip("ello\nworld\nag"));
    t.clear_selection();
    assert_eq!(t.get_selection_text(), "");
}

#[test]
fn dragging_upwards_selects_the_same_text() {
    let mut t = terminal(3, 10, &["hello", "world", "again"]);
    press(&mut t, 2, 1, 1000);
    drag(&mut t, 1, 0);
    assert_eq!(t.get_selection_text(), "ello\nwor");
}

#[test]
fn writing_over_the_selection_cancels_it() {
    let mut t = terminal(2, 10, &["hello", "world"]);
    press(&mut t, 1, 0, 1000);
    drag(&mut t, 2, 0);
    assert_eq!(t.get_selection_text(), "el");
    perform(&mut t, Action::Print('!'));
    assert_eq!(t.get_selection_text(), "el");
    perform(&mut t, Action::Control(ControlCode::CarriageReturn));
    perform(
        &mut t,
        Action::CSI(CSI::Cursor(wezterm::escape::Cursor::Position {
            line: 1,
            col: 2,
        })),
    );
    perform(&mut t, Action::Print('E'));
    assert_eq!(t.get_selection_text(), "");
}

#[test]
fn two_clicks_select_a_word() {
    let mut t = terminal(2, 20, &["say hello, world"]);
    press(&mut t, 6, 0, 1000);
    release(&mut t, 6, 0, 1050);
    assert_eq!(press(&mut t, 6, 0, 1100), clip("hello"));
    assert_eq!(t.get_selection_text(), "hello");
}

#[test]
fn three_clicks_select_a_line() {
    let mut t = terminal(2, 20, &["say hello, world", "next"]);
    press(&mut t, 6, 0, 1000);
    press(&mut t, 6, 0, 1100);
    assert_eq!(press(&mut t, 6, 0, 1200), clip("say hello, world"));
    assert_eq!(press(&mut t, 6, 0, 1300), HostAction::SetClipboard(None));
    assert_eq!(t.get_selection_text(), "");
}

#[test]
fn words_are_found_by_their_bytes() {
    let segments = vec![(0, 3), (3, 1), (4, 5)];
    assert_eq!(find_word(&segments, 0), Some((0, 3)));
    assert_eq!(find_word(&segments, 3), Some((0, 3)));
    assert_eq!(find_word(&segments, 4), Some((3, 1)));
    assert_eq!(find_word(&segments, 9), Some((4, 5)));
    assert_eq!(find_word(&segments, 10), None);
    assert_eq!(find_word(&vec![(5, 2)], 3), None);
}

#[test]
fn a_word_of_given_segments_is_selected() {
    let mut t = terminal(1, 10, &["ab cd"]);
    let segments = vec![(0, 2), (2, 1), (3, 2)];
    assert_eq!(t.select_word(4, 0, &segments), clip("cd"));
    assert_eq!(t.select_word(9, 0, &segments), HostAction::SetClipboard(None));
    assert_eq!(t.get_selection_text(), "");
}

#[test]
fn a_click_follows_a_link() {
    let mut t = terminal(1, 10, &[]);
    let link = || Hyperlink {
        uri: "https://a/".to_string(),
        implicit: false,
    };
    perform(
        &mut t,
        Action::OperatingSystemCommand(OperatingSystemCommand::SetHyperlink(Some(link()))),
    );
    perform(&mut t, Action::Print('a'));
    perform(&mut t, Action::Print('b'));
    press(&mut t, 1, 0, 1000);
    assert_eq!(t.current_highlight(), Some(link()));
    assert_eq!(release(&mut t, 1, 0, 1100), HostAction::ClickLink(link()));
    press(&mut t, 7, 0, 5000);
    assert_eq!(t.current_highlight(), None);
    assert_eq!(release(&mut t, 7, 0, 5100), HostAction::Nothing);
}

#[test]
fn the_mouse_is_clamped_to_the_screen() {
    let mut t = terminal(2, 4, &["ab", "cd"]);
    press(&mut t, 0, 0, 1000);
    drag(&mut t, 100, 100);
    assert_eq!(t.get_selection_text(), "ab\ncd");
}

#[test]
fn the_mouse_can_be_far_above_the_screen() {
    let mut t = terminal(2, 4, &["ab", "cd", "ef"]);
    t.scroll_viewport(-1);
    assert_eq!(press(&mut t, 0, i64::MIN, 1000), HostAction::SetClipboard(None));
    assert_eq!(t.current_highlight(), None);
}

#[test]
fn the_wheel_scrolls_the_viewport() {
    let mut t = terminal(2, 2, &["a", "b", "c", "d"]);
    let wheel = |t: &mut TerminalState, button| {
        mouse(t, MouseEventKind::Press, button, 0, 0, 1000)
    };
    assert_eq!(wheel(&mut t, MouseButton::WheelUp), HostAction::Nothing);
    assert_eq!(t.get_viewport_offset(), 1);
    assert_eq!(wheel(&mut t, MouseButton::WheelDown), HostAction::Nothing);
    assert_eq!(t.get_viewport_offset(), 0);
    set(&mut t, DecPrivateModeCode::ClearAndEnableAlternateScreen);
    assert_eq!(
        wheel(&mut t, MouseButton::WheelUp),
        HostAction::Input("\x1b[A".to_string())
    );
    set(&mut t, DecPrivateModeCode::SGRMouse);
    assert_eq!(
        wheel(&mut t, MouseButton::WheelDown),
        HostAction::Report("\x1b[<65;1;1M".to_string())
    );
}

#[test]
fn mouse_events_are_reported_where_asked_for() {
    let mut t = terminal(4, 10, &[]);
    let middle = MouseButton::Middle;
    assert_eq!(
        mouse(&mut t, MouseEventKind::Press, middle, 0, 0, 1000),
        HostAction::PasteReport
    );
    set(&mut t, DecPrivateModeCode::SGRMouse);
    set(&mut t, DecPrivateModeCode::ButtonEventMouse);
    assert_eq!(
        press(&mut t, 4, 2, 1000),
        HostAction::Report("\x1b[<0;5;3M".to_string())
    );
    assert_eq!(
        drag(&mut t, 5, 2),
        HostAction::Report("\x1b[<32;6;3M".to_string())
    );
    assert_eq!(
        release(&mut t, 5, 2, 1100),
        HostAction::Report("\x1b[<3;6;3m".to_string())
    );
    assert_eq!(drag(&mut t, 6, 2), HostAction::Nothing);
    assert_eq!(
        mouse(&mut t, MouseEventKind::Press, middle, 0, 0, 9000),
        HostAction::Report("\x1b[<1;1;1M".to_string())
    );
    let shifted = MouseEvent {
        kind: MouseEventKind::Press,
        x: 0,
        y: 0,
        button: MouseButton::Left,
        modifiers: SHIFT,
    };
    assert_eq!(t.mouse_event(shifted, 20000), HostAction::SetClipboard(None));
}

#[test]
fn input_changes_no_text() {
    let mut t = terminal(2, 6, &["one", "two", "three"]);
    let text = |t: &TerminalState| -> Vec<String> {
        t.screen().lines.iter().map(|l| l.as_str()).collect()
    };
    let before = text(&t);
    press(&mut t, 0, 0, 1000);
    drag(&mut t, 3, 1);
    release(&mut t, 3, 1, 1100);
    press(&mut t, 3, 1, 1200);
    press(&mut t, 3, 1, 1300);
    mouse(&mut t, MouseEventKind::Press, MouseButton::WheelUp, 0, 0, 9000);
    t.key_down(KeyCode::PageUp, SHIFT).unwrap();
    t.key_down(KeyCode::Char('x'), PLAIN).unwrap();
    t.input_sent("x");
    assert_eq!(text(&t), before);
    assert_eq!(t.cursor_pos().x, 5);
    assert_eq!(t.cursor_pos().y, 1);
}
