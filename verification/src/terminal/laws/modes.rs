//! What the modes do that a program sets and resets.
use super::super::model::TerminalModel;
use super::performed;
use crate::escape::{Action, DecPrivateMode, DecPrivateModeCode, Esc, EscCode, Mode, CSI};
use crate::host::HostModel;
use crate::input::{KeyCode, KeyModifiers};
use crate::terminal::keyboard::KeyError;
use vstd::prelude::*;

verus! {

/// The terminal after a mode was set or reset.
pub open spec fn with_mode(t: TerminalModel, code: DecPrivateModeCode, on: bool) -> TerminalModel {
    let mode = DecPrivateMode::Code(code);
    performed(
        t,
        Action::CSI(
            CSI::Mode(
                if on {
                    Mode::SetDecPrivateMode(mode)
                } else {
                    Mode::ResetDecPrivateMode(mode)
                },
            ),
        ),
    )
}

#[verifier::rlimit(60)]
proof fn lemma_mode(t: TerminalModel, code: DecPrivateModeCode, on: bool)
    ensures
        with_mode(t, code, on) == t.set_mode(code, on),
{
    reveal(performed);
}

/// A mode is on after it was set and off after it was reset, whatever it was before, and
/// every other mode is as it was.
pub proof fn law_mode(t: TerminalModel, code: DecPrivateModeCode, on: bool)
    requires
        code != DecPrivateModeCode::ClearAndEnableAlternateScreen,
    ensures
        ({
            let after = with_mode(t, code, on);
            &&& after.bracketed_paste == if code is BracketedPaste {
                on
            } else {
                t.bracketed_paste
            }
            &&& after.application_cursor_keys == if code is ApplicationCursorKeys {
                on
            } else {
                t.application_cursor_keys
            }
            &&& after.cursor_visible == if code is ShowCursor {
                on
            } else {
                t.cursor_visible
            }
            &&& after.button_event_mouse == if code is ButtonEventMouse {
                on
            } else {
                t.button_event_mouse
            }
            &&& after.sgr_mouse == if code is SGRMouse {
                on
            } else {
                t.sgr_mouse
            }
            &&& after.application_keypad == t.application_keypad
            &&& after.alt_screen_is_active == t.alt_screen_is_active
            &&& after.screen == t.screen
            &&& after.alt_screen == t.alt_screen
            &&& after.cursor == t.cursor
            &&& after.saved_cursor == t.saved_cursor
            &&& after.wrap_next == t.wrap_next
            &&& after.pen == t.pen
            &&& after.region_start == t.region_start
            &&& after.region_end == t.region_end
            &&& after.tabs == t.tabs
            &&& after.viewport == t.viewport
            &&& after.selection_range == t.selection_range
            &&& after.selection_start == t.selection_start
        }),
{
    lemma_mode(t, code, on);
}

/// The alternate screen is shown after its mode was set, and the primary one after it was
/// reset.
pub proof fn law_alt_screen_mode(t: TerminalModel, on: bool)
    ensures
        with_mode(
            t,
            DecPrivateModeCode::ClearAndEnableAlternateScreen,
            on,
        ).alt_screen_is_active == on,
{
    lemma_mode(t, DecPrivateModeCode::ClearAndEnableAlternateScreen, on);
    let shown = t.save_cursor().show_screen(true).cursor_to(0, 0);
    assert(shown.alt_screen_is_active);
    let left = t.show_screen(false).restore_cursor();
    assert(!left.alt_screen_is_active);
}

/// Text is pasted between two markers while the mode for that is set, and as it is once
/// the mode is reset.
pub proof fn law_bracketed_paste(t: TerminalModel, clip: Seq<char>)
    ensures
        with_mode(t, DecPrivateModeCode::BracketedPaste, false).paste_text(clip) == clip,
        with_mode(t, DecPrivateModeCode::BracketedPaste, true).paste_text(clip) == seq![
            '\x1b',
            '[',
            '2',
            '0',
            '0',
            '~',
        ] + clip + seq!['\x1b', '[', '2', '0', '1', '~'],
{
    lemma_mode(t, DecPrivateModeCode::BracketedPaste, false);
    lemma_mode(t, DecPrivateModeCode::BracketedPaste, true);
}

/// A cursor key sends an escape, then a bracket, or the letter `O` while the mode for that
/// is set, then a letter of its own.
pub proof fn law_cursor_keys(t: TerminalModel, on: bool, mods: KeyModifiers)
    ensures
        ({
            let after = with_mode(t, DecPrivateModeCode::ApplicationCursorKeys, on);
            let second = if on {
                'O'
            } else {
                '['
            };
            &&& after.key_down(KeyCode::Up, mods) == (
                after,
                Ok::<_, KeyError>(HostModel::Input(seq!['\x1b', second, 'A'])),
            )
            &&& after.key_down(KeyCode::Down, mods) == (
                after,
                Ok::<_, KeyError>(HostModel::Input(seq!['\x1b', second, 'B'])),
            )
            &&& after.key_down(KeyCode::Right, mods) == (
                after,
                Ok::<_, KeyError>(HostModel::Input(seq!['\x1b', second, 'C'])),
            )
            &&& after.key_down(KeyCode::Left, mods) == (
                after,
                Ok::<_, KeyError>(HostModel::Input(seq!['\x1b', second, 'D'])),
            )
            &&& after.key_down(KeyCode::Home, mods) == (
                after,
                Ok::<_, KeyError>(HostModel::Input(seq!['\x1b', second, 'H'])),
            )
            &&& after.key_down(KeyCode::End, mods) == (
                after,
                Ok::<_, KeyError>(HostModel::Input(seq!['\x1b', second, 'F'])),
            )
        }),
{
    lemma_mode(t, DecPrivateModeCode::ApplicationCursorKeys, on);
}

#[verifier::rlimit(60)]
proof fn lemma_other_mode(t: TerminalModel, mode: Mode)
    requires
        !(mode matches Mode::SetDecPrivateMode(m) && m is Code),
        !(mode matches Mode::ResetDecPrivateMode(m) && m is Code),
    ensures
        performed(t, Action::CSI(CSI::Mode(mode))) == t,
{
    reveal(performed);
}

/// A mode that is saved or restored, or that the terminal does not know, changes nothing.
pub proof fn law_unknown_mode(t: TerminalModel, mode: Mode)
    requires
        match mode {
            Mode::SetDecPrivateMode(m) => m is Unspecified,
            Mode::ResetDecPrivateMode(m) => m is Unspecified,
            _ => true,
        },
    ensures
        performed(t, Action::CSI(CSI::Mode(mode))) == t,
{
    lemma_other_mode(t, mode);
}

/// The keypad is in application mode after the sequence for that, and in normal mode after
/// the other, and nothing else is changed.
#[verifier::rlimit(60)]
pub proof fn law_keypad(t: TerminalModel)
    ensures
        ({
            let on = performed(t, Action::Esc(Esc::Code(EscCode::DecApplicationKeyPad)));
            let off = performed(t, Action::Esc(Esc::Code(EscCode::DecNormalKeyPad)));
            &&& on.application_keypad
            &&& !off.application_keypad
            &&& t.application_keypad ==> on == t
            &&& !t.application_keypad ==> off == t
        }),
{
    reveal(performed);
}

} // verus!
