//! What the keys stand for.
use super::model::TerminalModel;
use super::TerminalState;
use crate::host::{HostAction, HostModel};
use crate::input::{KeyCode, KeyModifiers};
use vstd::prelude::*;

verus! {

/// A key that nothing is sent for.
#[derive(Debug, Clone, Copy, PartialEq, Eq, Structural)]
pub enum KeyError {
    /// There is no function key of this number.
    UnhandledFKey(u8),
}

/// What a key comes to.
#[derive(Debug, PartialEq, Eq)]
pub enum KeyStep {
    /// Something that the embedding program does.
    Host(HostAction),
    /// Text for the program in the terminal.
    Text(String),
    /// The viewport moves down by so many pages.
    Scroll(i64),
    Failed(KeyError),
}

pub enum KeyStepModel {
    Host(HostModel),
    Text(Seq<char>),
    Scroll(int),
    Failed(KeyError),
}

impl View for KeyStep {
    type V = KeyStepModel;

    open spec fn view(&self) -> KeyStepModel {
        match self {
            KeyStep::Host(action) => KeyStepModel::Host(action@),
            KeyStep::Text(text) => KeyStepModel::Text(text@),
            KeyStep::Scroll(pages) => KeyStepModel::Scroll(*pages as int),
            KeyStep::Failed(error) => KeyStepModel::Failed(*error),
        }
    }
}

/// What the embedding program does for a key with the super modifier.
pub open spec fn super_key(key: KeyCode, mods: KeyModifiers) -> Option<HostModel> {
    let only_super = mods.sup && !mods.shift && !mods.alt && !mods.ctrl;
    let super_shift = mods.sup && mods.shift && !mods.alt && !mods.ctrl;
    match key {
        KeyCode::Char(c) => if only_super && c == 'n' {
            Some(HostModel::NewWindow)
        } else if only_super && c == 't' {
            Some(HostModel::NewTab)
        } else if super_shift && (c == '[' || c == '{') {
            Some(HostModel::ActivateTabRelative(-1))
        } else if super_shift && (c == ']' || c == '}') {
            Some(HostModel::ActivateTabRelative(1))
        } else if only_super && c == '0' {
            // 0 is right of 9 on a keyboard
            Some(HostModel::ActivateTab(10))
        } else if only_super && '1' <= c <= '9' {
            Some(HostModel::ActivateTab(c as int - '1' as int))
        } else {
            None
        },
        _ => None,
    }
}

/// What a character key sends.
pub open spec fn char_key_text(c: char, mods: KeyModifiers) -> Seq<char> {
    if c == '\x7f' {
        seq!['\x1b', '[', '3', '~']
    } else if mods.ctrl && mods.shift && '\x40' < c <= '\u{ff}' {
        seq![(c as u32 - 0x40) as char]
    } else if mods.ctrl && '\x60' < c <= '\u{ff}' {
        seq![(c as u32 - 0x60) as char]
    } else if mods.alt {
        seq!['\x1b', c]
    } else {
        seq![c]
    }
}

/// The letter that ends the sequence of a cursor key.
pub open spec fn cursor_key_letter(key: KeyCode) -> Option<char> {
    match key {
        KeyCode::Up => Some('A'),
        KeyCode::Down => Some('B'),
        KeyCode::Right => Some('C'),
        KeyCode::Left => Some('D'),
        KeyCode::Home => Some('H'),
        KeyCode::End => Some('F'),
        _ => None,
    }
}

/// The number of a function key in its sequence.
pub open spec fn fkey_number(n: u8) -> Option<Seq<char>> {
    match n {
        1 => Some(seq!['1', '1']),
        2 => Some(seq!['1', '2']),
        3 => Some(seq!['1', '3']),
        4 => Some(seq!['1', '4']),
        5 => Some(seq!['1', '5']),
        6 => Some(seq!['1', '7']),
        7 => Some(seq!['1', '8']),
        8 => Some(seq!['1', '9']),
        9 => Some(seq!['2', '0']),
        10 => Some(seq!['2', '1']),
        11 => Some(seq!['2', '3']),
        12 => Some(seq!['2', '4']),
        _ => None,
    }
}

/// The number of the modifiers in the sequence of a function key.
pub open spec fn modifier_number(mods: KeyModifiers) -> int {
    1 + (if mods.shift {
        1int
    } else {
        0
    }) + (if mods.alt {
        2int
    } else {
        0
    }) + (if mods.ctrl {
        4int
    } else {
        0
    })
}

/// The modifiers in the sequence of a function key; nothing where there are none.
pub open spec fn fkey_modifier(mods: KeyModifiers) -> Seq<char> {
    if modifier_number(mods) == 1 {
        Seq::empty()
    } else {
        seq![';', ('0' as int + modifier_number(mods)) as char]
    }
}

/// What a function key comes to. F1 to F4 are encoded using SS3 if there are no
/// modifiers; higher numbered F-keys plus modified F-keys are encoded using CSI
/// instead of SS3.
pub open spec fn fkey_step(n: u8, mods: KeyModifiers) -> KeyStepModel {
    if modifier_number(mods) == 1 && n < 5 {
        KeyStepModel::Text(seq!['\x1b', 'O', ('P' as int + n - 1) as char])
    } else {
        match fkey_number(n) {
            Some(number) => KeyStepModel::Text(
                seq!['\x1b', '['] + number + fkey_modifier(mods) + seq!['~'],
            ),
            None => KeyStepModel::Failed(KeyError::UnhandledFKey(n)),
        }
    }
}

/// What a key comes to.
pub open spec fn key_step_of(
    key: KeyCode,
    mods: KeyModifiers,
    application_cursor_keys: bool,
) -> KeyStepModel {
    match super_key(key, mods) {
        Some(action) => KeyStepModel::Host(action),
        None => match key {
            KeyCode::Char(c) => if c == '\n' && mods.alt {
                KeyStepModel::Host(HostModel::ToggleFullScreen)
            } else {
                KeyStepModel::Text(char_key_text(c, mods))
            },
            KeyCode::Insert => if mods.shift {
                KeyStepModel::Host(HostModel::PasteInput)
            } else {
                KeyStepModel::Text(seq!['\x1b', '[', '2', '~'])
            },
            KeyCode::PageUp => if mods.shift {
                KeyStepModel::Scroll(-1)
            } else {
                KeyStepModel::Text(seq!['\x1b', '[', '5', '~'])
            },
            KeyCode::PageDown => if mods.shift {
                KeyStepModel::Scroll(1)
            } else {
                KeyStepModel::Text(seq!['\x1b', '[', '6', '~'])
            },
            KeyCode::F(n) => fkey_step(n, mods),
            _ => match cursor_key_letter(key) {
                Some(letter) => KeyStepModel::Text(
                    seq![
                        '\x1b',
                        if application_cursor_keys {
                            'O'
                        } else {
                            '['
                        },
                        letter,
                    ],
                ),
                // Modifier keys pressed on their own and unmappable keys don't
                // expand to anything
                None => KeyStepModel::Text(Seq::empty()),
            },
        },
    }
}

/// The view of what a key press returns.
pub open spec fn key_result_view(result: Result<HostAction, KeyError>) -> Result<
    HostModel,
    KeyError,
> {
    match result {
        Ok(action) => Ok(action@),
        Err(error) => Err(error),
    }
}

impl TerminalModel {
    /// The terminal after a key press, and what is to be done.
    pub open spec fn key_down(self, key: KeyCode, mods: KeyModifiers) -> (
        TerminalModel,
        Result<HostModel, KeyError>,
    ) {
        match key_step_of(key, mods, self.application_cursor_keys) {
            KeyStepModel::Host(action) => (self, Ok(action)),
            KeyStepModel::Text(text) => (self, Ok(HostModel::Input(text))),
            KeyStepModel::Scroll(pages) => (
                if pages < 0 {
                    self.scroll_viewport(-self.rows())
                } else {
                    self.scroll_viewport(self.rows())
                },
                Ok(HostModel::Input(Seq::empty())),
            ),
            KeyStepModel::Failed(error) => (self, Err(error)),
        }
    }

    /// The terminal after text for the program in it was sent: where there was any,
    /// the viewport is back at the bottom.
    pub open spec fn input_sent(self, text: Seq<char>) -> TerminalModel {
        if text.len() > 0 && self.viewport != 0 {
            self.set_scroll_viewport(0)
        } else {
            self
        }
    }

    /// How text from the clipboard is sent.
    pub open spec fn paste_text(self, clip: Seq<char>) -> Seq<char> {
        if self.bracketed_paste {
            seq!['\x1b', '[', '2', '0', '0', '~'] + clip + seq!['\x1b', '[', '2', '0', '1', '~']
        } else {
            clip
        }
    }
}

fn text1(a: char) -> (text: String)
    ensures
        text@ == seq![a],
{
    let mut text = String::new();
    text.push(a);
    assert(text@ =~= seq![a]);
    text
}

fn text2(a: char, b: char) -> (text: String)
    ensures
        text@ == seq![a, b],
{
    let mut text = text1(a);
    text.push(b);
    assert(text@ =~= seq![a, b]);
    text
}

fn text3(a: char, b: char, c: char) -> (text: String)
    ensures
        text@ == seq![a, b, c],
{
    let mut text = text2(a, b);
    text.push(c);
    assert(text@ =~= seq![a, b, c]);
    text
}

fn text4(a: char, b: char, c: char, d: char) -> (text: String)
    ensures
        text@ == seq![a, b, c, d],
{
    let mut text = text3(a, b, c);
    text.push(d);
    assert(text@ =~= seq![a, b, c, d]);
    text
}

fn super_key_action(key: KeyCode, mods: KeyModifiers) -> (action: Option<HostAction>)
    ensures
        match action {
            Some(a) => super_key(key, mods) == Some(a@),
            None => super_key(key, mods) is None,
        },
{
    let only_super = mods.sup && !mods.shift && !mods.alt && !mods.ctrl;
    let super_shift = mods.sup && mods.shift && !mods.alt && !mods.ctrl;
    if let KeyCode::Char(c) = key {
        if only_super && c == 'n' {
            return Some(HostAction::NewWindow);
        }
        if only_super && c == 't' {
            return Some(HostAction::NewTab);
        }
        if super_shift && (c == '[' || c == '{') {
            return Some(HostAction::ActivateTabRelative(-1));
        }
        if super_shift && (c == ']' || c == '}') {
            return Some(HostAction::ActivateTabRelative(1));
        }
        if only_super && c >= '0' && c <= '9' {
            let tab_number: u32 = c as u32 - 0x30;
            // Treat 0 as 10 as that is physically right of 9 on
            // a keyboard
            let tab_number: u32 = if tab_number == 0 {
                10
            } else {
                tab_number - 1
            };
            return Some(HostAction::ActivateTab(tab_number as usize));
        }
    }
    None
}

fn char_key(c: char, mods: KeyModifiers) -> (text: String)
    ensures
        text@ == char_key_text(c, mods),
{
    if c == '\x7f' {
        text4('\x1b', '[', '3', '~')
    } else if mods.ctrl && mods.shift && c <= '\u{ff}' && c > '\x40' {
        // If shift is held we have C == 0x43 and want to translate
        // that into 0x03
        text1((c as u8 - 0x40) as char)
    } else if mods.ctrl && c <= '\u{ff}' && c > '\x60' {
        // If shift is not held we have C == 0x63 and want to translate
        // that into 0x03
        text1((c as u8 - 0x60) as char)
    } else if mods.alt {
        text2('\x1b', c)
    } else {
        text1(c)
    }
}

fn fkey(n: u8, mods: KeyModifiers) -> (step: KeyStep)
    requires
        n > 0 || modifier_number(mods) != 1,
    ensures
        step@ == fkey_step(n, mods),
{
    let mut modifier: u8 = 1;
    if mods.shift {
        modifier = modifier + 1;
    }
    if mods.alt {
        modifier = modifier + 2;
    }
    if mods.ctrl {
        modifier = modifier + 4;
    }
    assert(modifier == modifier_number(mods));
    if modifier == 1 && n < 5 {
        return KeyStep::Text(text3('\x1b', 'O', (0x50 + n - 1) as char));
    }
    let mut text = text2('\x1b', '[');
    match n {
        1 => text.append("11"),
        2 => text.append("12"),
        3 => text.append("13"),
        4 => text.append("14"),
        5 => text.append("15"),
        6 => text.append("17"),
        7 => text.append("18"),
        8 => text.append("19"),
        9 => text.append("20"),
        10 => text.append("21"),
        11 => text.append("23"),
        12 => text.append("24"),
        _ => return KeyStep::Failed(KeyError::UnhandledFKey(n)),
    }
    proof {
        reveal_strlit("11");
        reveal_strlit("12");
        reveal_strlit("13");
        reveal_strlit("14");
        reveal_strlit("15");
        reveal_strlit("17");
        reveal_strlit("18");
        reveal_strlit("19");
        reveal_strlit("20");
        reveal_strlit("21");
        reveal_strlit("23");
        reveal_strlit("24");
        assert(text@ =~= seq!['\x1b', '['] + fkey_number(n).unwrap());
    }
    if modifier != 1 {
        text.push(';');
        text.push((0x30 + modifier) as char);
    }
    text.push('~');
    assert(text@ =~= seq!['\x1b', '['] + fkey_number(n).unwrap() + fkey_modifier(mods) + seq!['~']);
    KeyStep::Text(text)
}

/// What a key comes to.
pub fn key_step(key: KeyCode, mods: KeyModifiers, application_cursor_keys: bool) -> (step: KeyStep)
    requires
        key == KeyCode::F(0) ==> modifier_number(mods) != 1,
    ensures
        step@ == key_step_of(key, mods, application_cursor_keys),
{
    if let Some(action) = super_key_action(key, mods) {
        return KeyStep::Host(action);
    }
    let introducer: char = if application_cursor_keys {
        'O'
    } else {
        '['
    };
    match key {
        KeyCode::Char(c) => if c == '\n' && mods.alt {
            KeyStep::Host(HostAction::ToggleFullScreen)
        } else {
            KeyStep::Text(char_key(c, mods))
        },
        KeyCode::Insert => if mods.shift {
            KeyStep::Host(HostAction::PasteInput)
        } else {
            KeyStep::Text(text4('\x1b', '[', '2', '~'))
        },
        KeyCode::PageUp => if mods.shift {
            KeyStep::Scroll(-1)
        } else {
            KeyStep::Text(text4('\x1b', '[', '5', '~'))
        },
        KeyCode::PageDown => if mods.shift {
            KeyStep::Scroll(1)
        } else {
            KeyStep::Text(text4('\x1b', '[', '6', '~'))
        },
        KeyCode::F(n) => fkey(n, mods),
        KeyCode::Up => KeyStep::Text(text3('\x1b', introducer, 'A')),
        KeyCode::Down => KeyStep::Text(text3('\x1b', introducer, 'B')),
        KeyCode::Right => KeyStep::Text(text3('\x1b', introducer, 'C')),
        KeyCode::Left => KeyStep::Text(text3('\x1b', introducer, 'D')),
        KeyCode::Home => KeyStep::Text(text3('\x1b', introducer, 'H')),
        KeyCode::End => KeyStep::Text(text3('\x1b', introducer, 'F')),
        KeyCode::Control
        | KeyCode::Alt
        | KeyCode::Meta
        | KeyCode::Super
        | KeyCode::Hyper
        | KeyCode::Shift
        | KeyCode::Unknown => KeyStep::Text(String::new()),
    }
}

impl TerminalState {
    /// Processes a key_down event generated by the gui/render layer
    /// that is embedding the Terminal.  This method translates the
    /// keycode into what is to be sent to the slave end of the pty, or
    /// into something that the embedding program is to do.
    pub fn key_down(&mut self, key: KeyCode, mods: KeyModifiers) -> (action: Result<
        HostAction,
        KeyError,
    >)
        requires
            old(self)@.wf(),
            key == KeyCode::F(0) ==> modifier_number(mods) != 1,
        ensures
            final(self)@ == old(self)@.key_down(key, mods).0,
            key_result_view(action) == old(self)@.key_down(key, mods).1,
            final(self)@.wf(),
    {
        match key_step(key, mods, self.application_cursor_keys) {
            KeyStep::Host(action) => Ok(action),
            KeyStep::Text(text) => Ok(HostAction::Input(text)),
            KeyStep::Scroll(pages) => {
                let rows: i64 = self.screen().physical_rows as i64;
                if pages < 0 {
                    self.scroll_viewport(-rows);
                } else {
                    self.scroll_viewport(rows);
                }
                Ok(HostAction::Input(String::new()))
            },
            KeyStep::Failed(error) => Err(error),
        }
    }

    /// A key that goes up is not reported.
    pub fn key_up(&mut self, key: KeyCode, mods: KeyModifiers) -> (action: Result<
        HostAction,
        KeyError,
    >)
        ensures
            *final(self) == *old(self),
            action == Ok::<HostAction, KeyError>(HostAction::Nothing),
    {
        Ok(HostAction::Nothing)
    }

    /// Resets the viewport once data was sent to the program in the terminal.
    pub fn input_sent(&mut self, text: &str)
        requires
            old(self)@.wf(),
        ensures
            final(self)@ == old(self)@.input_sent(text@),
            final(self)@.wf(),
    {
        if !text.is_empty() && self.viewport_offset != 0 {
            self.set_scroll_viewport(0);
        }
    }

    /// How text from the clipboard is sent to the program in the terminal: between
    /// markers where it has asked for that.
    pub fn paste_text(&self, clip: &str) -> (text: String)
        ensures
            text@ == self@.paste_text(clip@),
    {
        let mut text = String::new();
        if self.bracketed_paste {
            text.append("\x1b[200~");
            text.append(clip);
            text.append("\x1b[201~");
            proof {
                reveal_strlit("\x1b[200~");
                reveal_strlit("\x1b[201~");
                assert(text@ =~= self@.paste_text(clip@));
            }
        } else {
            text.append(clip);
            assert(text@ =~= clip@);
        }
        text
    }
}

} // verus!
