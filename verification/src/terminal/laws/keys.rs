//! What the keys send.
use super::super::keyboard::KeyError;
use super::super::model::TerminalModel;
use crate::host::HostModel;
use crate::input::{KeyCode, KeyModifiers};
use crate::text::decimal;
use vstd::prelude::*;

verus! {

/// Whether a key press sends a text and leaves the terminal as it is.
pub open spec fn sends(
    t: TerminalModel,
    key: KeyCode,
    mods: KeyModifiers,
    text: Seq<char>,
) -> bool {
    t.key_down(key, mods) == (t, Ok::<HostModel, KeyError>(HostModel::Input(text)))
}

/// Whether a key press asks for something and leaves the terminal as it is.
pub open spec fn asks(
    t: TerminalModel,
    key: KeyCode,
    mods: KeyModifiers,
    action: HostModel,
) -> bool {
    t.key_down(key, mods) == (t, Ok::<HostModel, KeyError>(action))
}

/// A character key sends its character; the alt modifier puts an escape before it. The
/// delete character is sent as the sequence of the delete key.
pub proof fn law_char_key(t: TerminalModel, c: char, mods: KeyModifiers)
    requires
        !mods.ctrl,
        !mods.sup,
    ensures
        c == '\x7f' ==> sends(t, KeyCode::Char(c), mods, seq!['\x1b', '[', '3', '~']),
        c != '\x7f' && !mods.alt ==> sends(t, KeyCode::Char(c), mods, seq![c]),
        c != '\x7f' && c != '\n' && mods.alt ==> sends(
            t,
            KeyCode::Char(c),
            mods,
            seq!['\x1b', c],
        ),
        c == '\n' && mods.alt ==> asks(t, KeyCode::Char(c), mods, HostModel::ToggleFullScreen),
{
}

/// With control a letter sends the character whose code is its number in the alphabet, in
/// lower case without shift and in upper case with it.
pub proof fn law_control_letter(t: TerminalModel, c: char, mods: KeyModifiers, sent: char)
    requires
        mods.ctrl,
        if mods.shift {
            'A' <= c <= 'Z' && sent as int == c as int - 'A' as int + 1
        } else {
            'a' <= c <= 'z' && sent as int == c as int - 'a' as int + 1
        },
    ensures
        1 <= sent as int <= 26,
        sends(t, KeyCode::Char(c), mods, seq![sent]),
{
}

/// With control two letters send different characters.
pub proof fn law_control_letters_differ(t: TerminalModel, a: char, b: char, mods: KeyModifiers)
    requires
        mods.ctrl,
        a != b,
        if mods.shift {
            'A' <= a <= 'Z' && 'A' <= b <= 'Z'
        } else {
            'a' <= a <= 'z' && 'a' <= b <= 'z'
        },
    ensures
        t.key_down(KeyCode::Char(a), mods).1 != t.key_down(KeyCode::Char(b), mods).1,
{
    let first = if mods.shift {
        'A'
    } else {
        'a'
    };
    let x = (a as int - first as int + 1) as char;
    let y = (b as int - first as int + 1) as char;
    law_control_letter(t, a, mods, x);
    law_control_letter(t, b, mods, y);
    assert(seq![x][0] != seq![y][0]);
}

/// With control the characters after the letters are counted as the letters are: from the
/// grave accent, or with shift from the at sign. Those before it send themselves.
pub proof fn law_control_character(t: TerminalModel, c: char, mods: KeyModifiers, sent: char)
    requires
        mods.ctrl,
        c != '\x7f',
        if mods.shift && '@' < c <= '\u{ff}' {
            sent as int == c as int - '@' as int
        } else if '`' < c <= '\u{ff}' {
            sent as int == c as int - '`' as int
        } else {
            sent == c && !mods.alt
        },
    ensures
        sends(t, KeyCode::Char(c), mods, seq![sent]),
{
}

/// Insert and the page keys send their sequences. With shift, insert pastes, and the page
/// keys move the viewport by as many lines as the screen has rows, as far as there are
/// lines, and send nothing.
pub proof fn law_paging_keys(t: TerminalModel, mods: KeyModifiers)
    requires
        t.wf(),
    ensures
        !mods.shift ==> {
            &&& sends(t, KeyCode::Insert, mods, seq!['\x1b', '[', '2', '~'])
            &&& sends(t, KeyCode::PageUp, mods, seq!['\x1b', '[', '5', '~'])
            &&& sends(t, KeyCode::PageDown, mods, seq!['\x1b', '[', '6', '~'])
        },
        mods.shift ==> {
            let up = t.key_down(KeyCode::PageUp, mods);
            let down = t.key_down(KeyCode::PageDown, mods);
            &&& asks(t, KeyCode::Insert, mods, HostModel::PasteInput)
            &&& up.1 == Ok::<_, KeyError>(HostModel::Input(Seq::empty()))
            &&& down.1 == Ok::<_, KeyError>(HostModel::Input(Seq::empty()))
            &&& up.0.viewport == if t.viewport + t.rows() < t.active().top() {
                t.viewport + t.rows()
            } else {
                t.active().top()
            }
            &&& down.0.viewport == if t.viewport > t.rows() {
                t.viewport - t.rows()
            } else {
                0
            }
        },
{
}

/// The number that stands for the modifiers in a sequence: one more than the sum of one
/// for shift, two for alt and four for control.
pub open spec fn modifiers_sum(mods: KeyModifiers) -> nat {
    (1 + if mods.shift {
        1nat
    } else {
        0
    } + if mods.alt {
        2nat
    } else {
        0
    } + if mods.ctrl {
        4nat
    } else {
        0
    }) as nat
}

/// The number that stands for a function key in a sequence. It skips one number after the
/// fifth and one after the tenth key.
pub open spec fn function_key_number(n: u8) -> nat {
    (10 + n + if n > 5 {
        1nat
    } else {
        0
    } + if n > 10 {
        1nat
    } else {
        0
    }) as nat
}

/// The first four function keys send an escape, the letter `O` and the letters from `P` on.
/// The others, and all of them with modifiers, send their number and that of the
/// modifiers. There are twelve.
pub proof fn law_function_keys(t: TerminalModel, n: u8, mods: KeyModifiers)
    requires
        1 <= n,
    ensures
        modifiers_sum(mods) == 1 && n <= 4 ==> sends(
            t,
            KeyCode::F(n),
            mods,
            seq![
                '\x1b',
                'O',
                if n == 1 {
                    'P'
                } else if n == 2 {
                    'Q'
                } else if n == 3 {
                    'R'
                } else {
                    'S'
                },
            ],
        ),
        modifiers_sum(mods) == 1 && 5 <= n <= 12 ==> sends(
            t,
            KeyCode::F(n),
            mods,
            seq!['\x1b', '['] + decimal(function_key_number(n)) + seq!['~'],
        ),
        modifiers_sum(mods) > 1 && n <= 12 ==> sends(
            t,
            KeyCode::F(n),
            mods,
            seq!['\x1b', '['] + decimal(function_key_number(n)) + seq![';'] + decimal(
                modifiers_sum(mods),
            ) + seq!['~'],
        ),
        n > 12 ==> t.key_down(KeyCode::F(n), mods) == (
            t,
            Err::<HostModel, _>(KeyError::UnhandledFKey(n)),
        ),
{
    if n <= 12 {
        lemma_function_key_text(n, mods);
    }
}

proof fn lemma_function_key_text(n: u8, mods: KeyModifiers)
    requires
        1 <= n <= 12,
    ensures
        crate::terminal::keyboard::fkey_number(n) == Some(decimal(function_key_number(n))),
        modifiers_sum(mods) == crate::terminal::keyboard::modifier_number(mods),
        modifiers_sum(mods) == 1 ==> seq!['\x1b', '['] + decimal(function_key_number(n))
            + crate::terminal::keyboard::fkey_modifier(mods) + seq!['~'] == seq!['\x1b', '[']
            + decimal(function_key_number(n)) + seq!['~'],
        modifiers_sum(mods) > 1 ==> seq!['\x1b', '['] + decimal(function_key_number(n))
            + crate::terminal::keyboard::fkey_modifier(mods) + seq!['~'] == seq!['\x1b', '[']
            + decimal(function_key_number(n)) + seq![';'] + decimal(modifiers_sum(mods)) + seq!['~'],
{
    reveal_with_fuel(decimal, 2);
    assert(crate::terminal::keyboard::fkey_number(n)->Some_0 =~= decimal(function_key_number(n)));
}

/// The super modifier with a letter or a digit asks for a window or a tab. The digits from
/// one on count the tabs from zero; zero, which stands after nine, counts on past it.
pub proof fn law_super_keys(t: TerminalModel, c: char, mods: KeyModifiers)
    requires
        mods.sup,
        !mods.alt,
        !mods.ctrl,
    ensures
        !mods.shift ==> {
            &&& asks(t, KeyCode::Char('n'), mods, HostModel::NewWindow)
            &&& asks(t, KeyCode::Char('t'), mods, HostModel::NewTab)
            &&& '1' <= c <= '9' ==> asks(
                t,
                KeyCode::Char(c),
                mods,
                HostModel::ActivateTab(c as int - '1' as int),
            )
            &&& asks(t, KeyCode::Char('0'), mods, HostModel::ActivateTab(10))
        },
        mods.shift ==> {
            &&& asks(t, KeyCode::Char('['), mods, HostModel::ActivateTabRelative(-1))
            &&& asks(t, KeyCode::Char('{'), mods, HostModel::ActivateTabRelative(-1))
            &&& asks(t, KeyCode::Char(']'), mods, HostModel::ActivateTabRelative(1))
            &&& asks(t, KeyCode::Char('}'), mods, HostModel::ActivateTabRelative(1))
        },
{
}

/// A key that stands for nothing sends nothing.
pub proof fn law_unknown_key(t: TerminalModel, mods: KeyModifiers)
    ensures
        sends(t, KeyCode::Unknown, mods, Seq::empty()),
{
}

/// When text was sent, a viewport that shows older lines goes back to the newest ones.
/// Another stays, and then the selection does too; it also does where nothing was sent.
pub proof fn law_input_sent(t: TerminalModel, text: Seq<char>)
    requires
        t.wf(),
    ensures
        text.len() > 0 ==> t.input_sent(text).viewport_top() == t.active().top(),
        t.viewport == 0 || text.len() == 0 ==> t.input_sent(text) == t,
{
}

/// The super modifier makes no difference to any other key, nor where alt or control is held
/// with it.
pub proof fn law_super_elsewhere(
    t: TerminalModel,
    key: KeyCode,
    mods: KeyModifiers,
    plain: KeyModifiers,
)
    requires
        plain == (KeyModifiers { sup: false, ..mods }),
        match key {
            KeyCode::Char(c) => mods.alt || mods.ctrl || if mods.shift {
                c != '[' && c != '{' && c != ']' && c != '}'
            } else {
                c != 'n' && c != 't' && !('0' <= c <= '9')
            },
            _ => true,
        },
    ensures
        t.key_down(key, mods) == t.key_down(key, plain),
{
}

} // verus!
