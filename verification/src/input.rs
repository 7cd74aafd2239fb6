//! What comes from the keyboard and the mouse.
use vstd::prelude::*;

verus! {

#[derive(Debug, Clone, Copy, PartialEq, Eq, Structural)]
pub enum KeyCode {
    Char(char),
    F(u8),
    Left,
    Up,
    Right,
    Down,
    Home,
    End,
    PageUp,
    PageDown,
    Insert,
    Control,
    Alt,
    Meta,
    Super,
    Hyper,
    Shift,
    Unknown,
}

#[derive(Debug, Clone, Copy, PartialEq, Eq, Structural)]
pub struct KeyModifiers {
    pub shift: bool,
    pub alt: bool,
    pub ctrl: bool,
    pub sup: bool,
}

impl KeyModifiers {
    /// No modifier.
    pub open spec fn no_modifiers() -> KeyModifiers {
        KeyModifiers { shift: false, alt: false, ctrl: false, sup: false }
    }
}

impl Default for KeyModifiers {
    fn default() -> (mods: KeyModifiers)
        ensures
            mods == KeyModifiers::no_modifiers(),
    {
        KeyModifiers { shift: false, alt: false, ctrl: false, sup: false }
    }
}

/// A key that went down or up.
#[derive(Debug, Clone, Copy, PartialEq, Eq, Structural)]
pub struct KeyEvent {
    pub key: KeyCode,
    pub modifiers: KeyModifiers,
    pub key_is_down: bool,
}

#[derive(Debug, Clone, Copy, PartialEq, Eq, Structural)]
pub enum MouseButton {
    Left,
    Middle,
    Right,
    WheelUp,
    WheelDown,
    NoButton,
}

#[derive(Debug, Clone, Copy, PartialEq, Eq, Structural)]
pub enum MouseEventKind {
    Press,
    Release,
    Move,
}

/// What the mouse did, and over which cell of the visible screen.
#[derive(Debug, Clone, Copy, PartialEq, Eq, Structural)]
pub struct MouseEvent {
    pub kind: MouseEventKind,
    pub x: usize,
    pub y: i64,
    pub button: MouseButton,
    pub modifiers: KeyModifiers,
}

/// The longest time between two clicks that count together, in milliseconds.
pub const CLICK_INTERVAL: u64 = 500;

/// The last click: which button, when, and how many clicks of that button it
/// makes in quick succession.
#[derive(Debug, Clone, Copy, PartialEq, Eq, Structural)]
pub struct LastMouseClick {
    pub button: MouseButton,
    pub time: u64,
    pub streak: usize,
}

impl LastMouseClick {
    /// A first click.
    pub open spec fn single(button: MouseButton, time: u64) -> LastMouseClick {
        LastMouseClick { button, time, streak: 1 }
    }

    /// A click of `button` at `time` after this one. It counts with this one where
    /// the button is the same and the time between them is short.
    pub open spec fn followed_by(self, button: MouseButton, time: u64) -> LastMouseClick {
        if button == self.button && time - self.time <= CLICK_INTERVAL {
            LastMouseClick {
                button,
                time,
                streak: if self.streak < usize::MAX {
                    (self.streak + 1) as usize
                } else {
                    self.streak
                },
            }
        } else {
            LastMouseClick::single(button, time)
        }
    }

    pub fn new(button: MouseButton, time: u64) -> (click: LastMouseClick)
        ensures
            click == LastMouseClick::single(button, time),
    {
        LastMouseClick { button, time, streak: 1 }
    }

    /// Counts another click.
    pub fn add(&self, button: MouseButton, time: u64) -> (click: LastMouseClick)
        ensures
            click == self.followed_by(button, time),
    {
        let soon = time < self.time || time - self.time <= CLICK_INTERVAL;
        if button == self.button && soon {
            let streak: usize = if self.streak < usize::MAX {
                self.streak + 1
            } else {
                self.streak
            };
            LastMouseClick { button, time, streak }
        } else {
            LastMouseClick::new(button, time)
        }
    }
}

/// No modifier is held where none is.
pub proof fn law_no_modifiers()
    ensures
        !KeyModifiers::no_modifiers().shift,
        !KeyModifiers::no_modifiers().alt,
        !KeyModifiers::no_modifiers().ctrl,
        !KeyModifiers::no_modifiers().sup,
{
}

/// Clicks of one button that come half a second apart or less are counted on; a click of
/// another button, or one that comes later, is a first one.
pub proof fn law_clicks_counted(last: LastMouseClick, button: MouseButton, time: u64)
    ensures
        last.followed_by(button, time).button == button,
        last.followed_by(button, time).time == time,
        button == last.button && time <= last.time + 500 && last.streak < usize::MAX
            ==> last.followed_by(button, time).streak == last.streak + 1,
        button != last.button || time > last.time + 500 ==> last.followed_by(button, time).streak
            == 1,
        LastMouseClick::single(button, time).streak == 1,
{
}

} // verus!
