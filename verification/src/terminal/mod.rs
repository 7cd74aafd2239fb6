//! The terminal.
pub mod csi;
pub mod cursor;
pub mod keyboard;
pub mod laws;
pub mod model;
pub mod mouse;
pub mod performer;
pub mod state;

use crate::attributes::{link_view, CellAttributes, Hyperlink};
use crate::hyperlink::Rule;
use crate::input::{LastMouseClick, MouseButton};
use crate::screen::{Screen, VisibleRowIndex};
use crate::selection::{SelectionCoordinate, SelectionRange};
use crate::tabs::TabStop;
use model::{Place, TerminalModel};
use std::ops::Range;
use vstd::prelude::*;

verus! {

/// A cell of the visible screen, counted from its top left.
#[derive(Debug, Clone, Copy, PartialEq, Eq, Structural)]
pub struct CursorPosition {
    pub x: usize,
    pub y: VisibleRowIndex,
}

impl View for CursorPosition {
    type V = Place;

    open spec fn view(&self) -> Place {
        Place { x: self.x as int, y: self.y as int }
    }
}

pub struct TerminalState {
    /// The primary screen + scrollback
    screen: Screen,
    /// The alternate screen; no scrollback
    alt_screen: Screen,
    /// Tells us which screen is active
    alt_screen_is_active: bool,
    /// The current set of attributes in effect for the next
    /// attempt to print to the display
    pen: CellAttributes,
    /// The current cursor position, relative to the top left
    /// of the screen.  0-based index.
    cursor: CursorPosition,
    saved_cursor: CursorPosition,
    /// if true, implicitly move to the next line on the next
    /// printed character
    wrap_next: bool,
    /// The scroll region
    scroll_region: Range<VisibleRowIndex>,
    /// When set, modifies the sequence of bytes sent for keys
    /// designated as cursor keys.
    application_cursor_keys: bool,
    /// When set, modifies the sequence of bytes sent for keys
    /// in the numeric keypad portion of the keyboard.
    application_keypad: bool,
    /// When set, pasting the clipboard should bracket the data with
    /// designated marker characters.
    bracketed_paste: bool,
    sgr_mouse: bool,
    button_event_mouse: bool,
    current_mouse_button: MouseButton,
    mouse_position: CursorPosition,
    cursor_visible: bool,
    /// Which hyperlink is considered to be highlighted, because the
    /// mouse_position is over a cell with a Hyperlink attribute.
    current_highlight: Option<Hyperlink>,
    /// Keeps track of double and triple clicks
    last_mouse_click: Option<LastMouseClick>,
    /// Used to compute the offset to the top of the viewport.
    /// The offset is measured from the top of the physical viewable
    /// screen with larger numbers going backwards.
    viewport_offset: VisibleRowIndex,
    /// Remembers the starting coordinate of the selection prior to
    /// dragging.
    selection_start: Option<SelectionCoordinate>,
    /// Holds the not-normalized selection range.
    selection_range: Option<SelectionRange>,
    tabs: TabStop,
    hyperlink_rules: Vec<Rule>,
    /// The terminal title string
    title: String,
}

impl View for TerminalState {
    type V = TerminalModel;

    closed spec fn view(&self) -> TerminalModel {
        TerminalModel {
            screen: self.screen@,
            alt_screen: self.alt_screen@,
            alt_screen_is_active: self.alt_screen_is_active,
            pen: self.pen@,
            cursor: self.cursor@,
            saved_cursor: self.saved_cursor@,
            wrap_next: self.wrap_next,
            region_start: self.scroll_region.start as int,
            region_end: self.scroll_region.end as int,
            application_cursor_keys: self.application_cursor_keys,
            application_keypad: self.application_keypad,
            bracketed_paste: self.bracketed_paste,
            sgr_mouse: self.sgr_mouse,
            button_event_mouse: self.button_event_mouse,
            current_mouse_button: self.current_mouse_button,
            mouse_position: self.mouse_position@,
            cursor_visible: self.cursor_visible,
            current_highlight: link_view(self.current_highlight),
            last_mouse_click: self.last_mouse_click,
            viewport: self.viewport_offset as int,
            selection_start: self.selection_start,
            selection_range: self.selection_range,
            tabs: self.tabs@,
            hyperlink_rules: self.hyperlink_rules@,
            title: self.title@,
        }
    }
}

} // verus!
