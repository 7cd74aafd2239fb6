//! The actions that a program asks of the terminal by the sequences it writes.
use crate::attributes::{Blink, ColorAttribute, Hyperlink, Intensity, Underline};
use vstd::prelude::*;

verus! {

/// A place on an axis of the screen, counted from zero, or a distance from where
/// the cursor is.
#[derive(Debug, Clone, Copy, PartialEq, Eq, Structural)]
pub enum Position {
    Absolute(i64),
    Relative(i64),
}

#[derive(Debug, Clone, Copy, PartialEq, Eq, Structural)]
pub enum ControlCode {
    LineFeed,
    VerticalTab,
    FormFeed,
    CarriageReturn,
    Backspace,
    HorizontalTab,
    Bell,
    /// Any other control character.
    Other(u8),
}

#[derive(Debug, Clone, Copy, PartialEq, Eq, Structural)]
pub enum EscCode {
    StringTerminator,
    DecApplicationKeyPad,
    DecNormalKeyPad,
    ReverseIndex,
    Index,
    NextLine,
    HorizontalTabSet,
    DecLineDrawing,
    AsciiCharacterSet,
    DecSaveCursorPosition,
    DecRestoreCursorPosition,
}

#[derive(Debug, Clone, Copy, PartialEq, Eq, Structural)]
pub enum Esc {
    Code(EscCode),
    Unspecified { intermediate: Option<u8>, control: u8 },
}

#[derive(Debug, Clone, Copy, PartialEq, Eq, Structural)]
pub enum Sgr {
    Reset,
    Intensity(Intensity),
    Underline(Underline),
    Blink(Blink),
    Italic(bool),
    Inverse(bool),
    Invisible(bool),
    StrikeThrough(bool),
    Font(u8),
    Foreground(ColorAttribute),
    Background(ColorAttribute),
}

/// Rows and columns are counted from one.
#[derive(Debug, Clone, Copy, PartialEq, Eq, Structural)]
pub enum Cursor {
    SetTopAndBottomMargins { top: u32, bottom: u32 },
    ForwardTabulation(u32),
    BackwardTabulation(u32),
    TabulationClear(u32),
    TabulationControl(u32),
    LineTabulation(u32),
    Left(u32),
    Right(u32),
    Up(u32),
    Down(u32),
    CharacterAndLinePosition { line: u32, col: u32 },
    Position { line: u32, col: u32 },
    CharacterAbsolute(u32),
    CharacterPositionAbsolute(u32),
    CharacterPositionBackward(u32),
    CharacterPositionForward(u32),
    LinePositionAbsolute(u32),
    LinePositionBackward(u32),
    LinePositionForward(u32),
    NextLine(u32),
    PrecedingLine(u32),
    ActivePositionReport { line: u32, col: u32 },
    RequestActivePositionReport,
    SaveCursor,
    RestoreCursor,
}

#[derive(Debug, Clone, Copy, PartialEq, Eq, Structural)]
pub enum EraseInLine {
    EraseToEndOfLine,
    EraseToStartOfLine,
    EraseLine,
}

#[derive(Debug, Clone, Copy, PartialEq, Eq, Structural)]
pub enum EraseInDisplay {
    EraseToEndOfDisplay,
    EraseToStartOfDisplay,
    EraseDisplay,
    EraseScrollback,
}

#[derive(Debug, Clone, Copy, PartialEq, Eq, Structural)]
pub enum Edit {
    DeleteCharacter(u32),
    DeleteLine(u32),
    EraseCharacter(u32),
    EraseInLine(EraseInLine),
    InsertCharacter(u32),
    InsertLine(u32),
    ScrollDown(u32),
    ScrollUp(u32),
    EraseInDisplay(EraseInDisplay),
}

#[derive(Debug, Clone, Copy, PartialEq, Eq, Structural)]
pub enum DecPrivateModeCode {
    StartBlinkingCursor,
    BracketedPaste,
    ApplicationCursorKeys,
    ShowCursor,
    MouseTracking,
    HighlightMouseTracking,
    ButtonEventMouse,
    AnyEventMouse,
    SGRMouse,
    ClearAndEnableAlternateScreen,
}

#[derive(Debug, Clone, Copy, PartialEq, Eq, Structural)]
pub enum DecPrivateMode {
    Code(DecPrivateModeCode),
    Unspecified(u16),
}

#[derive(Debug, Clone, Copy, PartialEq, Eq, Structural)]
pub enum Mode {
    SetDecPrivateMode(DecPrivateMode),
    ResetDecPrivateMode(DecPrivateMode),
    SaveDecPrivateMode(DecPrivateMode),
    RestoreDecPrivateMode(DecPrivateMode),
}

#[derive(Debug, PartialEq, Eq)]
pub enum Device {
    DeviceAttributes(Vec<u16>),
    SoftReset,
    RequestPrimaryDeviceAttributes,
    RequestSecondaryDeviceAttributes,
    StatusReport,
}

#[derive(Debug, PartialEq, Eq)]
pub enum CSI {
    Sgr(Sgr),
    Cursor(Cursor),
    Edit(Edit),
    Mode(Mode),
    Device(Device),
    Mouse(Vec<u8>),
    Unspecified(Vec<u8>),
}

#[derive(Debug, PartialEq, Eq)]
pub enum OperatingSystemCommand {
    SetIconNameAndWindowTitle(String),
    SetWindowTitle(String),
    SetIconName(String),
    SetHyperlink(Option<Hyperlink>),
    ClearSelection(u8),
    QuerySelection(u8),
    SetSelection(u8, String),
    Unspecified(Vec<Vec<u8>>),
}

#[derive(Debug, PartialEq, Eq)]
pub enum Action {
    /// Draw a character.
    Print(char),
    Control(ControlCode),
    DeviceControl(Vec<u8>),
    OperatingSystemCommand(OperatingSystemCommand),
    Esc(Esc),
    CSI(CSI),
}

} // verus!
