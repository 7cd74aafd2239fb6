//! The performer of the actions that a program asks for.
use super::model::{row_floor, TerminalModel};
use super::TerminalState;
use crate::attributes::link_view;
use crate::escape::{
    Action, ControlCode, Cursor, Edit, EraseInLine, Esc, EscCode, OperatingSystemCommand, Position,
    CSI,
};
use crate::host::{HostAction, HostModel};
use crate::terminal::csi::device_action;
use vstd::prelude::*;

verus! {

impl TerminalModel {
    pub open spec fn control(self, control: ControlCode) -> TerminalModel {
        match control {
            ControlCode::LineFeed => self.new_line(true),
            ControlCode::VerticalTab => self.new_line(true),
            ControlCode::FormFeed => self.new_line(true),
            ControlCode::CarriageReturn => self.cursor_to(0, self.cursor_row()),
            ControlCode::Backspace => self.move_cursor(-1, 0),
            ControlCode::HorizontalTab => self.horizontal_tab(),
            ControlCode::Bell => self,
            ControlCode::Other(_) => self,
        }
    }

    pub open spec fn csi_dispatch(self, csi: CSI) -> TerminalModel {
        match csi {
            CSI::Sgr(sgr) => self.csi_sgr(sgr),
            CSI::Cursor(cursor) => self.csi_cursor(cursor),
            CSI::Edit(edit) => self.csi_edit(edit),
            CSI::Mode(mode) => self.csi_mode(mode),
            CSI::Device(device) => self.csi_device(device),
            CSI::Mouse(_) => self,
            CSI::Unspecified(_) => self,
        }
    }

    /// What is to be done for a control sequence.
    pub open spec fn csi_action(self, csi: CSI) -> HostModel {
        match csi {
            CSI::Cursor(cursor) => self.csi_cursor_action(cursor),
            CSI::Device(device) => device_action(device),
            _ => HostModel::Nothing,
        }
    }

    pub open spec fn esc_dispatch(self, esc: Esc) -> TerminalModel {
        match esc {
            Esc::Code(EscCode::DecApplicationKeyPad) => TerminalModel {
                application_keypad: true,
                ..self
            },
            Esc::Code(EscCode::DecNormalKeyPad) => TerminalModel {
                application_keypad: false,
                ..self
            },
            Esc::Code(EscCode::ReverseIndex) => self.c1_reverse_index(),
            Esc::Code(EscCode::Index) => self.c1_index(),
            Esc::Code(EscCode::NextLine) => self.new_line(true),
            Esc::Code(EscCode::HorizontalTabSet) => self.c1_hts(),
            Esc::Code(EscCode::DecSaveCursorPosition) => self.save_cursor(),
            Esc::Code(EscCode::DecRestoreCursorPosition) => self.restore_cursor(),
            Esc::Code(EscCode::StringTerminator) => self,
            Esc::Code(EscCode::DecLineDrawing) => self,
            Esc::Code(EscCode::AsciiCharacterSet) => self,
            Esc::Unspecified { .. } => self,
        }
    }

    pub open spec fn osc_dispatch(self, osc: OperatingSystemCommand) -> TerminalModel {
        match osc {
            OperatingSystemCommand::SetHyperlink(link) => self.set_hyperlink(link_view(link)),
            _ => self,
        }
    }

    /// The terminal after an action.
    pub open spec fn perform(self, action: Action) -> TerminalModel {
        match action {
            Action::Print(c) => self.print(c),
            Action::Control(control) => self.control(control),
            Action::DeviceControl(_) => self,
            Action::OperatingSystemCommand(osc) => self.osc_dispatch(osc),
            Action::Esc(esc) => self.esc_dispatch(esc),
            Action::CSI(csi) => self.csi_dispatch(csi),
        }
    }

    /// What is to be done for an action.
    pub open spec fn perform_action(self, action: Action) -> HostModel {
        match action {
            Action::OperatingSystemCommand(osc) => osc_action(osc),
            Action::CSI(csi) => self.csi_action(csi),
            _ => HostModel::Nothing,
        }
    }

    /// Whether the terminal can do what an escape sequence asks for: there is no tab
    /// stop to set for a cursor that is in no column.
    pub open spec fn accepts_esc(self, esc: Esc) -> bool {
        match esc {
            Esc::Code(EscCode::HorizontalTabSet) => self.has_column(),
            Esc::Code(EscCode::ReverseIndex) => self.cursor.y > row_floor(),
            _ => true,
        }
    }

    /// Whether the terminal can do what an action asks for. It cannot where the cursor
    /// was sent before the first column and the action needs one.
    pub open spec fn accepts(self, action: Action) -> bool {
        match action {
            Action::Print(_) => self.wrap_next || self.has_column(),
            Action::Control(ControlCode::HorizontalTab) => self.has_column(),
            Action::Esc(esc) => self.accepts_esc(esc),
            Action::CSI(CSI::Cursor(cursor)) => self.accepts_cursor(cursor),
            Action::CSI(CSI::Edit(edit)) => self.accepts_edit(edit),
            _ => true,
        }
    }

    /// Whether an escape sequence leaves a cursor on the screen that is on it.
    pub open spec fn esc_keeps_screen(self, esc: Esc) -> bool {
        match esc {
            Esc::Code(EscCode::ReverseIndex) => self.cursor.y > 0 || self.region_start == 0,
            Esc::Code(EscCode::DecRestoreCursorPosition) => self.saved_in_view(),
            _ => true,
        }
    }

    /// Whether an action leaves a cursor on the screen that is on it: the rows and
    /// columns that it names are counted from one, it does not ask for the row above
    /// the first one, and the cursor that it restores is in view.
    pub open spec fn keeps_screen(self, action: Action) -> bool {
        match action {
            Action::Esc(esc) => self.esc_keeps_screen(esc),
            Action::CSI(CSI::Cursor(cursor)) => self.cursor_keeps_screen(cursor),
            Action::CSI(CSI::Mode(_)) => self.saved_in_view(),
            _ => true,
        }
    }
}

/// What is to be done for an operating system command.
pub open spec fn osc_action(osc: OperatingSystemCommand) -> HostModel {
    match osc {
        OperatingSystemCommand::SetIconNameAndWindowTitle(title) => HostModel::SetTitle(title@),
        OperatingSystemCommand::SetWindowTitle(title) => HostModel::SetTitle(title@),
        OperatingSystemCommand::ClearSelection(_) => HostModel::SetClipboard(None),
        OperatingSystemCommand::SetSelection(_, text) => HostModel::SetClipboard(Some(text@)),
        OperatingSystemCommand::SetIconName(_) => HostModel::Nothing,
        OperatingSystemCommand::SetHyperlink(_) => HostModel::Nothing,
        OperatingSystemCommand::QuerySelection(_) => HostModel::Nothing,
        OperatingSystemCommand::Unspecified(_) => HostModel::Nothing,
    }
}

impl TerminalState {
    /// Whether the terminal can do what an action asks for.
    pub fn accepts(&self, action: &Action) -> (b: bool)
        ensures
            b == self@.accepts(*action),
    {
        let has_column = self.cursor.x != usize::MAX;
        match action {
            Action::Print(_) => self.wrap_next || has_column,
            Action::Control(ControlCode::HorizontalTab) => has_column,
            Action::Esc(Esc::Code(EscCode::HorizontalTabSet)) => has_column,
            Action::Esc(Esc::Code(EscCode::ReverseIndex)) => self.cursor.y
                > -0x4000_0000_0000_0000,
            Action::CSI(CSI::Cursor(Cursor::ForwardTabulation(n))) => *n == 0 || has_column,
            Action::CSI(CSI::Cursor(Cursor::RequestActivePositionReport)) => self.can_report(),
            Action::CSI(CSI::Edit(edit)) => match edit {
                Edit::DeleteCharacter(n) => *n == 0 || has_column,
                Edit::EraseCharacter(n) => *n == 0 || has_column,
                Edit::InsertCharacter(n) => *n == 0 || has_column,
                Edit::EraseInLine(EraseInLine::EraseToStartOfLine) => has_column,
                _ => true,
            },
            _ => true,
        }
    }

    fn set_application_keypad(&mut self, on: bool)
        requires
            old(self)@.wf(),
        ensures
            final(self)@ == (TerminalModel { application_keypad: on, ..old(self)@ }),
            final(self)@.wf(),
    {
        self.application_keypad = on;
    }
}

/// Performs actions on a terminal. What is to be done outside the terminal it
/// returns.
pub struct Performer<'a> {
    pub state: &'a mut TerminalState,
}

impl<'a> Performer<'a> {
    pub fn perform(&mut self, action: Action) -> (todo: HostAction)
        requires
            old(self).state@.wf(),
            old(self).state@.accepts(action),
        ensures
            final(self).state@ == old(self).state@.perform(action),
            action matches Action::Print(c) ==> (' ' <= c <= '~' ==> final(self).state@ == old(
                self,
            ).state@.print_wide(c, 1)),
            todo@ == old(self).state@.perform_action(action),
            final(self).state@.wf(),
            old(self).state@.cursor_on_screen() && old(self).state@.keeps_screen(action)
                ==> final(self).state@.cursor_on_screen(),
            *final(final(self).state) == *final(old(self).state),
    {
        match action {
            Action::Print(c) => {
                self.print(c);
                HostAction::Nothing
            },
            Action::Control(code) => {
                self.control(code);
                HostAction::Nothing
            },
            Action::DeviceControl(_) => HostAction::Nothing,
            Action::OperatingSystemCommand(osc) => self.osc_dispatch(osc),
            Action::Esc(esc) => {
                self.esc_dispatch(esc);
                HostAction::Nothing
            },
            Action::CSI(csi) => self.csi_dispatch(csi),
        }
    }

    /// Draw a character to the screen
    fn print(&mut self, c: char)
        requires
            old(self).state@.wf(),
            old(self).state@.wrap_next || old(self).state@.has_column(),
        ensures
            final(self).state@ == old(self).state@.print(c),
            ' ' <= c <= '~' ==> final(self).state@ == old(self).state@.print_wide(c, 1),
            final(self).state@.wf(),
            old(self).state@.cursor_on_screen() ==> final(self).state@.cursor_on_screen(),
            *final(final(self).state) == *final(old(self).state),
    {
        self.state.print(c);
    }

    fn control(&mut self, control: ControlCode)
        requires
            old(self).state@.wf(),
            control == ControlCode::HorizontalTab ==> old(self).state@.has_column(),
        ensures
            final(self).state@ == old(self).state@.control(control),
            final(self).state@.wf(),
            old(self).state@.cursor_on_screen() ==> final(self).state@.cursor_on_screen(),
            *final(final(self).state) == *final(old(self).state),
    {
        match control {
            ControlCode::LineFeed | ControlCode::VerticalTab | ControlCode::FormFeed => {
                self.state.new_line(true);
            },
            ControlCode::CarriageReturn => {
                self.state.set_cursor_pos(&Position::Absolute(0), &Position::Relative(0));
            },
            ControlCode::Backspace => {
                self.state.set_cursor_pos(&Position::Relative(-1), &Position::Relative(0));
            },
            ControlCode::HorizontalTab => self.state.c0_horizontal_tab(),
            ControlCode::Bell => {},
            ControlCode::Other(_) => {},
        }
    }

    fn csi_dispatch(&mut self, csi: CSI) -> (todo: HostAction)
        requires
            old(self).state@.wf(),
            old(self).state@.accepts(Action::CSI(csi)),
        ensures
            final(self).state@ == old(self).state@.csi_dispatch(csi),
            todo@ == old(self).state@.csi_action(csi),
            final(self).state@.wf(),
            old(self).state@.cursor_on_screen() && old(self).state@.keeps_screen(Action::CSI(csi))
                ==> final(self).state@.cursor_on_screen(),
            *final(final(self).state) == *final(old(self).state),
    {
        match csi {
            CSI::Sgr(sgr) => self.state.perform_csi_sgr(sgr),
            CSI::Cursor(cursor) => {
                return self.state.perform_csi_cursor(cursor);
            },
            CSI::Edit(edit) => self.state.perform_csi_edit(edit),
            CSI::Mode(mode) => self.state.perform_csi_mode(mode),
            CSI::Device(dev) => {
                return self.state.perform_device(dev);
            },
            CSI::Mouse(_) => {},
            CSI::Unspecified(_) => {},
        }
        HostAction::Nothing
    }

    fn esc_dispatch(&mut self, esc: Esc)
        requires
            old(self).state@.wf(),
            old(self).state@.accepts_esc(esc),
        ensures
            final(self).state@ == old(self).state@.esc_dispatch(esc),
            final(self).state@.wf(),
            old(self).state@.cursor_on_screen() && old(self).state@.esc_keeps_screen(esc)
                ==> final(self).state@.cursor_on_screen(),
            *final(final(self).state) == *final(old(self).state),
    {
        match esc {
            Esc::Code(EscCode::StringTerminator) => {},
            Esc::Code(EscCode::DecApplicationKeyPad) => self.state.set_application_keypad(true),
            Esc::Code(EscCode::DecNormalKeyPad) => self.state.set_application_keypad(false),
            Esc::Code(EscCode::ReverseIndex) => self.state.c1_reverse_index(),
            Esc::Code(EscCode::Index) => self.state.c1_index(),
            Esc::Code(EscCode::NextLine) => self.state.c1_nel(),
            Esc::Code(EscCode::HorizontalTabSet) => self.state.c1_hts(),
            Esc::Code(EscCode::DecLineDrawing) => {},
            Esc::Code(EscCode::AsciiCharacterSet) => {},
            Esc::Code(EscCode::DecSaveCursorPosition) => self.state.save_cursor(),
            Esc::Code(EscCode::DecRestoreCursorPosition) => self.state.restore_cursor(),
            Esc::Unspecified { .. } => {},
        }
    }

    fn osc_dispatch(&mut self, osc: OperatingSystemCommand) -> (todo: HostAction)
        requires
            old(self).state@.wf(),
        ensures
            final(self).state@ == old(self).state@.osc_dispatch(osc),
            todo@ == osc_action(osc),
            final(self).state@.wf(),
            old(self).state@.cursor_on_screen() ==> final(self).state@.cursor_on_screen(),
            *final(final(self).state) == *final(old(self).state),
    {
        match osc {
            OperatingSystemCommand::SetIconNameAndWindowTitle(title)
            | OperatingSystemCommand::SetWindowTitle(title) => HostAction::SetTitle(title),
            OperatingSystemCommand::SetIconName(_) => HostAction::Nothing,
            OperatingSystemCommand::SetHyperlink(link) => {
                self.state.set_hyperlink(link);
                HostAction::Nothing
            },
            OperatingSystemCommand::Unspecified(_) => HostAction::Nothing,
            OperatingSystemCommand::ClearSelection(_) => HostAction::SetClipboard(None),
            OperatingSystemCommand::QuerySelection(_) => HostAction::Nothing,
            OperatingSystemCommand::SetSelection(_, selection_data) => HostAction::SetClipboard(
                Some(selection_data),
            ),
        }
    }
}

} // verus!
