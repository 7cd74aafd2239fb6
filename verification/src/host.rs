//! What the terminal asks of the program that embeds it.
use crate::attributes::{Hyperlink, LinkModel};
use vstd::prelude::*;

verus! {

/// What the embedding program is to do next.
#[derive(Debug, PartialEq, Eq)]
pub enum HostAction {
    Nothing,
    /// Set the clipboard, or clear it.
    SetClipboard(Option<String>),
    /// Follow a link that was clicked.
    ClickLink(Hyperlink),
    /// Write a report to the program in the terminal.
    Report(String),
    /// Write what a key stands for to the program in the terminal. When all of it
    /// is written, `TerminalState::input_sent` is due.
    Input(String),
    /// Write the clipboard, as `TerminalState::paste_text` frames it, to the program
    /// in the terminal.
    PasteReport,
    /// As `PasteReport`; when all of it is written, `TerminalState::input_sent` is
    /// due.
    PasteInput,
    NewWindow,
    NewTab,
    ActivateTab(usize),
    ActivateTabRelative(i32),
    ToggleFullScreen,
    SetTitle(String),
}

#[verifier::ext_equal]
pub enum HostModel {
    Nothing,
    SetClipboard(Option<Seq<char>>),
    ClickLink(LinkModel),
    Report(Seq<char>),
    Input(Seq<char>),
    PasteReport,
    PasteInput,
    NewWindow,
    NewTab,
    ActivateTab(int),
    ActivateTabRelative(int),
    ToggleFullScreen,
    SetTitle(Seq<char>),
}

/// The view of a text that may be absent.
pub open spec fn text_view(text: Option<String>) -> Option<Seq<char>> {
    match text {
        Some(t) => Some(t@),
        None => None,
    }
}

impl View for HostAction {
    type V = HostModel;

    open spec fn view(&self) -> HostModel {
        match self {
            HostAction::Nothing => HostModel::Nothing,
            HostAction::SetClipboard(text) => HostModel::SetClipboard(text_view(*text)),
            HostAction::ClickLink(link) => HostModel::ClickLink(link@),
            HostAction::Report(text) => HostModel::Report(text@),
            HostAction::Input(text) => HostModel::Input(text@),
            HostAction::PasteReport => HostModel::PasteReport,
            HostAction::PasteInput => HostModel::PasteInput,
            HostAction::NewWindow => HostModel::NewWindow,
            HostAction::NewTab => HostModel::NewTab,
            HostAction::ActivateTab(i) => HostModel::ActivateTab(*i as int),
            HostAction::ActivateTabRelative(i) => HostModel::ActivateTabRelative(*i as int),
            HostAction::ToggleFullScreen => HostModel::ToggleFullScreen,
            HostAction::SetTitle(text) => HostModel::SetTitle(text@),
        }
    }
}

} // verus!
