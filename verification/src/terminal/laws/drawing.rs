//! What is drawn, what it is drawn with, and what is answered.
use super::super::model::TerminalModel;
use super::editing::{changes_are_dirty, columns_deselected, lemma_columns_selected};
use super::moving::controlled;
use super::{law_print, performed};
use crate::attributes::{link_view, Blink, ColorAttribute, Hyperlink, Intensity, Underline};
use crate::cell::CellModel;
use crate::escape::{
    Action, ControlCode, Cursor, Device, Esc, OperatingSystemCommand, Sgr, CSI,
};
use crate::host::HostModel;
use crate::outside::char_columns;
use crate::text::decimal;
use vstd::prelude::*;

verus! {

/// The terminal after a character was printed.
pub open spec fn printed(t: TerminalModel, c: char) -> TerminalModel {
    performed(t, Action::Print(c))
}

#[verifier::rlimit(60)]
pub(super) proof fn lemma_printed(t: TerminalModel, c: char)
    ensures
        printed(t, c) == t.print(c),
{
    reveal(performed);
}

/// A character is drawn with the pen in the cell of the cursor, and takes as many columns as
/// it is wide. The cursor goes past them, or stays where there is no column left, and the
/// next character then goes to the next row. No other cell changes. A selection that has
/// one of the columns goes; another stays.
pub proof fn law_printed(t: TerminalModel, c: char, width: usize)
    requires
        t.wf(),
        t.cursor_on_screen(),
        !t.wrap_next,
        char_columns(c) == Some(width),
        width >= 1,
    ensures
        ({
            let after = printed(t, c);
            &&& forall|x: int, y: int|
                0 <= x < t.cols() && 0 <= y < t.rows() ==> if y == t.cursor.y && t.cursor.x <= x
                    < t.cursor.x + width {
                    &&& (#[trigger] after.cell(x, y)).text == if x == t.cursor.x {
                        c
                    } else {
                        '\0'
                    }
                    &&& after.cell(x, y).attrs == t.pen
                } else {
                    after.cell(x, y) == t.cell(x, y)
                }
            &&& after.pen == t.pen
            &&& after.cursor.y == t.cursor.y
            &&& if t.cursor.x + width < t.cols() {
                after.cursor.x == t.cursor.x + width && !after.wrap_next
            } else {
                after.cursor.x == t.cursor.x && after.wrap_next
            }
            &&& changes_are_dirty(t.active(), after.active())
            &&& columns_deselected(t, after, t.cursor.x, t.cursor.x + width, t.cursor.y)
        }),
{
    lemma_printed(t, c);
    law_print(t, c, width as int);
    let drawn = t.draw(c, width as int);
    lemma_columns_selected(t, t.cursor.x, t.cursor.x + width, t.cursor.y);
    lemma_columns_selected(drawn, t.cursor.x, t.cursor.x + width, t.cursor.y);
}

/// A character without a width is drawn in the cell of the cursor, which stays there.
pub proof fn law_printed_without_width(t: TerminalModel, c: char)
    requires
        t.wf(),
        t.cursor_on_screen(),
        !t.wrap_next,
        char_columns(c) is None || char_columns(c) == Some(0usize),
    ensures
        ({
            let after = printed(t, c);
            &&& after.cursor == t.cursor
            &&& !after.wrap_next
            &&& forall|x: int, y: int|
                0 <= x < t.cols() && 0 <= y < t.rows() ==> #[trigger] after.cell(x, y) == (if x
                    == t.cursor.x && y == t.cursor.y {
                    CellModel::with(c, t.pen)
                } else {
                    t.cell(x, y)
                })
        }),
{
    lemma_printed(t, c);
    let drawn = t.draw(c, 0);
    assert(printed(t, c).active() == drawn.active());
}

#[verifier::rlimit(60)]
proof fn lemma_fed(t: TerminalModel)
    ensures
        controlled(t, ControlCode::LineFeed) == t.new_line(true),
{
    reveal(performed);
}

/// A character that is printed when there was no column left goes where it would go after a
/// line feed.
pub proof fn law_printed_past_margin(t: TerminalModel, c: char)
    requires
        t.wf(),
        t.wrap_next,
    ensures
        printed(t, c) == printed(controlled(t, ControlCode::LineFeed), c),
{
    lemma_fed(t);
    lemma_printed(t, c);
    lemma_printed(t.new_line(true), c);
}

/// The terminal after a change of how is drawn.
pub open spec fn drawn_as(t: TerminalModel, sgr: Sgr) -> TerminalModel {
    performed(t, Action::CSI(CSI::Sgr(sgr)))
}

/// A change of how is drawn sets the one property of the pen that it names, or sets all of
/// them back, and nothing else.
#[verifier::rlimit(60)]
pub proof fn law_rendition(t: TerminalModel, sgr: Sgr)
    ensures
        ({
            let after = drawn_as(t, sgr);
            let new = after.pen.rendition;
            let old = t.pen.rendition;
            &&& new.intensity == match sgr {
                Sgr::Intensity(intensity) => intensity,
                Sgr::Reset => Intensity::Normal,
                _ => old.intensity,
            }
            &&& new.underline == match sgr {
                Sgr::Underline(underline) => underline,
                Sgr::Reset => Underline::Off,
                _ => old.underline,
            }
            &&& new.blink == match sgr {
                Sgr::Blink(blink) => blink,
                Sgr::Reset => Blink::Off,
                _ => old.blink,
            }
            &&& new.italic == match sgr {
                Sgr::Italic(on) => on,
                Sgr::Reset => false,
                _ => old.italic,
            }
            &&& new.reverse == match sgr {
                Sgr::Inverse(on) => on,
                Sgr::Reset => false,
                _ => old.reverse,
            }
            &&& new.invisible == match sgr {
                Sgr::Invisible(on) => on,
                Sgr::Reset => false,
                _ => old.invisible,
            }
            &&& new.strikethrough == match sgr {
                Sgr::StrikeThrough(on) => on,
                Sgr::Reset => false,
                _ => old.strikethrough,
            }
            &&& new.foreground == match sgr {
                Sgr::Foreground(color) => color,
                Sgr::Reset => ColorAttribute::Default,
                _ => old.foreground,
            }
            &&& new.background == match sgr {
                Sgr::Background(color) => color,
                Sgr::Reset => ColorAttribute::Default,
                _ => old.background,
            }
            &&& after.pen.link == t.pen.link
            &&& after.screen == t.screen
            &&& after.alt_screen == t.alt_screen
            &&& after.cursor == t.cursor
            &&& after.wrap_next == t.wrap_next
            &&& after.selection_range == t.selection_range
        }),
{
    reveal(performed);
}

/// The terminal after a link was set, or taken back.
pub open spec fn linked(t: TerminalModel, link: Option<Hyperlink>) -> TerminalModel {
    performed(
        t,
        Action::OperatingSystemCommand(OperatingSystemCommand::SetHyperlink(link)),
    )
}

#[verifier::rlimit(60)]
proof fn lemma_linked(t: TerminalModel, link: Option<Hyperlink>)
    ensures
        linked(t, link) == t.set_hyperlink(link_view(link)),
{
    reveal(performed);
}

/// What is printed after a link was set is part of that link, and of none after it was
/// taken back. The rendition and the cursor stay.
pub proof fn law_link_printed(t: TerminalModel, link: Option<Hyperlink>, c: char, width: usize)
    requires
        t.wf(),
        t.cursor_on_screen(),
        !t.wrap_next,
        char_columns(c) == Some(width),
        width >= 1,
    ensures
        ({
            let set = linked(t, link);
            let cell = printed(set, c).cell(t.cursor.x, t.cursor.y);
            &&& set.cursor == t.cursor
            &&& set.pen.rendition == t.pen.rendition
            &&& cell.text == c
            &&& cell.attrs.rendition == t.pen.rendition
            &&& match link {
                Some(l) => cell.attrs.link matches Some(m) && m.uri == l.uri@ && m.implicit
                    == l.implicit,
                None => cell.attrs.link is None,
            }
        }),
{
    lemma_linked(t, link);
    law_printed(linked(t, link), c, width);
}

/// A soft reset leaves a plain pen without a link, and everything else as it was. No other
/// device sequence changes the terminal.
#[verifier::rlimit(60)]
pub proof fn law_device(t: TerminalModel, device: Device)
    ensures
        ({
            let after = performed(t, Action::CSI(CSI::Device(device)));
            &&& device is SoftReset ==> {
                &&& after.pen == CellModel::blank().attrs
                &&& after.screen == t.screen
                &&& after.alt_screen == t.alt_screen
                &&& after.cursor == t.cursor
                &&& after.region_start == t.region_start
                &&& after.region_end == t.region_end
            }
            &&& !(device is SoftReset) ==> after == t
        }),
{
    reveal(performed);
}

/// The requests that are answered, each with its answer: what the device is, that it is
/// well, and where the cursor is, counted from one.
pub proof fn law_answers(t: TerminalModel)
    requires
        t.wf(),
        t.cursor_on_screen(),
    ensures
        t.perform_action(Action::CSI(CSI::Device(Device::RequestPrimaryDeviceAttributes)))
            == HostModel::Report("\x1b[?6c"@),
        t.perform_action(Action::CSI(CSI::Device(Device::RequestSecondaryDeviceAttributes)))
            == HostModel::Report("\x1b[>0;0;0c"@),
        t.perform_action(Action::CSI(CSI::Device(Device::StatusReport))) == HostModel::Report(
            "\x1b[0n"@,
        ),
        t.rows() < u32::MAX && t.cols() < u32::MAX ==> t.perform_action(
            Action::CSI(CSI::Cursor(Cursor::RequestActivePositionReport)),
        ) == HostModel::Report(
            "\x1b["@ + decimal((t.cursor.y + 1) as nat) + ";"@ + decimal((t.cursor.x + 1) as nat)
                + "R"@,
        ),
{
    reveal_strlit("\x1b[?6c");
    reveal_strlit("\x1b[>0;0;0c");
    reveal_strlit("\x1b[0n");
    reveal_strlit("\x1b[");
    reveal_strlit(";");
    reveal_strlit("R");
    assert("\x1b[?6c"@ =~= seq!['\x1b', '[', '?', '6', 'c']);
    assert("\x1b[>0;0;0c"@ =~= seq!['\x1b', '[', '>', '0', ';', '0', ';', '0', 'c']);
    assert("\x1b[0n"@ =~= seq!['\x1b', '[', '0', 'n']);
    assert("\x1b["@ =~= seq!['\x1b', '[']);
    assert(";"@ =~= seq![';']);
    assert("R"@ =~= seq!['R']);
}

/// Operating system commands set the title of the window and the clipboard, each to the
/// text that it gives; another asks for nothing.
pub proof fn law_commands(t: TerminalModel, osc: OperatingSystemCommand)
    ensures
        t.perform_action(Action::OperatingSystemCommand(osc)) == match osc {
            OperatingSystemCommand::SetIconNameAndWindowTitle(s) => HostModel::SetTitle(s@),
            OperatingSystemCommand::SetWindowTitle(s) => HostModel::SetTitle(s@),
            OperatingSystemCommand::SetSelection(_, s) => HostModel::SetClipboard(Some(s@)),
            OperatingSystemCommand::ClearSelection(_) => HostModel::SetClipboard(None),
            _ => HostModel::Nothing,
        },
{
}

/// What a program prints, how it draws, edits and sets modes is not answered.
pub proof fn law_no_answer(t: TerminalModel, action: Action)
    requires
        match action {
            Action::CSI(CSI::Cursor(cursor)) => !(cursor is RequestActivePositionReport),
            Action::CSI(CSI::Device(_)) => false,
            Action::OperatingSystemCommand(_) => false,
            _ => true,
        },
    ensures
        t.perform_action(action) == HostModel::Nothing,
{
}

/// What the terminal does not know, or only tells others of, leaves it as it was.
#[verifier::rlimit(60)]
pub proof fn law_unhandled(t: TerminalModel, action: Action)
    requires
        match action {
            Action::Print(_) => false,
            Action::Control(control) => control is Bell || control is Other,
            Action::DeviceControl(_) => true,
            Action::OperatingSystemCommand(osc) => !(osc is SetHyperlink),
            Action::Esc(esc) => match esc {
                Esc::Code(code) => code is StringTerminator || code is DecLineDrawing
                    || code is AsciiCharacterSet,
                Esc::Unspecified { .. } => true,
            },
            Action::CSI(csi) => csi is Mouse || csi is Unspecified,
        },
    ensures
        performed(t, action) == t,
{
    reveal(performed);
}

} // verus!
