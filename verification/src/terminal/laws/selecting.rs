//! What is selected, and what the selected text is.
use super::super::model::TerminalModel;
use crate::selection::SelectionRange;
use crate::text::trimmed_end;
use vstd::prelude::*;

verus! {

/// The parts of a text between its line feeds.
pub open spec fn parts(s: Seq<char>) -> Seq<Seq<char>>
    decreases s.len(),
{
    if s.len() == 0 {
        seq![Seq::empty()]
    } else {
        let before = parts(s.drop_last());
        if s.last() == '\n' {
            before.push(Seq::empty())
        } else {
            before.drop_last().push(before.last().push(s.last()))
        }
    }
}

/// The number of line feeds in a text.
pub open spec fn line_feeds(s: Seq<char>) -> nat
    decreases s.len(),
{
    if s.len() == 0 {
        0
    } else {
        line_feeds(s.drop_last()) + if s.last() == '\n' {
            1nat
        } else {
            0
        }
    }
}

/// What is selected in the row that is `k` rows below the first selected one: the text of
/// its selected columns, without the white space at the end.
pub open spec fn selected_part(t: TerminalModel, sel: SelectionRange, k: int) -> Seq<char> {
    let row = sel.first_row() + k;
    trimmed_end(
        t.active().lines[t.active().phys_or_first(row)].text_of(
            sel.selected(row).0 as int,
            sel.selected(row).1 as int,
        ),
    )
}

proof fn lemma_parts_len(s: Seq<char>)
    ensures
        parts(s).len() == line_feeds(s) + 1,
    decreases s.len(),
{
    if s.len() > 0 {
        lemma_parts_len(s.drop_last());
    }
}

proof fn lemma_parts_joined(s: Seq<char>, last: Seq<char>)
    requires
        !last.contains('\n'),
    ensures
        parts(s.push('\n') + last) == parts(s).push(last),
    decreases last.len(),
{
    let text = s.push('\n') + last;
    if last.len() == 0 {
        assert(text =~= s.push('\n'));
        assert(last =~= Seq::empty());
        assert(text.drop_last() =~= s);
        assert(parts(text) =~= parts(s).push(last));
    } else {
        let shorter = last.drop_last();
        assert(!shorter.contains('\n')) by {
            if shorter.contains('\n') {
                let i = choose|i: int| 0 <= i < shorter.len() && shorter[i] == '\n';
                assert(last[i] == '\n');
            }
        }
        lemma_parts_joined(s, shorter);
        assert(text.drop_last() =~= s.push('\n') + shorter);
        assert(text.last() == last.last());
        assert(last.last() != '\n');
        assert(shorter.push(last.last()) =~= last);
        assert(parts(text) =~= parts(s).push(last));
    }
}

proof fn lemma_parts_single(s: Seq<char>)
    requires
        !s.contains('\n'),
    ensures
        parts(s) == seq![s],
    decreases s.len(),
{
    if s.len() > 0 {
        let shorter = s.drop_last();
        assert(!shorter.contains('\n')) by {
            if shorter.contains('\n') {
                let i = choose|i: int| 0 <= i < shorter.len() && shorter[i] == '\n';
                assert(s[i] == '\n');
            }
        }
        lemma_parts_single(shorter);
        assert(s.last() != '\n');
        assert(shorter.push(s.last()) =~= s);
        assert(parts(s) =~= seq![s]);
    } else {
        assert(parts(s)[0] =~= s);
        assert(parts(s) =~= seq![s]);
    }
}

proof fn lemma_rows_empty(t: TerminalModel, sel: SelectionRange, count: nat)
    requires
        forall|k: int| 0 <= k < count ==> (#[trigger] selected_part(t, sel, k)).len() == 0,
    ensures
        t.selected_rows_text(sel, count).len() == 0,
    decreases count,
{
    if count > 0 {
        lemma_rows_empty(t, sel, (count - 1) as nat);
        assert(selected_part(t, sel, count - 1).len() == 0);
    }
}

proof fn lemma_rows_text(t: TerminalModel, sel: SelectionRange, skipped: int, count: nat)
    requires
        0 <= skipped < count,
        forall|k: int| 0 <= k < skipped ==> (#[trigger] selected_part(t, sel, k)).len() == 0,
        selected_part(t, sel, skipped).len() > 0,
        forall|k: int|
            skipped <= k < count ==> !(#[trigger] selected_part(t, sel, k)).contains('\n'),
    ensures
        t.selected_rows_text(sel, count).len() > 0,
        parts(t.selected_rows_text(sel, count)) == Seq::new(
            (count - skipped) as nat,
            |j: int| selected_part(t, sel, skipped + j),
        ),
    decreases count,
{
    let expected = Seq::new(
        (count - skipped) as nat,
        |j: int| selected_part(t, sel, skipped + j),
    );
    let above = t.selected_rows_text(sel, (count - 1) as nat);
    let row = selected_part(t, sel, count - 1);
    assert(row == t.selected_row_text(sel, sel.first_row() + count - 1));
    if skipped == count - 1 {
        lemma_rows_empty(t, sel, (count - 1) as nat);
        lemma_parts_single(row);
        assert(t.selected_rows_text(sel, count) == row);
        assert(seq![row] =~= expected);
    } else {
        lemma_rows_text(t, sel, skipped, (count - 1) as nat);
        lemma_parts_joined(above, row);
        assert(parts(above).push(row) =~= expected);
    }
}

/// The selected text has one line for each selected row from the first that is not empty
/// on, down to the last row, empty ones included: what is between its line feeds is
/// what is selected of these rows, in order.
pub proof fn law_selection_text(t: TerminalModel, sel: SelectionRange, skipped: int)
    requires
        t.selection_range == Some(sel),
        0 <= skipped <= sel.last_row() - sel.first_row(),
        forall|k: int| 0 <= k < skipped ==> (#[trigger] selected_part(t, sel, k)).len() == 0,
        selected_part(t, sel, skipped).len() > 0,
        forall|k: int|
            skipped <= k <= sel.last_row() - sel.first_row() ==> !(#[trigger] selected_part(
                t,
                sel,
                k,
            )).contains('\n'),
    ensures
        line_feeds(t.selection_text()) == sel.last_row() - sel.first_row() - skipped,
        parts(t.selection_text()).len() == sel.last_row() - sel.first_row() - skipped + 1,
        forall|j: int|
            0 <= j <= sel.last_row() - sel.first_row() - skipped ==> #[trigger] parts(
                t.selection_text(),
            )[j] == selected_part(t, sel, skipped + j),
{
    lemma_rows_text(t, sel, skipped, (sel.last_row() - sel.first_row() + 1) as nat);
    lemma_parts_len(t.selection_text());
}

/// Where every selected row is empty, or nothing is selected, there is no selected text.
pub proof fn law_no_selection_text(t: TerminalModel)
    requires
        t.selection_range matches Some(sel) ==> forall|k: int|
            0 <= k <= sel.last_row() - sel.first_row() ==> (#[trigger] selected_part(
                t,
                sel,
                k,
            )).len() == 0,
    ensures
        t.selection_text().len() == 0,
{
    if let Some(sel) = t.selection_range {
        lemma_rows_empty(t, sel, (sel.last_row() - sel.first_row() + 1) as nat);
    }
}

/// The columns that are selected in a row of the viewport are those that are selected in
/// the line that it shows.
pub proof fn law_viewport_selection(t: TerminalModel, sel: SelectionRange, i: int, row: int)
    requires
        t.wf(),
        t.selection_range == Some(sel),
        0 <= i < t.rows(),
        row + t.active().top() == t.viewport_top() + i,
    ensures
        t.viewport_selection(i) == sel.selected(row),
        t.viewport_line(i) == t.active().lines[t.active().top() + row],
{
}

/// A row that is counted from the first row of the screen is the line so many lines after
/// the scrollback; above the scrollback it is the first line.
pub proof fn law_row_place(t: TerminalModel, row: int)
    requires
        t.wf(),
        row < t.rows(),
    ensures
        0 <= t.active().phys_or_first(row) < t.active().lines.len(),
        row >= t.rows() - t.active().lines.len() ==> t.active().phys_or_first(row)
            == t.active().lines.len() - t.rows() + row,
        row < t.rows() - t.active().lines.len() ==> t.active().phys_or_first(row) == 0,
        0 <= row ==> t.active().row(row) == t.active().lines[t.active().lines.len() - t.rows()
            + row],
{
}

} // verus!
