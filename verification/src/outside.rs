//! What the terminal has from other crates.
use crate::text::byte_offset;
use unicode_segmentation::UnicodeSegmentation;
use unicode_width::UnicodeWidthChar;
use vstd::prelude::*;

verus! {

/// The number of columns that `unicode_width` gives a character, `None` for a
/// control character.
pub uninterp spec fn char_columns(c: char) -> Option<usize>;

/// Calls `UnicodeWidthChar::width`. The width depends on the character alone,
/// it is at most three columns, it is one column for printable ASCII, and there
/// is none for the control characters.
#[verifier::external_body]
pub(crate) fn char_width(c: char) -> (width: Option<usize>)
    ensures
        width == char_columns(c),
        width matches Some(w) ==> w <= 3,
        ' ' <= c <= '~' ==> width == Some(1usize),
        width is None <==> (c <= '\u{1f}' || '\u{7f}' <= c <= '\u{9f}'),
{
    UnicodeWidthChar::width(c)
}

/// The segments between the word boundaries of a text: the byte at which each
/// starts, and its length in bytes.
pub uninterp spec fn word_bounds(text: Seq<char>) -> Seq<(usize, usize)>;

/// Whether segments that are not empty follow each other without a gap from `start`
/// up to `end`.
pub open spec fn tiles(segments: Seq<(usize, usize)>, start: int, end: int) -> bool
    decreases segments.len(),
{
    if segments.len() == 0 {
        start == end
    } else {
        &&& segments[0].0 == start
        &&& segments[0].1 > 0
        &&& tiles(segments.drop_first(), start + segments[0].1, end)
    }
}

/// Calls `UnicodeSegmentation::split_word_bound_indices`. The segments depend on
/// the text alone, none is empty, and one after the other they make up the text.
/// Each ends within what one allocation can hold.
#[verifier::external_body]
pub(crate) fn split_word_bound_indices(text: &str) -> (segments: Vec<(usize, usize)>)
    ensures
        segments@ == word_bounds(text@),
        tiles(segments@, 0, byte_offset(text@, text@.len() as int) as int),
        forall|i: int|
            0 <= i < segments@.len() ==> (#[trigger] segments@[i]).1 > 0 && segments@[i].0
                + segments@[i].1 <= isize::MAX,
{
    text.split_word_bound_indices().map(|(start, word)| (start, word.len())).collect()
}

} // verus!
