//! Source text for the tables of emoji variations and of character widths.
pub mod laws;

use crate::text::{is_white_space, push_chars, to_chars, white_space};
use vstd::prelude::*;

verus! {

// Numbers

/// The value of a hexadecimal digit.
pub open spec fn hex_digit(c: char) -> Option<int> {
    if '0' <= c <= '9' {
        Some(c as int - '0' as int)
    } else if 'a' <= c <= 'f' {
        Some(c as int - 'a' as int + 10)
    } else if 'A' <= c <= 'F' {
        Some(c as int - 'A' as int + 10)
    } else {
        None
    }
}

/// Whether all of the characters are hexadecimal digits.
pub open spec fn all_hex(s: Seq<char>) -> bool {
    forall|i: int| 0 <= i < s.len() ==> hex_digit(#[trigger] s[i]) is Some
}

/// The number that hexadecimal digits stand for.
pub open spec fn hex_number(s: Seq<char>) -> int
    decreases s.len(),
{
    if s.len() == 0 {
        0
    } else {
        hex_number(s.drop_last()) * 16 + hex_digit(s.last())->0
    }
}

/// The digits of a word, which may have a plus sign before them.
pub open spec fn unsigned_digits(word: Seq<char>) -> Seq<char> {
    if word.len() > 0 && word[0] == '+' {
        word.skip(1)
    } else {
        word
    }
}

/// The number that a word stands for, where it is one that fits.
pub open spec fn hex_value(word: Seq<char>) -> Option<u32> {
    let digits = unsigned_digits(word);
    if digits.len() > 0 && all_hex(digits) && hex_number(digits) <= u32::MAX {
        Some(hex_number(digits) as u32)
    } else {
        None
    }
}

fn hex_digit_value(c: char) -> (value: Option<u32>)
    ensures
        match value {
            Some(v) => hex_digit(c) == Some(v as int) && v < 16,
            None => hex_digit(c) is None,
        },
{
    if '0' <= c && c <= '9' {
        Some(c as u32 - 48)
    } else if 'a' <= c && c <= 'f' {
        Some(c as u32 - 87)
    } else if 'A' <= c && c <= 'F' {
        Some(c as u32 - 55)
    } else {
        None
    }
}

proof fn lemma_hex_number_grows(s: Seq<char>, n: int)
    requires
        0 <= n <= s.len(),
        all_hex(s),
    ensures
        0 <= hex_number(s.take(n)) <= hex_number(s),
    decreases s.len(),
{
    if n == s.len() {
        assert(s.take(n) =~= s);
        if n > 0 {
            lemma_hex_number_grows(s.drop_last(), n - 1);
            assert(s.drop_last().take(n - 1) =~= s.drop_last());
            assert(hex_digit(s[n - 1]) is Some);
        }
    } else {
        lemma_hex_number_grows(s.drop_last(), n);
        assert(s.drop_last().take(n) =~= s.take(n));
        assert(hex_digit(s[s.len() - 1]) is Some);
    }
}

/// The number that a word stands for, where it is one that fits.
pub fn parse_hex(word: &Vec<char>) -> (value: Option<u32>)
    ensures
        value == hex_value(word@),
{
    let ghost digits = unsigned_digits(word@);
    let start: usize = if word.len() > 0 && word[0] == '+' {
        1
    } else {
        0
    };
    assert(digits =~= word@.skip(start as int));
    if start == word.len() {
        return None;
    }
    let mut n: u32 = 0;
    let mut i: usize = start;
    while i < word.len()
        invariant
            start <= i <= word@.len(),
            digits == word@.skip(start as int),
            digits == unsigned_digits(word@),
            all_hex(digits.take(i - start)),
            n == hex_number(digits.take(i - start)),
        decreases word@.len() - i,
    {
        let ghost done = digits.take(i - start);
        let ghost more = digits.take(i - start + 1);
        assert(more.drop_last() =~= done);
        assert(more.last() == word@[i as int]);
        let digit: u32 = match hex_digit_value(word[i]) {
            Some(digit) => digit,
            None => {
                assert(digits[i - start] == word@[i as int]);
                return None;
            },
        };
        if n > (u32::MAX - digit) / 16 {
            proof {
                if all_hex(digits) {
                    lemma_hex_number_grows(digits, i - start + 1);
                    assert(hex_number(more) == n * 16 + digit);
                }
            }
            return None;
        }
        n = n * 16 + digit;
        i += 1;
        assert forall|j: int| 0 <= j < more.len() implies hex_digit(#[trigger] more[j]) is Some by {
            if j < done.len() {
                assert(more[j] == done[j]);
            }
        }
    }
    assert(digits.take(i - start) =~= digits);
    Some(n)
}

// Words and lines

/// The parts of a text between its white space.
pub open spec fn words(s: Seq<char>) -> Seq<Seq<char>>
    decreases s.len(),
{
    if s.len() == 0 {
        Seq::empty()
    } else {
        let before = words(s.drop_last());
        if white_space(s.last()) {
            before
        } else if s.len() >= 2 && !white_space(s[s.len() - 2]) {
            before.drop_last().push(before.last().push(s.last()))
        } else {
            before.push(seq![s.last()])
        }
    }
}

/// Words as mathematical values.
pub open spec fn words_view(words: Seq<Vec<char>>) -> Seq<Seq<char>> {
    Seq::new(words.len(), |i: int| words[i]@)
}

/// The parts of a text between its white space.
pub fn split_words(s: &Vec<char>) -> (split: Vec<Vec<char>>)
    ensures
        words_view(split@) == words(s@),
{
    let mut split: Vec<Vec<char>> = Vec::new();
    let mut word: Vec<char> = Vec::new();
    let mut i: usize = 0;
    assert(words_view(split@) =~= words(s@.take(0)));
    while i < s.len()
        invariant
            i <= s@.len(),
            word@.len() > 0 <==> (i > 0 && !white_space(s@[i - 1])),
            word@.len() > 0 ==> words(s@.take(i as int)) == words_view(split@).push(word@),
            word@.len() == 0 ==> words(s@.take(i as int)) == words_view(split@),
        decreases s@.len() - i,
    {
        let c: char = s[i];
        let ghost done = s@.take(i as int);
        let ghost more = s@.take(i + 1);
        assert(more.drop_last() =~= done);
        assert(i > 0 ==> more[more.len() - 2] == s@[i - 1]);
        if is_white_space(c) {
            if word.len() > 0 {
                let ghost before = words_view(split@);
                let ghost last = word@;
                split.push(word);
                word = Vec::new();
                assert(words_view(split@) =~= before.push(last));
            }
        } else {
            assert(words_view(split@).push(word@).drop_last() =~= words_view(split@));
            let ghost was = word@;
            word.push(c);
            assert(was.len() == 0 ==> word@ =~= seq![c]);
        }
        i += 1;
    }
    assert(s@.take(i as int) =~= s@);
    if word.len() > 0 {
        let ghost before = words_view(split@);
        let ghost last = word@;
        split.push(word);
        assert(words_view(split@) =~= before.push(last));
    }
    split
}

/// The part of a text before the first `c`, or all of it.
pub open spec fn before(s: Seq<char>, c: char) -> Seq<char> {
    match s.index_of_first(c) {
        Some(i) => s.take(i),
        None => s,
    }
}

fn chars_before(s: &Vec<char>, c: char) -> (part: Vec<char>)
    ensures
        part@ == before(s@, c),
{
    proof {
        s@.index_of_first_ensures(c);
    }
    let mut part: Vec<char> = Vec::new();
    let mut i: usize = 0;
    while i < s.len() && s[i] != c
        invariant
            i <= s@.len(),
            part@ == s@.take(i as int),
            forall|j: int| 0 <= j < i ==> s@[j] != c,
        decreases s@.len() - i,
    {
        part.push(s[i]);
        i += 1;
        assert(part@ =~= s@.take(i as int));
    }
    assert(part@ == before(s@, c)) by {
        if i < s@.len() {
            assert(s@.contains(c));
            assert(s@.index_of_first(c) == Some(i as int));
        } else {
            assert(s@.take(i as int) =~= s@);
        }
    }
    part
}

/// The parts of a text between its line feeds.
pub open spec fn lines(text: Seq<char>) -> Seq<Seq<char>>
    decreases text.len(),
{
    if text.len() == 0 {
        seq![Seq::empty()]
    } else {
        let before = lines(text.drop_last());
        if text.last() == '\n' {
            before.push(Seq::empty())
        } else {
            before.drop_last().push(before.last().push(text.last()))
        }
    }
}

// Sequences of characters

/// Whether a number is the code of a character.
pub open spec fn scalar_value(n: u32) -> bool {
    n <= 0xd7ff || 0xe000 <= n <= 0x10ffff
}

/// `char::from_u32` of std gives the character with a code, and `None` where the
/// number is not the code of a character.
pub assume_specification[ char::from_u32 ](n: u32) -> (c: Option<char>)
    ensures
        match c {
            Some(ch) => scalar_value(n) && ch as int == n,
            None => !scalar_value(n),
        },
;

/// Why a text does not define variations.
#[derive(Debug, Clone, Copy, PartialEq, Eq, Structural)]
pub enum VariationError {
    /// A number is not the code of a character.
    NotAChar,
    /// A sequence does not end in a variation selector.
    NotASelector,
    /// A sequence occurs twice.
    Duplicate,
}

/// The characters whose codes are the first `n` words. `None` where one of the words
/// is not a number, and an error where one before it is not the code of a character.
pub open spec fn sequence(words: Seq<Seq<char>>, n: nat) -> Result<
    Option<Seq<char>>,
    VariationError,
>
    decreases n,
{
    if n == 0 {
        Ok(Some(Seq::empty()))
    } else {
        match sequence(words, (n - 1) as nat) {
            Ok(Some(chars)) => match hex_value(words[n - 1]) {
                Some(code) => if scalar_value(code) {
                    Ok(Some(chars.push(code as char)))
                } else {
                    Err(VariationError::NotAChar)
                },
                None => Ok(None),
            },
            other => other,
        }
    }
}

/// A sequence as a mathematical value.
pub open spec fn sequence_view(
    sequence: Result<Option<Vec<char>>, VariationError>,
) -> Result<Option<Seq<char>>, VariationError> {
    match sequence {
        Ok(Some(chars)) => Ok(Some(chars@)),
        Ok(None) => Ok(None),
        Err(e) => Err(e),
    }
}

proof fn lemma_sequence_stops(words: Seq<Seq<char>>, m: nat, n: nat)
    requires
        m <= n,
        !(sequence(words, m) matches Ok(Some(_))),
    ensures
        sequence(words, n) == sequence(words, m),
    decreases n,
{
    if m < n {
        lemma_sequence_stops(words, m, (n - 1) as nat);
    }
}

fn parse_sequence(words: &Vec<Vec<char>>) -> (parsed: Result<Option<Vec<char>>, VariationError>)
    ensures
        sequence_view(parsed) == sequence(words_view(words@), words@.len()),
{
    let ghost view = words_view(words@);
    let mut chars: Vec<char> = Vec::new();
    let mut i: usize = 0;
    while i < words.len()
        invariant
            i <= words@.len(),
            view == words_view(words@),
            sequence(view, i as nat) == Ok::<_, VariationError>(Some(chars@)),
        decreases words@.len() - i,
    {
        assert(view[i as int] == words@[i as int]@);
        match parse_hex(&words[i]) {
            Some(code) => match char::from_u32(code) {
                Some(c) => {
                    assert(c == code as char);
                    chars.push(c);
                },
                None => {
                    proof {
                        lemma_sequence_stops(view, (i + 1) as nat, words@.len());
                    }
                    return Err(VariationError::NotAChar);
                },
            },
            None => {
                proof {
                    lemma_sequence_stops(view, (i + 1) as nat, words@.len());
                }
                return Ok(None);
            },
        }
        i += 1;
    }
    Ok(Some(chars))
}

// Variations

/// How a character is presented.
#[derive(Debug, Clone, Copy, PartialEq, Eq, Structural)]
pub enum Presentation {
    Emoji,
    Text,
}

impl Presentation {
    pub open spec fn name(self) -> Seq<char> {
        match self {
            Presentation::Emoji => "Presentation::Emoji"@,
            Presentation::Text => "Presentation::Text"@,
        }
    }

    fn push_name(&self, out: &mut String)
        ensures
            final(out)@ == old(out)@ + self.name(),
    {
        match self {
            Presentation::Emoji => out.append("Presentation::Emoji"),
            Presentation::Text => out.append("Presentation::Text"),
        }
    }
}

/// A sequence of characters, how its first character is presented alone, and how
/// it is with the selector at the end of the sequence.
#[derive(Debug, PartialEq, Eq)]
pub struct Variation {
    pub sequence: Vec<char>,
    pub alone: Presentation,
    pub selected: Presentation,
}

#[verifier::ext_equal]
pub struct VariationModel {
    pub sequence: Seq<char>,
    pub alone: Presentation,
    pub selected: Presentation,
}

impl View for Variation {
    type V = VariationModel;

    open spec fn view(&self) -> VariationModel {
        VariationModel {
            sequence: self.sequence@,
            alone: self.alone,
            selected: self.selected,
        }
    }
}

pub open spec fn variations_view(variations: Seq<Variation>) -> Seq<VariationModel> {
    Seq::new(variations.len(), |i: int| variations[i]@)
}

/// Whether a character is in one of the ranges, each from its first code to its
/// last.
pub open spec fn in_ranges(ranges: Seq<(u32, u32)>, c: char) -> bool {
    exists|i: int| 0 <= i < ranges.len() && (#[trigger] ranges[i]).0 <= c as int <= ranges[i].1
}

fn is_in_ranges(ranges: &Vec<(u32, u32)>, c: char) -> (found: bool)
    ensures
        found == in_ranges(ranges@, c),
{
    let code: u32 = c as u32;
    let mut i: usize = 0;
    while i < ranges.len()
        invariant
            i <= ranges@.len(),
            code == c as int,
            forall|j: int| 0 <= j < i ==> !((#[trigger] ranges@[j]).0 <= code <= ranges@[j].1),
        decreases ranges@.len() - i,
    {
        if ranges[i].0 <= code && code <= ranges[i].1 {
            assert(ranges@[i as int].0 <= c as int <= ranges@[i as int].1);
            return true;
        }
        i += 1;
    }
    false
}

/// What a variation selector selects.
pub open spec fn selector(c: char) -> Option<Presentation> {
    if c == '\u{fe0f}' {
        Some(Presentation::Emoji)
    } else if c == '\u{fe0e}' {
        Some(Presentation::Text)
    } else {
        None
    }
}

/// The words of a line before the first number sign and the first semicolon.
pub open spec fn line_words(line: Seq<char>) -> Seq<Seq<char>> {
    words(before(before(line, '#'), ';'))
}

/// The variation that a sequence of characters defines. `emoji` are the characters
/// that are presented as emoji alone.
pub open spec fn variation(chars: Seq<char>, emoji: Seq<(u32, u32)>) -> Result<
    Option<VariationModel>,
    VariationError,
> {
    if chars.len() == 0 {
        Ok(None)
    } else {
        match selector(chars.last()) {
            Some(selected) => Ok(
                Some(
                    VariationModel {
                        sequence: chars,
                        alone: if in_ranges(emoji, chars[0]) {
                            Presentation::Emoji
                        } else {
                            Presentation::Text
                        },
                        selected,
                    },
                ),
            ),
            None => Err(VariationError::NotASelector),
        }
    }
}

/// The variation that a line defines, if any.
pub open spec fn line_variation(line: Seq<char>, emoji: Seq<(u32, u32)>) -> Result<
    Option<VariationModel>,
    VariationError,
> {
    match sequence(line_words(line), line_words(line).len()) {
        Ok(Some(chars)) => variation(chars, emoji),
        Ok(None) => Ok(None),
        Err(e) => Err(e),
    }
}

/// The variations that lines define, one after the other.
pub open spec fn lines_variations(lines: Seq<Seq<char>>, emoji: Seq<(u32, u32)>) -> Result<
    Seq<VariationModel>,
    VariationError,
>
    decreases lines.len(),
{
    if lines.len() == 0 {
        Ok(Seq::empty())
    } else {
        match lines_variations(lines.drop_last(), emoji) {
            Ok(found) => match line_variation(lines.last(), emoji) {
                Ok(Some(v)) => Ok(found.push(v)),
                Ok(None) => Ok(found),
                Err(e) => Err(e),
            },
            Err(e) => Err(e),
        }
    }
}

pub open spec fn variation_view(parsed: Result<Option<Variation>, VariationError>) -> Result<
    Option<VariationModel>,
    VariationError,
> {
    match parsed {
        Ok(Some(v)) => Ok(Some(v@)),
        Ok(None) => Ok(None),
        Err(e) => Err(e),
    }
}

/// The variation that a line defines, if any.
pub fn parse_line(line: &Vec<char>, emoji: &Vec<(u32, u32)>) -> (parsed: Result<
    Option<Variation>,
    VariationError,
>)
    ensures
        variation_view(parsed) == line_variation(line@, emoji@),
{
    let lhs = chars_before(line, '#');
    let seq = chars_before(&lhs, ';');
    let split = split_words(&seq);
    assert(words_view(split@).len() == split@.len());
    match parse_sequence(&split) {
        Ok(Some(chars)) => {
            if chars.len() == 0 {
                return Ok(None);
            }
            let last: char = chars[chars.len() - 1];
            let selected = if last == '\u{fe0f}' {
                Presentation::Emoji
            } else if last == '\u{fe0e}' {
                Presentation::Text
            } else {
                return Err(VariationError::NotASelector);
            };
            let alone = if is_in_ranges(emoji, chars[0]) {
                Presentation::Emoji
            } else {
                Presentation::Text
            };
            Ok(Some(Variation { sequence: chars, alone, selected }))
        },
        Ok(None) => Ok(None),
        Err(e) => Err(e),
    }
}

/// The variations that a text in the form of emoji-variation-sequences.txt defines,
/// which is part of the UCD download for a given version of the Unicode spec.
pub open spec fn text_variations(text: Seq<char>, emoji: Seq<(u32, u32)>) -> Result<
    Seq<VariationModel>,
    VariationError,
> {
    lines_variations(lines(text), emoji)
}

pub open spec fn parsed_view(parsed: Result<Vec<Variation>, VariationError>) -> Result<
    Seq<VariationModel>,
    VariationError,
> {
    match parsed {
        Ok(v) => Ok(variations_view(v@)),
        Err(e) => Err(e),
    }
}

fn parse_next_line(
    found: &mut Vec<Variation>,
    line: &Vec<char>,
    emoji: &Vec<(u32, u32)>,
) -> (parsed: Result<(), VariationError>)
    ensures
        match parsed {
            Ok(_) => match line_variation(line@, emoji@) {
                Ok(Some(v)) => variations_view(final(found)@) == variations_view(
                    old(found)@,
                ).push(v),
                Ok(None) => final(found)@ == old(found)@,
                Err(_) => false,
            },
            Err(e) => line_variation(line@, emoji@) == Err::<Option<VariationModel>, _>(e),
        },
{
    match parse_line(line, emoji) {
        Ok(Some(v)) => {
            found.push(v);
            assert(variations_view(found@) =~= variations_view(old(found)@).push(v@));
            Ok(())
        },
        Ok(None) => Ok(()),
        Err(e) => Err(e),
    }
}

/// The lines that come later make no difference once one has failed.
proof fn lemma_lines_stop(lines: Seq<Seq<char>>, m: int, emoji: Seq<(u32, u32)>)
    requires
        0 <= m <= lines.len(),
        lines_variations(lines.take(m), emoji) is Err,
    ensures
        lines_variations(lines, emoji) == lines_variations(lines.take(m), emoji),
    decreases lines.len(),
{
    if m == lines.len() {
        assert(lines.take(m) =~= lines);
    } else {
        assert(lines.drop_last().take(m) =~= lines.take(m));
        lemma_lines_stop(lines.drop_last(), m, emoji);
    }
}

/// A text has a line, and at most one more than it has characters.
proof fn lemma_lines_len(text: Seq<char>)
    ensures
        1 <= lines(text).len() <= text.len() + 1,
    decreases text.len(),
{
    if text.len() > 0 {
        lemma_lines_len(text.drop_last());
    }
}

/// All lines of a text but for the last are the same when more text follows.
proof fn lemma_lines_prefix(text: Seq<char>, n: int)
    requires
        0 <= n <= text.len(),
    ensures
        lines(text.take(n)).len() <= lines(text).len(),
        lines(text.take(n)).drop_last() == lines(text).take(lines(text.take(n)).len() - 1),
    decreases text.len(),
{
    lemma_lines_len(text.take(n));
    if n == text.len() {
        assert(text.take(n) =~= text);
        assert(lines(text).drop_last() =~= lines(text).take(lines(text).len() - 1));
    } else {
        let shorter = text.drop_last();
        assert(shorter.take(n) =~= text.take(n));
        lemma_lines_prefix(shorter, n);
        lemma_lines_len(shorter);
        let k = lines(text.take(n)).len() - 1;
        assert(lines(text).take(k) =~= lines(shorter).take(k));
    }
}

/// The variations that a text in the form of emoji-variation-sequences.txt defines,
/// which is part of the UCD download for a given version of the Unicode spec.
/// It defines which sequences can have explicit presentation selectors.
pub fn parse_variations(text: &str, emoji: &Vec<(u32, u32)>) -> (parsed: Result<
    Vec<Variation>,
    VariationError,
>)
    ensures
        parsed_view(parsed) == text_variations(text@, emoji@),
{
    let chars = to_chars(text);
    let mut found: Vec<Variation> = Vec::new();
    let mut line: Vec<char> = Vec::new();
    let mut i: usize = 0;
    assert(chars@.take(0) =~= Seq::<char>::empty());
    assert(variations_view(found@) =~= Seq::<VariationModel>::empty());
    assert(lines(chars@.take(0)).drop_last() =~= Seq::<Seq<char>>::empty());
    while i < chars.len()
        invariant
            i <= chars@.len(),
            chars@ == text@,
            lines(chars@.take(i as int)).len() > 0,
            lines(chars@.take(i as int)).last() == line@,
            lines_variations(lines(chars@.take(i as int)).drop_last(), emoji@) == Ok::<
                _,
                VariationError,
            >(variations_view(found@)),
        decreases chars@.len() - i,
    {
        let c: char = chars[i];
        let ghost done = lines(chars@.take(i as int));
        let ghost more = lines(chars@.take(i + 1));
        assert(chars@.take(i + 1).drop_last() =~= chars@.take(i as int));
        if c == '\n' {
            assert(more.drop_last() =~= done);
            match parse_next_line(&mut found, &line, emoji) {
                Ok(_) => {},
                Err(e) => {
                    proof {
                        lemma_lines_prefix(chars@, i + 1);
                        lemma_lines_stop(lines(chars@), done.len() as int, emoji@);
                    }
                    return Err(e);
                },
            }
            line = Vec::new();
            assert(line@ =~= Seq::<char>::empty());
        } else {
            line.push(c);
            assert(more.drop_last() =~= done.drop_last());
        }
        i += 1;
    }
    assert(chars@.take(i as int) =~= chars@);
    match parse_next_line(&mut found, &line, emoji) {
        Ok(_) => Ok(found),
        Err(e) => Err(e),
    }
}

/// A line that starts with a number sign defines nothing, whatever follows.
pub proof fn law_comment_line(comment: Seq<char>, emoji: Seq<(u32, u32)>)
    ensures
        line_variation(seq!['#'] + comment, emoji) == Ok::<_, VariationError>(
            None::<VariationModel>,
        ),
{
    let line = seq!['#'] + comment;
    line.index_of_first_ensures('#');
    assert(line[0] == '#');
    let empty = before(line, '#');
    assert(empty =~= Seq::<char>::empty());
    empty.index_of_first_ensures(';');
    assert(before(empty, ';') =~= Seq::<char>::empty());
    assert(line_words(line) =~= Seq::<Seq<char>>::empty());
    assert(sequence(line_words(line), 0) == Ok::<_, VariationError>(Some(Seq::<char>::empty())));
}

/// What follows the first number sign of a line makes no difference.
pub proof fn law_comment_ignored(line: Seq<char>, comment: Seq<char>, emoji: Seq<(u32, u32)>)
    requires
        !line.contains('#'),
    ensures
        line_variation(line + seq!['#'] + comment, emoji) == line_variation(line, emoji),
{
    let whole = line + seq!['#'] + comment;
    line.index_of_first_ensures('#');
    whole.index_of_first_ensures('#');
    assert(whole[line.len() as int] == '#');
    let i = whole.index_of_first('#')->0;
    if i < line.len() {
        assert(line[i] == '#');
    }
    assert(before(whole, '#') =~= line);
}

/// Every sequence that a text defines ends in a variation selector, which selects
/// what the variation says.
pub proof fn law_variations_end_in_selector(lines: Seq<Seq<char>>, emoji: Seq<(u32, u32)>)
    ensures
        lines_variations(lines, emoji) matches Ok(found) ==> forall|i: int|
            0 <= i < found.len() ==> (#[trigger] found[i]).sequence.len() > 0 && selector(
                found[i].sequence.last(),
            ) == Some(found[i].selected),
    decreases lines.len(),
{
    if lines.len() > 0 {
        law_variations_end_in_selector(lines.drop_last(), emoji);
    }
}

// Source text

/// What the builder of a perfect hash map holds: keys, and the source text of the
/// values, in the order in which they were added.
pub uninterp spec fn builder_entries(builder: phf_codegen::Map<String>) -> Seq<
    (Seq<char>, Seq<char>),
>;

/// The source text of a perfect hash map. The parameters of the hash are drawn from a
/// generator with a fixed seed, which differs with the width of a machine word.
pub uninterp spec fn phf_source(entries: Seq<(Seq<char>, Seq<char>)>, word_bits: nat) -> Seq<
    char,
>;

/// `phf_codegen::Map`, the builder of a perfect hash map.
#[verifier::external_type_specification]
#[verifier::external_body]
#[verifier::reject_recursive_types(K)]
pub struct ExPhfMap<K>(phf_codegen::Map<K>);

/// Calls `phf_codegen::Map::new`, whose builder holds nothing.
#[verifier::external_body]
fn new_builder() -> (builder: phf_codegen::Map<String>)
    ensures
        builder_entries(builder) == Seq::<(Seq<char>, Seq<char>)>::empty(),
{
    phf_codegen::Map::new()
}

/// Calls `phf_codegen::Map::entry`, which adds an entry after those that are there.
#[verifier::external_body]
fn add_entry(builder: &mut phf_codegen::Map<String>, key: String, value: &str)
    ensures
        builder_entries(*final(builder)) == builder_entries(*old(builder)).push((key@, value@)),
{
    builder.entry(key, value);
}

/// Calls `phf_codegen::Map::build` and prints the map. The text depends on the entries
/// alone, and on the width of a machine word; it names the `phf` crate as `new_builder`
/// left it, since nothing here sets another path. `build` does not take a key twice,
/// and counts the keys in 32 bits.
#[verifier::external_body]
fn build_source(builder: &phf_codegen::Map<String>) -> (text: String)
    requires
        distinct_keys(builder_entries(*builder)),
        builder_entries(*builder).len() <= u32::MAX,
    ensures
        text@ == phf_source(builder_entries(*builder), usize::BITS as nat),
{
    format!("{}", builder.build())
}

/// Whether no two entries have the same key.
pub open spec fn distinct_keys(entries: Seq<(Seq<char>, Seq<char>)>) -> bool {
    forall|i: int, j: int|
        0 <= i < j < entries.len() ==> (#[trigger] entries[i]).0 != (#[trigger] entries[j]).0
}

/// The source text of what a variation selects between.
pub open spec fn variation_value(v: VariationModel) -> Seq<char> {
    "("@ + v.alone.name() + ", "@ + v.selected.name() + ")"@
}

pub open spec fn variation_entry(v: VariationModel) -> (Seq<char>, Seq<char>) {
    (v.sequence, variation_value(v))
}

/// The entries of the map of variations.
pub open spec fn variation_entries(variations: Seq<VariationModel>) -> Seq<
    (Seq<char>, Seq<char>),
> {
    Seq::new(variations.len(), |i: int| variation_entry(variations[i]))
}

fn same_chars(a: &Vec<char>, b: &Vec<char>) -> (same: bool)
    ensures
        same == (a@ == b@),
{
    if a.len() != b.len() {
        return false;
    }
    let mut i: usize = 0;
    while i < a.len()
        invariant
            i <= a@.len(),
            a@.len() == b@.len(),
            forall|j: int| 0 <= j < i ==> a@[j] == b@[j],
        decreases a@.len() - i,
    {
        if a[i] != b[i] {
            return false;
        }
        i += 1;
    }
    assert(a@ =~= b@);
    true
}

fn has_sequence(variations: &Vec<Variation>, n: usize, sequence: &Vec<char>) -> (found: bool)
    requires
        n <= variations@.len(),
    ensures
        found == exists|i: int| 0 <= i < n && (#[trigger] variations@[i]).sequence@ == sequence@,
{
    let mut i: usize = 0;
    while i < n
        invariant
            i <= n <= variations@.len(),
            forall|j: int|
                0 <= j < i ==> (#[trigger] variations@[j]).sequence@ != sequence@,
        decreases n - i,
    {
        if same_chars(&variations[i].sequence, sequence) {
            assert(variations@[i as int].sequence@ == sequence@);
            return true;
        }
        i += 1;
    }
    false
}

fn is_distinct(variations: &Vec<Variation>) -> (distinct: bool)
    ensures
        distinct == distinct_keys(variation_entries(variations_view(variations@))),
{
    let ghost entries = variation_entries(variations_view(variations@));
    let mut i: usize = 0;
    while i < variations.len()
        invariant
            i <= variations@.len(),
            entries == variation_entries(variations_view(variations@)),
            forall|j: int, k: int|
                0 <= j < k < i ==> (#[trigger] entries[j]).0 != (#[trigger] entries[k]).0,
        decreases variations@.len() - i,
    {
        assert(entries[i as int].0 == variations@[i as int].sequence@);
        if has_sequence(variations, i, &variations[i].sequence) {
            proof {
                let j = choose|j: int|
                    0 <= j < i && (#[trigger] variations@[j]).sequence@
                        == variations@[i as int].sequence@;
                assert(entries[j].0 == entries[i as int].0);
            }
            return false;
        }
        assert forall|j: int| 0 <= j < i implies (#[trigger] entries[j]).0
            != entries[i as int].0 by {
            assert(entries[j].0 == variations@[j].sequence@);
        }
        i += 1;
    }
    true
}

fn write_value(v: &Variation) -> (text: String)
    ensures
        text@ == variation_value(v@),
{
    let mut text = String::new();
    text.append("(");
    v.alone.push_name(&mut text);
    text.append(", ");
    v.selected.push_name(&mut text);
    text.append(")");
    assert(text@ =~= variation_value(v@));
    text
}

fn build_map(variations: &Vec<Variation>) -> (source: String)
    requires
        distinct_keys(variation_entries(variations_view(variations@))),
        variations@.len() <= u32::MAX,
    ensures
        source@ == phf_source(
            variation_entries(variations_view(variations@)),
            usize::BITS as nat,
        ),
{
    let ghost entries = variation_entries(variations_view(variations@));
    let mut map = new_builder();
    let mut i: usize = 0;
    assert(entries.take(0) =~= Seq::<(Seq<char>, Seq<char>)>::empty());
    while i < variations.len()
        invariant
            i <= variations@.len(),
            entries == variation_entries(variations_view(variations@)),
            builder_entries(map) == entries.take(i as int),
        decreases variations@.len() - i,
    {
        let v = &variations[i];
        let mut key = String::new();
        push_chars(&mut key, &v.sequence, 0, v.sequence.len());
        assert(key@ =~= v.sequence@);
        let value = write_value(v);
        add_entry(&mut map, key, value.as_str());
        i += 1;
        assert(entries.take(i as int) =~= entries.take(i - 1).push(entries[i - 1]));
    }
    assert(entries.take(i as int) =~= entries);
    build_source(&map)
}

/// The source text of the map of variations, given that of its value.
pub open spec fn variation_map_text(map: Seq<char>) -> Seq<char> {
    "use crate::emoji::Presentation;\n\n"@
        + "pub static VARIATION_MAP: phf::Map<&'static str, (Presentation, Presentation)> = \n"@
        + map + ";\n\n"@
}

/// The source text of the map of variations, given that of its value.
pub fn write_variation_map(map: &str) -> (source: String)
    ensures
        source@ == variation_map_text(map@),
{
    let mut source = String::new();
    source.append("use crate::emoji::Presentation;\n\n");
    source.append(
        "pub static VARIATION_MAP: phf::Map<&'static str, (Presentation, Presentation)> = \n",
    );
    source.append(map);
    source.append(";\n\n");
    assert(source@ =~= variation_map_text(map@));
    source
}

/// The source text of the map of the variations that a text defines.
pub open spec fn variation_map(text: Seq<char>, emoji: Seq<(u32, u32)>) -> Result<
    Seq<char>,
    VariationError,
> {
    match text_variations(text, emoji) {
        Ok(variations) => if distinct_keys(variation_entries(variations)) {
            Ok(
                variation_map_text(
                    phf_source(variation_entries(variations), usize::BITS as nat),
                ),
            )
        } else {
            Err(VariationError::Duplicate)
        },
        Err(e) => Err(e),
    }
}

pub open spec fn source_view(source: Result<String, VariationError>) -> Result<
    Seq<char>,
    VariationError,
> {
    match source {
        Ok(text) => Ok(text@),
        Err(e) => Err(e),
    }
}

/// The source text of the map of the variations that `text` defines, in the form of
/// emoji-variation-sequences.txt. `emoji` are the characters that are presented as
/// emoji alone. The builder of the map counts the variations in 32 bits.
pub fn emit_variation_map(text: &str, emoji: &Vec<(u32, u32)>) -> (source: Result<
    String,
    VariationError,
>)
    requires
        text_variations(text@, emoji@) matches Ok(found) ==> found.len() <= u32::MAX,
    ensures
        source_view(source) == variation_map(text@, emoji@),
{
    match parse_variations(text, emoji) {
        Ok(variations) => {
            assert(variations_view(variations@).len() == variations@.len());
            if !is_distinct(&variations) {
                return Err(VariationError::Duplicate);
            }
            let map = build_map(&variations);
            Ok(write_variation_map(map.as_str()))
        },
        Err(e) => Err(e),
    }
}

/// One line for each of the classes.
pub open spec fn class_lines(classes: Seq<String>) -> Seq<char>
    decreases classes.len(),
{
    if classes.len() == 0 {
        Seq::empty()
    } else {
        class_lines(classes.drop_last()) + "  WcWidth::"@ + classes.last()@ + ",\n"@
    }
}

/// The source text of the table of width classes.
pub open spec fn classify_table(classes: Seq<String>) -> Seq<char> {
    "use crate::widechar_width::{WcLookupTable, WcWidth};\n\n"@
        + "pub const WCWIDTH_TABLE: WcLookupTable = WcLookupTable {\n  table: [\n"@
        + class_lines(classes) + "]};\n"@
}

/// The source text of a table that has the width class of each character, given the
/// names of the classes.
pub fn emit_classify_table(classes: &Vec<String>) -> (source: String)
    ensures
        source@ == classify_table(classes@),
{
    let mut source = String::new();
    source.append("use crate::widechar_width::{WcLookupTable, WcWidth};\n\n");
    source.append("pub const WCWIDTH_TABLE: WcLookupTable = WcLookupTable {\n  table: [\n");
    let ghost head = source@;
    let mut i: usize = 0;
    assert(classes@.take(0) =~= Seq::<String>::empty());
    assert(source@ =~= head + class_lines(classes@.take(0)));
    while i < classes.len()
        invariant
            i <= classes@.len(),
            source@ == head + class_lines(classes@.take(i as int)),
        decreases classes@.len() - i,
    {
        source.append("  WcWidth::");
        source.append(classes[i].as_str());
        source.append(",\n");
        i += 1;
        assert(classes@.take(i as int).drop_last() =~= classes@.take(i - 1));
        assert(source@ =~= head + class_lines(classes@.take(i as int)));
    }
    assert(classes@.take(i as int) =~= classes@);
    source.append("]};\n");
    assert(source@ =~= classify_table(classes@));
    source
}

} // verus!
