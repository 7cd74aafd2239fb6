//! What the words, numbers and lines of a table are.
use super::{
    before, class_lines, hex_digit, hex_number, hex_value, line_variation, line_words, lines,
    lines_variations, scalar_value, sequence, variation_entries, variation_map, variation_value,
    words, Presentation, VariationError, VariationModel,
};
use crate::text::white_space;
use vstd::arithmetic::power::{lemma_pow0, lemma_pow1, lemma_pow_adds, pow};
use vstd::prelude::*;

verus! {

// Numbers

/// The digits and the letters up to `f` in both cases stand for the numbers below sixteen.
pub proof fn law_hex_digits(c: char)
    ensures
        '0' <= c <= '9' ==> hex_digit(c) == Some(c as int - 0x30),
        'a' <= c <= 'f' ==> hex_digit(c) == Some(c as int - 0x61 + 10),
        'A' <= c <= 'F' ==> hex_digit(c) == Some(c as int - 0x41 + 10),
        hex_digit(c) matches Some(d) ==> 0 <= d < 16,
        hex_digit(c) is Some ==> '0' <= c <= '9' || 'a' <= c <= 'f' || 'A' <= c <= 'F',
{
}

/// Digits that are put after others make the number of those greater by a power of sixteen.
pub proof fn law_hex_number(first: Seq<char>, second: Seq<char>)
    ensures
        hex_number(first + second) == hex_number(first) * pow(16, second.len()) + hex_number(
            second,
        ),
    decreases second.len(),
{
    if second.len() == 0 {
        assert(first + second =~= first);
        lemma_pow0(16);
    } else {
        let less = second.drop_last();
        law_hex_number(first, less);
        assert((first + second).drop_last() =~= first + less);
        lemma_pow_adds(16, less.len(), 1);
        lemma_pow1(16);
        let a = hex_number(first);
        let p = pow(16, less.len());
        let b = hex_number(less);
        let d = hex_digit(second.last())->0;
        assert((a * p + b) * 16 + d == a * (p * 16) + (b * 16 + d)) by (nonlinear_arith);
    }
}

/// One digit is the number that it stands for.
pub proof fn law_hex_number_of_digit(c: char)
    requires
        hex_digit(c) is Some,
    ensures
        hex_number(seq![c]) == hex_digit(c)->0,
{
    reveal_with_fuel(hex_number, 2);
    assert(seq![c].drop_last() =~= Seq::<char>::empty());
}

/// A word without a plus sign before it.
pub open spec fn digits_of(word: Seq<char>) -> Seq<char> {
    if word.len() > 0 && word[0] == '+' {
        word.skip(1)
    } else {
        word
    }
}

/// Whether a text is made of hexadecimal digits.
pub open spec fn is_number(digits: Seq<char>) -> bool {
    digits.len() > 0 && forall|i: int|
        0 <= i < digits.len() ==> hex_digit(#[trigger] digits[i]) is Some
}

/// A word is read as a number where it has digits, all of its characters are digits but for
/// a plus sign before them, and the number fits in 32 bits.
pub proof fn law_hex_value(word: Seq<char>)
    ensures
        hex_value(word) is Some <==> is_number(digits_of(word)) && hex_number(digits_of(word))
            <= u32::MAX,
        hex_value(word) matches Some(n) ==> n == hex_number(digits_of(word)),
{
    if is_number(digits_of(word)) {
        lemma_hex_not_negative(digits_of(word));
    }
}

proof fn lemma_hex_not_negative(s: Seq<char>)
    requires
        super::all_hex(s),
    ensures
        hex_number(s) >= 0,
    decreases s.len(),
{
    if s.len() > 0 {
        let less = s.drop_last();
        assert forall|i: int| 0 <= i < less.len() implies hex_digit(
            #[trigger] less[i],
        ) is Some by {
            assert(less[i] == s[i]);
        }
        lemma_hex_not_negative(less);
        assert(hex_digit(s[s.len() - 1]) is Some);
    }
}

// Words

/// The characters of a text that are not white space, in order.
pub open spec fn without_space(s: Seq<char>) -> Seq<char>
    decreases s.len(),
{
    if s.len() == 0 {
        Seq::empty()
    } else if white_space(s.last()) {
        without_space(s.drop_last())
    } else {
        without_space(s.drop_last()).push(s.last())
    }
}

/// The number of characters of a text that are not white space and have none just before
/// them that is not white space either.
pub open spec fn word_starts(s: Seq<char>) -> nat
    decreases s.len(),
{
    if s.len() == 0 {
        0
    } else {
        word_starts(s.drop_last()) + if !white_space(s.last()) && (s.len() == 1 || white_space(
            s[s.len() - 2],
        )) {
            1nat
        } else {
            0
        }
    }
}

/// Parts put one after the other.
pub open spec fn flat(parts: Seq<Seq<char>>) -> Seq<char>
    decreases parts.len(),
{
    if parts.len() == 0 {
        Seq::empty()
    } else {
        flat(parts.drop_last()) + parts.last()
    }
}

/// The words of a text are not empty, have no white space in them, and put one after the
/// other are the text without its white space. There is one for each place where
/// something starts that is not white space.
pub proof fn law_words(s: Seq<char>)
    ensures
        flat(words(s)) == without_space(s),
        words(s).len() == word_starts(s),
        forall|i: int| 0 <= i < words(s).len() ==> (#[trigger] words(s)[i]).len() > 0,
        forall|i: int, j: int|
            0 <= i < words(s).len() && 0 <= j < words(s)[i].len() ==> !white_space(
                #[trigger] words(s)[i][j],
            ),
        s.len() > 0 && !white_space(s.last()) ==> words(s).len() > 0,
    decreases s.len(),
{
    if s.len() > 0 {
        let less = s.drop_last();
        let known = words(less);
        law_words(less);
        if white_space(s.last()) {
        } else if s.len() >= 2 && !white_space(s[s.len() - 2]) {
            assert(less.last() == s[s.len() - 2]);
            let grown = known.last().push(s.last());
            let all = known.drop_last().push(grown);
            assert(words(s) == all);
            assert(all.drop_last() =~= known.drop_last());
            assert(flat(all) =~= flat(known).push(s.last()));
            assert forall|i: int, j: int| 0 <= i < all.len() && 0 <= j < all[i].len() implies
                !white_space(#[trigger] all[i][j]) by {
                if i < known.len() - 1 {
                    assert(all[i] == known[i]);
                    assert(!white_space(known[i][j]));
                } else if j < known.last().len() {
                    assert(all[i][j] == known[known.len() - 1][j]);
                }
            }
            assert forall|i: int| 0 <= i < all.len() implies (#[trigger] all[i]).len() > 0 by {
                if i < known.len() - 1 {
                    assert(all[i] == known[i]);
                }
            }
        } else {
            let all = known.push(seq![s.last()]);
            assert(words(s) == all);
            assert(all.drop_last() =~= known);
            assert(flat(all) =~= flat(known).push(s.last()));
            assert forall|i: int, j: int| 0 <= i < all.len() && 0 <= j < all[i].len() implies
                !white_space(#[trigger] all[i][j]) by {
                if i < known.len() {
                    assert(all[i] == known[i]);
                    assert(!white_space(known[i][j]));
                }
            }
        }
    }
}

/// What stands before the first occurrence of a character: it starts the text, does not have
/// the character, and the character follows it, or it is all of the text.
pub proof fn law_before(s: Seq<char>, c: char)
    ensures
        before(s, c).len() <= s.len(),
        before(s, c) == s.take(before(s, c).len() as int),
        !before(s, c).contains(c),
        before(s, c).len() < s.len() ==> s[before(s, c).len() as int] == c,
{
    s.index_of_first_ensures(c);
    match s.index_of_first(c) {
        Some(i) => {
            assert(before(s, c) =~= s.take(i));
            if before(s, c).contains(c) {
                let j = choose|j: int| 0 <= j < i && s.take(i)[j] == c;
                assert(s[j] == c);
            }
        },
        None => {
            assert(s.take(s.len() as int) =~= s);
        },
    }
}

// Lines

/// Lines put one after the other with a line feed between them.
pub open spec fn with_line_feeds(parts: Seq<Seq<char>>) -> Seq<char>
    decreases parts.len(),
{
    if parts.len() <= 1 {
        flat(parts)
    } else {
        with_line_feeds(parts.drop_last()).push('\n') + parts.last()
    }
}

/// The lines of a text have no line feed in them, and with one between each two of them they
/// are the text.
pub proof fn law_lines(text: Seq<char>)
    ensures
        lines(text).len() > 0,
        with_line_feeds(lines(text)) == text,
        forall|i: int, j: int|
            0 <= i < lines(text).len() && 0 <= j < lines(text)[i].len() ==> (
            #[trigger] lines(text)[i][j]) != '\n',
    decreases text.len(),
{
    reveal_with_fuel(flat, 2);
    if text.len() == 0 {
        let all = seq![Seq::<char>::empty()];
        assert(lines(text) == all);
        assert(all.drop_last() =~= Seq::empty());
        assert(with_line_feeds(all) =~= text);
    } else {
        let less = text.drop_last();
        let known = lines(less);
        law_lines(less);
        if text.last() == '\n' {
            let all = known.push(Seq::empty());
            assert(all.drop_last() =~= known);
            assert(with_line_feeds(all) =~= text);
            assert forall|i: int, j: int| 0 <= i < all.len() && 0 <= j < all[i].len() implies (
            #[trigger] all[i][j]) != '\n' by {
                if i < known.len() {
                    assert(all[i] == known[i]);
                    assert(known[i][j] != '\n');
                }
            }
        } else {
            let grown = known.last().push(text.last());
            let all = known.drop_last().push(grown);
            assert(all.drop_last() =~= known.drop_last());
            if known.len() == 1 {
                assert(known.drop_last() =~= Seq::empty());
                assert(flat(known) =~= known.last());
                assert(with_line_feeds(known) == flat(known));
                assert(less.push(text.last()) =~= text);
                assert(flat(all) =~= grown);
                assert(with_line_feeds(all) == flat(all));
                assert(with_line_feeds(all) =~= text);
            } else {
                let head = with_line_feeds(known.drop_last()).push('\n');
                assert(with_line_feeds(known) == head + known.last());
                assert(with_line_feeds(all) == head + grown);
                assert(less.push(text.last()) =~= text);
                assert(head + grown =~= (head + known.last()).push(text.last()));
            }
            assert forall|i: int, j: int| 0 <= i < all.len() && 0 <= j < all[i].len() implies (
            #[trigger] all[i][j]) != '\n' by {
                if i < known.len() - 1 {
                    assert(all[i] == known[i]);
                    assert(known[i][j] != '\n');
                } else if j < known.last().len() {
                    assert(all[i][j] == known[known.len() - 1][j]);
                }
            }
        }
    }
}

// Sequences and variations

/// Whether a word is the code of a character.
pub open spec fn is_code_of(word: Seq<char>, c: char) -> bool {
    hex_value(word) matches Some(code) && code == c as int && scalar_value(code)
}

/// The characters of a sequence are those whose codes its words give. There is no sequence
/// where a word is not a number, and an error where a number before it is not a code.
pub proof fn law_sequence(list: Seq<Seq<char>>, n: nat)
    requires
        n <= list.len(),
    ensures
        match sequence(list, n) {
            Ok(Some(chars)) => chars.len() == n && forall|i: int|
                0 <= i < n ==> is_code_of(list[i], #[trigger] chars[i]),
            Ok(None) => exists|i: int|
                0 <= i < n && hex_value(#[trigger] list[i]) is None && forall|j: int|
                    0 <= j < i ==> hex_value(#[trigger] list[j]) is Some && scalar_value(
                        hex_value(list[j])->0,
                    ),
            Err(e) => e == VariationError::NotAChar && exists|i: int|
                0 <= i < n && hex_value(#[trigger] list[i]) is Some && !scalar_value(
                    hex_value(list[i])->0,
                ) && forall|j: int|
                    0 <= j < i ==> hex_value(#[trigger] list[j]) is Some && scalar_value(
                        hex_value(list[j])->0,
                    ),
        },
    decreases n,
{
    if n > 0 {
        law_sequence(list, (n - 1) as nat);
        if let Ok(Some(chars)) = sequence(list, (n - 1) as nat) {
            assert forall|j: int| 0 <= j < n - 1 implies hex_value(#[trigger] list[j]) is Some
                && scalar_value(hex_value(list[j])->0) by {
                assert(is_code_of(list[j], chars[j]));
            }
            if let Some(code) = hex_value(list[n - 1]) {
                if scalar_value(code) {
                    assert(code as char as int == code);
                    let all = chars.push(code as char);
                    assert forall|i: int| 0 <= i < n implies is_code_of(
                        list[i],
                        #[trigger] all[i],
                    ) by {
                        if i < n - 1 {
                            assert(all[i] == chars[i]);
                        }
                    }
                }
            }
        }
    }
}

/// The variation of a line selects between how its first character is presented alone, as
/// emoji where it is in one of the ranges and else as text, and what the selector at its
/// end asks for.
pub proof fn law_variation(line: Seq<char>, emoji: Seq<(u32, u32)>)
    ensures
        line_variation(line, emoji) matches Ok(Some(v)) ==> {
            &&& v.sequence.len() == line_words(line).len()
            &&& v.sequence.len() > 0
            &&& v.selected is Emoji <==> v.sequence.last() as int == 0xfe0f
            &&& v.selected is Text <==> v.sequence.last() as int == 0xfe0e
            &&& v.alone is Emoji <==> exists|i: int|
                0 <= i < emoji.len() && (#[trigger] emoji[i]).0 <= v.sequence[0] as int
                    <= emoji[i].1
            &&& forall|i: int|
                0 <= i < v.sequence.len() ==> is_code_of(
                    line_words(line)[i],
                    #[trigger] v.sequence[i],
                )
        },
        line_variation(line, emoji) == Err::<Option<VariationModel>, _>(
            VariationError::NotASelector,
        ) ==> line_words(line).len() > 0,
        line_words(line).len() == 0 ==> line_variation(line, emoji) == Ok::<_, VariationError>(
            None::<VariationModel>,
        ),
{
    law_sequence(line_words(line), line_words(line).len());
}

/// The variations of some lines come before those of the lines after them, and an error in
/// one line is an error of them all.
pub proof fn law_variations_in_order(
    first: Seq<Seq<char>>,
    second: Seq<Seq<char>>,
    emoji: Seq<(u32, u32)>,
)
    ensures
        lines_variations(first + second, emoji) == match (
            lines_variations(first, emoji),
            lines_variations(second, emoji),
        ) {
            (Ok(a), Ok(b)) => Ok::<_, VariationError>(a + b),
            (Err(e), _) => Err(e),
            (Ok(_), Err(e)) => Err(e),
        },
    decreases second.len(),
{
    if second.len() == 0 {
        assert(first + second =~= first);
        if let Ok(a) = lines_variations(first, emoji) {
            assert(a + Seq::<VariationModel>::empty() =~= a);
        }
    } else {
        let less = second.drop_last();
        law_variations_in_order(first, less, emoji);
        assert((first + second).drop_last() =~= first + less);
        if let (Ok(a), Ok(b)) = (lines_variations(first, emoji), lines_variations(less, emoji)) {
            if let Ok(Some(v)) = line_variation(second.last(), emoji) {
                assert((a + b).push(v) =~= a + b.push(v));
            }
        }
    }
}

/// The variations of one line are the one that it defines, or none.
pub proof fn law_variations_of_line(line: Seq<char>, emoji: Seq<(u32, u32)>)
    ensures
        lines_variations(seq![line], emoji) == match line_variation(line, emoji) {
            Ok(Some(v)) => Ok::<_, VariationError>(seq![v]),
            Ok(None) => Ok(Seq::empty()),
            Err(e) => Err(e),
        },
{
    reveal_with_fuel(lines_variations, 2);
    assert(seq![line].drop_last() =~= Seq::<Seq<char>>::empty());
    assert(seq![line].last() == line);
    if let Ok(Some(v)) = line_variation(line, emoji) {
        assert(Seq::<VariationModel>::empty().push(v) =~= seq![v]);
    }
}

/// The source text of a variation names how its character is presented alone first, and how
/// it is selected to be after that.
pub proof fn law_variation_value(sequence: Seq<char>)
    ensures
        variation_value(
            VariationModel { sequence, alone: Presentation::Emoji, selected: Presentation::Text },
        ) == "(Presentation::Emoji, Presentation::Text)"@,
        variation_value(
            VariationModel { sequence, alone: Presentation::Text, selected: Presentation::Emoji },
        ) == "(Presentation::Text, Presentation::Emoji)"@,
        variation_value(
            VariationModel { sequence, alone: Presentation::Emoji, selected: Presentation::Emoji },
        ) == "(Presentation::Emoji, Presentation::Emoji)"@,
        variation_value(
            VariationModel { sequence, alone: Presentation::Text, selected: Presentation::Text },
        ) == "(Presentation::Text, Presentation::Text)"@,
{
    reveal_strlit("(Presentation::Emoji, Presentation::Text)");
    reveal_strlit("(Presentation::Text, Presentation::Emoji)");
    reveal_strlit("(Presentation::Emoji, Presentation::Emoji)");
    reveal_strlit("(Presentation::Text, Presentation::Text)");
    reveal_strlit("Presentation::Emoji");
    reveal_strlit("Presentation::Text");
    reveal_strlit("(");
    reveal_strlit(", ");
    reveal_strlit(")");
}

// Classes

/// The lines of some classes come before those of the classes after them.
pub proof fn law_class_lines(first: Seq<String>, second: Seq<String>)
    ensures
        class_lines(first + second) == class_lines(first) + class_lines(second),
    decreases second.len(),
{
    if second.len() == 0 {
        assert(first + second =~= first);
        assert(class_lines(first + second) =~= class_lines(first) + class_lines(second));
    } else {
        law_class_lines(first, second.drop_last());
        assert((first + second).drop_last() =~= first + second.drop_last());
        assert(class_lines(first + second) =~= class_lines(first) + class_lines(second));
    }
}

/// The line of one class holds its name between what makes it an entry of the table.
pub proof fn law_class_line(class: String)
    ensures
        class_lines(seq![class]) == "  WcWidth::"@ + class@ + ",\n"@,
{
    reveal_with_fuel(class_lines, 2);
    assert(seq![class].drop_last() =~= Seq::<String>::empty());
    assert(seq![class].last() == class);
    assert(class_lines(seq![class]) =~= "  WcWidth::"@ + class@ + ",\n"@);
}

// Source text

/// There is a map for the variations of a text unless a sequence occurs twice in it, or the
/// text is in error.
pub proof fn law_map_of_distinct(text: Seq<char>, emoji: Seq<(u32, u32)>)
    ensures
        match lines_variations(lines(text), emoji) {
            Ok(found) => variation_map(text, emoji) == Err::<Seq<char>, _>(
                VariationError::Duplicate,
            ) <==> exists|i: int, j: int|
                0 <= i < j < found.len() && (#[trigger] found[i]).sequence == (
                #[trigger] found[j]).sequence,
            Err(e) => variation_map(text, emoji) == Err::<Seq<char>, _>(e),
        },
        lines_variations(lines(text), emoji) matches Ok(found) ==> variation_map(text, emoji) is Ok
            || variation_map(text, emoji) == Err::<Seq<char>, _>(VariationError::Duplicate),
{
    if let Ok(found) = lines_variations(lines(text), emoji) {
        let entries = variation_entries(found);
        assert forall|i: int, j: int| 0 <= i < j < found.len() implies ((
        #[trigger] found[i]).sequence == (#[trigger] found[j]).sequence <==> entries[i].0
            == entries[j].0) by {}
        if exists|i: int, j: int|
            0 <= i < j < found.len() && (#[trigger] found[i]).sequence == (
            #[trigger] found[j]).sequence {
            let (i, j) = choose|i: int, j: int|
                0 <= i < j < found.len() && (#[trigger] found[i]).sequence == (
                #[trigger] found[j]).sequence;
            assert(entries[i].0 == entries[j].0);
        } else {
            assert forall|i: int, j: int| 0 <= i < j < entries.len() implies (
            #[trigger] entries[i]).0 != (#[trigger] entries[j]).0 by {
                assert(found[i].sequence != found[j].sequence);
            }
        }
    }
}

/// An entry of the map has the sequence for its key.
pub proof fn law_map_keys(variations: Seq<VariationModel>, i: int)
    requires
        0 <= i < variations.len(),
    ensures
        variation_entries(variations).len() == variations.len(),
        variation_entries(variations)[i].0 == variations[i].sequence,
        variation_entries(variations)[i].1 == variation_value(variations[i]),
{
}

// Fields

/// Only what stands before the first semicolon of a line is read for the sequence.
pub proof fn law_first_field(field: Seq<char>, rest: Seq<char>)
    requires
        !field.contains(';'),
        !field.contains('#'),
    ensures
        line_words(field + seq![';'] + rest) == words(field),
        line_words(field) == words(field),
{
    let line = field + seq![';'] + rest;
    let n = field.len() as int;
    let p = before(line, '#');
    law_before(line, '#');
    if p.len() <= n {
        let i = p.len() as int;
        assert(line[i] == '#');
        if i < n {
            assert(field[i] == '#');
        }
    }
    assert(p[n] == line[n]);
    let q = before(p, ';');
    law_before(p, ';');
    if q.len() > n {
        assert(q[n] == ';');
    }
    if q.len() < n {
        assert(p[q.len() as int] == ';');
        assert(field[q.len() as int] == ';');
    }
    assert(q =~= field);
    law_before(field, '#');
    assert(before(field, '#') =~= field) by {
        let b = before(field, '#');
        if b.len() < n {
            assert(field[b.len() as int] == '#');
        }
    }
    law_before(field, ';');
    assert(before(field, ';') =~= field) by {
        let b = before(field, ';');
        if b.len() < n {
            assert(field[b.len() as int] == ';');
        }
    }
}

} // verus!
