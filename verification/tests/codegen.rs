use wezterm::codegen::{
    emit_classify_table, emit_variation_map, parse_hex, parse_line, parse_variations, split_words,
    write_variation_map, Presentation, Variation, VariationError,
};

fn chars(s: &str) -> Vec<char> {
    s.chars().collect()
}

fn hex(s: &str) -> Option<u32> {
    parse_hex(&chars(s))
}

#[test]
fn hexadecimal_numbers() {
    assert_eq!(hex("0"), Some(0));
    assert_eq!(hex("1F600"), Some(0x1f600));
    assert_eq!(hex("1f600"), Some(0x1f600));
    assert_eq!(hex("+aB"), Some(0xab));
    assert_eq!(hex("ffffffff"), Some(u32::MAX));
    assert_eq!(hex("00000000001"), Some(1));
    assert_eq!(hex("100000000"), None);
    assert_eq!(hex("fffffffff"), None);
    assert_eq!(hex(""), None);
    assert_eq!(hex("+"), None);
    assert_eq!(hex("++1"), None);
    assert_eq!(hex("-1"), None);
    assert_eq!(hex("12g4"), None);
}

#[test]
fn hexadecimal_numbers_are_those_of_std() {
    for word in ["7f", "+10", "-1", "+", "", "FFFFFFFF", "1FFFFFFFF", "0x1", "e9", "1 2"] {
        assert_eq!(hex(word), u32::from_str_radix(word, 16).ok(), "{}", word);
    }
}

#[test]
fn words_stand_between_white_space() {
    for text in ["", "  ", "a", " ab  c\t", "a\u{2003}b\r", "\u{3000}x"] {
        let expected: Vec<Vec<char>> = text.split_whitespace().map(chars).collect();
        assert_eq!(split_words(&chars(text)), expected, "{:?}", text);
    }
}

#[test]
fn a_line_defines_a_variation() {
    let emoji = vec![(0x231a, 0x231b)];
    let text = parse_line(&chars("0023 FE0E  ; text style;  # (1.1) NUMBER SIGN"), &emoji);
    assert_eq!(
        text,
        Ok(Some(Variation {
            sequence: vec!['#', '\u{fe0e}'],
            alone: Presentation::Text,
            selected: Presentation::Text,
        }))
    );
    let watch = parse_line(&chars("231A FE0F  ; emoji style; # WATCH"), &emoji);
    assert_eq!(
        watch,
        Ok(Some(Variation {
            sequence: vec!['\u{231a}', '\u{fe0f}'],
            alone: Presentation::Emoji,
            selected: Presentation::Emoji,
        }))
    );
}

#[test]
fn lines_that_define_nothing() {
    let emoji = Vec::new();
    for line in ["", "# a comment", "   ", "; 0023 FE0E", "0023 oops FE0E", "oops D800", "-23 FE0F"] {
        assert_eq!(parse_line(&chars(line), &emoji), Ok(None), "{:?}", line);
    }
}

#[test]
fn a_number_that_is_no_character_is_an_error() {
    let emoji = Vec::new();
    for line in ["D800 FE0F", "0023 110000 FE0F", "DFFF oops"] {
        assert_eq!(
            parse_line(&chars(line), &emoji),
            Err(VariationError::NotAChar),
            "{:?}",
            line
        );
    }
}

#[test]
fn a_sequence_without_a_selector_is_an_error() {
    let emoji = Vec::new();
    assert_eq!(
        parse_line(&chars("0023 0024 ; x"), &emoji),
        Err(VariationError::NotASelector)
    );
    let text = "# head\n0023 FE0E ; a\n0041 ; b\nD800 ; c\n";
    assert_eq!(
        parse_variations(text, &emoji),
        Err(VariationError::NotASelector)
    );
}

const SEQUENCES: &str = "# emoji-variation-sequences\n\
    \n\
    0023 FE0E  ; text style;  # (1.1) NUMBER SIGN\r\n\
    0023 FE0F  ; emoji style; # (1.1) NUMBER SIGN\r\n\
    231A FE0E  ; text style;  # (1.1) WATCH\n\
    231A FE0F  ; emoji style; # (1.1) WATCH";

#[test]
fn variations_come_in_the_order_of_the_lines() {
    let found = parse_variations(SEQUENCES, &vec![(0x231a, 0x231b)]).unwrap();
    let sequences: Vec<String> = found.iter().map(|v| v.sequence.iter().collect()).collect();
    assert_eq!(
        sequences,
        vec!["#\u{fe0e}", "#\u{fe0f}", "\u{231a}\u{fe0e}", "\u{231a}\u{fe0f}"]
    );
    assert_eq!(found[0].alone, Presentation::Text);
    assert_eq!(found[1].selected, Presentation::Emoji);
    assert_eq!(found[3].alone, Presentation::Emoji);
}

#[test]
fn the_map_holds_every_variation() {
    let source = emit_variation_map(SEQUENCES, &vec![(0x231a, 0x231b)]).unwrap();
    assert!(source.starts_with(
        "use crate::emoji::Presentation;\n\n\
         pub static VARIATION_MAP: phf::Map<&'static str, (Presentation, Presentation)> = \n\
         ::phf::Map {\n    key: "
    ));
    assert!(source.ends_with("    ],\n};\n\n"));
    for entry in [
        "(\"#\\u{fe0e}\", (Presentation::Text, Presentation::Text)),",
        "(\"#\\u{fe0f}\", (Presentation::Text, Presentation::Emoji)),",
        "(\"\u{231a}\\u{fe0e}\", (Presentation::Emoji, Presentation::Text)),",
        "(\"\u{231a}\\u{fe0f}\", (Presentation::Emoji, Presentation::Emoji)),",
    ] {
        assert_eq!(source.matches(entry).count(), 1, "{} in {}", entry, source);
    }
}

#[test]
fn the_map_is_what_the_builder_makes_of_the_entries() {
    let mut map = phf_codegen::Map::new();
    map.entry("#\u{fe0e}".to_string(), "(Presentation::Text, Presentation::Text)");
    let built = format!("{}", map.build());
    assert_eq!(
        emit_variation_map("23 FE0E", &Vec::new()),
        Ok(write_variation_map(&built))
    );
}

#[test]
fn a_text_without_variations_gives_an_empty_map() {
    let source = emit_variation_map("# nothing\n", &Vec::new()).unwrap();
    assert!(source.contains("entries: &[\n    ],"));
}

#[test]
fn a_sequence_that_occurs_twice_is_an_error() {
    let text = "0023 FE0E ; a\n0024 FE0E ; b\n23 FE0E ; c\n";
    assert_eq!(
        emit_variation_map(text, &Vec::new()),
        Err(VariationError::Duplicate)
    );
}

#[test]
fn the_source_around_the_map() {
    assert_eq!(
        write_variation_map("MAP"),
        "use crate::emoji::Presentation;\n\npub static VARIATION_MAP: phf::Map<&'static str, \
         (Presentation, Presentation)> = \nMAP;\n\n"
    );
}

#[test]
fn the_table_has_a_line_for_each_class() {
    let table = emit_classify_table(&vec!["One".to_string(), "NonPrint".to_string()]);
    assert_eq!(
        table,
        "use crate::widechar_width::{WcLookupTable, WcWidth};\n\n\
         pub const WCWIDTH_TABLE: WcLookupTable = WcLookupTable {\n  table: [\n  \
         WcWidth::One,\n  WcWidth::NonPrint,\n]};\n"
    );
}
