use wezterm::attributes::{CellAttributes, Hyperlink, Intensity};
use wezterm::cell::Cell;
use wezterm::hyperlink::{find_target, pair_links, Rule};
use wezterm::input::{LastMouseClick, MouseButton};
use wezterm::line::Line;
use wezterm::range::{in_range, intersects_range, intersects_rows};
use wezterm::screen::Screen;
use wezterm::selection::{SelectionCoordinate, SelectionRange};
use wezterm::text::{push_decimal, push_signed_decimal, trimmed_end_len};

fn line(text: &str) -> Line {
    let mut line = Line::with_width(text.chars().count());
    for (x, c) in text.chars().enumerate() {
        line.set_cell(x, Cell::new(c, CellAttributes::default()));
    }
    line
}

fn screen(rows: &[&str], scrollback: usize) -> Screen {
    let mut screen = Screen::new(rows.len(), rows[0].len(), scrollback);
    for (y, row) in rows.iter().enumerate() {
        for (x, c) in row.chars().enumerate() {
            screen.set_cell(x, y as i64, c, &CellAttributes::default());
        }
    }
    screen
}

fn rows(screen: &Screen) -> Vec<String> {
    screen.lines.iter().map(|l| l.as_str()).collect()
}

fn at(x: usize, y: i64) -> SelectionCoordinate {
    SelectionCoordinate { x, y }
}

#[test]
fn lines_that_scroll_off_the_top_are_kept() {
    let mut s = screen(&["aa", "bb", "cc"], 2);
    s.scroll_up(&(0..3), 1);
    assert_eq!(rows(&s), vec!["aa", "bb", "cc", "  "]);
    s.scroll_up(&(0..3), 2);
    assert_eq!(rows(&s), vec!["bb", "cc", "  ", "  ", "  "]);
}

#[test]
fn lines_that_scroll_out_of_a_lower_region_are_gone() {
    let mut s = screen(&["aa", "bb", "cc", "dd"], 5);
    s.scroll_up(&(1..3), 1);
    assert_eq!(rows(&s), vec!["aa", "cc", "  ", "dd"]);
}

#[test]
fn scrolling_further_than_the_region_empties_it() {
    let mut s = screen(&["aa", "bb", "cc", "dd"], 0);
    s.scroll_up(&(1..3), 100);
    assert_eq!(rows(&s), vec!["aa", "  ", "  ", "dd"]);
}

#[test]
fn scrolling_down_brings_blank_lines() {
    let mut s = screen(&["aa", "bb", "cc", "dd"], 5);
    s.scroll_down(&(0..3), 2);
    assert_eq!(rows(&s), vec!["  ", "  ", "aa", "dd"]);
}

#[test]
fn a_screen_that_grows_gets_rows_at_the_bottom() {
    let mut s = screen(&["aa", "bb"], 3);
    s.resize(3, 4);
    assert_eq!(rows(&s), vec!["aa  ", "bb  ", "    "]);
    s.resize(1, 1);
    assert_eq!(rows(&s), vec!["a", "b", " "]);
}

#[test]
fn cells_are_taken_out_and_put_in() {
    let mut s = screen(&["abcdef"], 0);
    s.erase_cells(1, 0, 2);
    assert_eq!(rows(&s), vec!["adef  "]);
    s.insert_cells(1, 0, 2);
    assert_eq!(rows(&s), vec!["a  def"]);
    s.insert_cells(3, 0, 3);
    assert_eq!(rows(&s), vec!["a     "]);
}

#[test]
fn rows_off_the_screen_are_left_alone() {
    let mut s = screen(&["ab"], 0);
    s.set_cell(0, 5, 'x', &CellAttributes::default());
    s.erase_cells(0, -1, 1);
    assert_eq!(rows(&s), vec!["ab"]);
}

#[test]
fn inserted_blanks_can_be_taken_out_again() {
    let mut l = line("abc");
    l.insert_cell(1, 5);
    l.insert_cell(1, 5);
    assert_eq!(l.as_str(), "a  bc");
    l.erase_cell(1);
    l.erase_cell(1);
    assert_eq!(l.as_str(), "abc  ");
}

#[test]
fn a_line_is_dirty_until_it_is_cleaned() {
    let mut l = line("a");
    assert!(l.is_dirty());
    l.set_clean();
    assert!(!l.is_dirty());
    l.set_dirty();
    assert!(l.is_dirty());
}

#[test]
fn columns_beyond_the_line_are_left_out() {
    let l = line("hello");
    assert_eq!(l.columns_as_chars(1, 3), vec!['e', 'l']);
    assert_eq!(l.columns_as_chars(3, 100), vec!['l', 'o']);
    assert!(l.columns_as_chars(7, 9).is_empty());
}

#[test]
fn links_are_found_in_the_text() {
    let rules = vec![Rule {
        pattern: r"T(\d+)".to_string(),
        format: "https://t/$1".to_string(),
    }];
    assert_eq!(
        Rule::match_hyperlinks("see T12 and T3", &rules),
        vec![
            (4, 7, "https://t/12".to_string()),
            (12, 14, "https://t/3".to_string())
        ]
    );
    let mut l = line("see T12.");
    assert!(!l.has_hyperlink());
    l.find_hyperlinks(&rules);
    assert!(l.has_hyperlink());
    let link = Some(Hyperlink {
        uri: "https://t/12".to_string(),
        implicit: true,
    });
    assert_eq!(l.cells[3].attrs.hyperlink, None);
    assert_eq!(l.cells[4].attrs.hyperlink, link);
    assert_eq!(l.cells[6].attrs.hyperlink, link);
    assert_eq!(l.cells[7].attrs.hyperlink, None);
    let mut again = line("see T12.");
    again.find_hyperlinks(&rules);
    again.find_hyperlinks(&rules);
    assert_eq!(again, l);
}

#[test]
fn links_are_found_after_wide_characters() {
    let rules = vec![Rule {
        pattern: "bug".to_string(),
        format: "$0".to_string(),
    }];
    let mut l = line("\u{e9}\u{4e16}bug");
    l.find_hyperlinks(&rules);
    assert_eq!(l.cells[1].attrs.hyperlink, None);
    assert!(l.cells[2].attrs.hyperlink.is_some());
    assert!(l.cells[4].attrs.hyperlink.is_some());
}

#[test]
fn a_pattern_that_is_not_one_matches_nothing() {
    let rules = vec![Rule {
        pattern: "(".to_string(),
        format: String::new(),
    }];
    assert!(Rule::match_hyperlinks("((((", &rules).is_empty());
}

#[test]
fn each_match_expands_its_own_groups() {
    let rules = vec![
        Rule {
            pattern: r"\b(?P<key>[a-z])=(\d)".to_string(),
            format: "$2-$key".to_string(),
        },
        Rule {
            pattern: "x*".to_string(),
            format: "<$0>".to_string(),
        },
    ];
    assert_eq!(
        Rule::match_hyperlinks("a=1 b=2", &rules[..1].iter().map(copy).collect()),
        vec![(0, 3, "1-a".to_string()), (4, 7, "2-b".to_string())]
    );
    assert_eq!(
        Rule::match_hyperlinks("xx\u{e9}x", &rules[1..].iter().map(copy).collect()),
        vec![
            (0, 2, "<xx>".to_string()),
            (4, 5, "<x>".to_string()),
        ]
    );
}

fn copy(rule: &Rule) -> Rule {
    Rule {
        pattern: rule.pattern.clone(),
        format: rule.format.clone(),
    }
}

#[test]
fn matches_without_a_target_are_no_links() {
    let targets = vec![Some("a".to_string()), None, Some("c".to_string())];
    assert_eq!(
        pair_links(&vec![(0, 1), (2, 3), (4, 6)], &targets),
        vec![(0, 1, "a".to_string()), (4, 6, "c".to_string())]
    );
}

#[test]
fn the_first_link_at_an_offset_counts() {
    let links = vec![(0, 4, "a".to_string()), (2, 6, "b".to_string())];
    assert_eq!(find_target(&links, 3), Some("a".to_string()));
    assert_eq!(find_target(&links, 5), Some("b".to_string()));
    assert_eq!(find_target(&links, 6), None);
}

#[test]
fn a_selection_is_the_same_in_either_direction() {
    let down = SelectionRange::start(at(3, 1)).extend(at(5, 2));
    let up = SelectionRange::start(at(5, 2)).extend(at(3, 1));
    for range in [down, up] {
        assert_eq!(range.rows(), 1..3);
        assert_eq!(range.cols_for_row(0), 0..0);
        assert_eq!(range.cols_for_row(1), 3..usize::MAX);
        assert_eq!(range.cols_for_row(2), 0..6);
        assert_eq!(range.cols_for_row(3), 0..0);
    }
    let left = SelectionRange::start(at(5, 0)).extend(at(3, 0));
    assert_eq!(left.cols_for_row(0), 3..6);
    assert_eq!(up.normalize(), down);
}

#[test]
fn clicks_in_quick_succession_count_together() {
    let once = LastMouseClick::new(MouseButton::Left, 1000);
    assert_eq!(once.streak, 1);
    let twice = once.add(MouseButton::Left, 1500);
    assert_eq!(twice.streak, 2);
    assert_eq!(twice.add(MouseButton::Left, 2001).streak, 1);
    assert_eq!(twice.add(MouseButton::Right, 1600).streak, 1);
}

#[test]
fn ranges() {
    assert!(in_range(0, &(0..2)));
    assert!(!in_range(2, &(0..2)));
    assert!(intersects_range(&(0..3), &(2..5)));
    assert!(!intersects_range(&(0..2), &(2..5)));
    assert!(intersects_rows(&(-4..0), &(-1..1)));
    assert!(!intersects_rows(&(-4..-1), &(-1..1)));
}

#[test]
fn numbers_in_decimal() {
    let mut s = String::new();
    push_decimal(&mut s, 0);
    push_decimal(&mut s, 907);
    push_signed_decimal(&mut s, -12);
    push_signed_decimal(&mut s, i64::MIN);
    assert_eq!(s, "0907-12-9223372036854775808");
}

#[test]
fn white_space_at_the_end_is_trimmed() {
    for text in ["", "a", " a ", "a\t\u{a0}\u{3000}", "  "] {
        let chars: Vec<char> = text.chars().collect();
        assert_eq!(trimmed_end_len(&chars), text.trim_end().chars().count());
    }
}

#[test]
fn the_width_of_cells() {
    let width = |c: char| Cell::new(c, CellAttributes::default()).width();
    assert_eq!(width('a'), 1);
    assert_eq!(width('\u{4e16}'), 2);
    assert_eq!(width('\0'), 0);
    assert_eq!(width('\u{301}'), 0);
}

#[test]
fn attributes_without_the_link() {
    let mut attrs = CellAttributes::default();
    attrs.rendition.intensity = Intensity::Bold;
    attrs.hyperlink = Some(Hyperlink {
        uri: "x".to_string(),
        implicit: false,
    });
    let plain = attrs.clone_sgr_only();
    assert_eq!(plain.rendition, attrs.rendition);
    assert_eq!(plain.hyperlink, None);
    assert_eq!(attrs.duplicate(), attrs);
}
