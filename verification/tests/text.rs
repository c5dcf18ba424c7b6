use agman_tui::cells::{
    active_count_style, can_truncate, dim_count_style, len_in_bytes, pad_left, pad_right,
    push_project_blank_cell, push_project_count_cell, truncate_to_width, truncate_with_ellipsis,
};
use agman_tui::highlight::{highlight_segments, segments_of};
use agman_tui::order::{comes_before, sort_by_name};
use agman_tui::picker::join_path;
use agman_tui::select::{clamp, step_next, step_previous, wrap_next, wrap_previous};
use agman_tui::table::{contains_string, insert_string, remove_string, Table};
use agman_tui::text::{
    contains_text, ends_with, join_strings, number, repeat_char, split_lines, split_string,
    split_words, starts_with, trim,
};
use agman_tui::times::{
    describe_moment, format_time_ago, nanos_since, relative_time, time_since_datetime,
};

fn strings(items: &[&str]) -> Vec<String> {
    items.iter().map(|item| item.to_string()).collect()
}

fn marks(pieces: Vec<(String, bool)>) -> Vec<String> {
    pieces
        .into_iter()
        .map(|(text, hit)| if hit { format!("[{text}]") } else { text })
        .collect()
}

const DAY: i64 = 86_400_000_000_000;
const HOUR: i64 = 3_600_000_000_000;
const MINUTE: i64 = 60_000_000_000;
const SECOND: i64 = 1_000_000_000;

#[test]
fn splitting_and_joining_lead_back() {
    let pieces = split_string("a,,b", ',');
    assert_eq!(pieces, strings(&["a", "", "b"]));
    assert_eq!(join_strings(&pieces, ','), "a,,b");
    assert_eq!(split_string("", ','), strings(&[""]));
}

#[test]
fn lines_end_at_line_breaks() {
    assert_eq!(split_lines("one\r\ntwo\n\nthree"), strings(&["one", "two", "", "three"]));
    assert_eq!(split_lines("end\n"), strings(&["end"]));
    assert!(split_lines("").is_empty());
}

#[test]
fn white_space_is_found_in_unicode() {
    assert_eq!(trim("\u{3000} word\t\n"), "word");
    assert_eq!(trim("   "), "");
    assert_eq!(split_words("  two\u{00a0}words \n here "), strings(&["two", "words", "here"]));
}

#[test]
fn texts_are_found() {
    assert!(contains_text("hello world", "o w"));
    assert!(!contains_text("hello", "world"));
    assert!(contains_text("anything", ""));
    assert!(starts_with("hello", "he"));
    assert!(!starts_with("hello", "lo"));
    assert!(ends_with("hello", "lo"));
    assert_eq!(number(0), "0");
    assert_eq!(number(18_446_744_073_709_551_615), "18446744073709551615");
    assert_eq!(repeat_char('─', 3), "───");
}

#[test]
fn short_text_is_not_truncated() {
    assert_eq!(truncate_with_ellipsis("abc", 3), "abc");
    assert_eq!(truncate_with_ellipsis("abcd", 3), "ab…");
    assert_eq!(truncate_with_ellipsis("abcd", 0), "");
    assert_eq!(truncate_with_ellipsis("", 5), "");
}

#[test]
fn width_in_bytes_counts_every_byte() {
    assert_eq!(len_in_bytes("é"), 2);
    assert_eq!(truncate_to_width("abcd", 4), "abcd");
    assert_eq!(truncate_to_width("abcde", 4), "abc…");
    assert_eq!(truncate_to_width("abc", 0), "");
    assert_eq!(truncate_to_width("aéb", 4), "aéb");
    assert_eq!(truncate_to_width("aébc", 4), "aé…");
    assert!(can_truncate("aébc", 4));
    assert!(!can_truncate("aébc", 3));
}

#[test]
fn padding_goes_to_either_side() {
    assert_eq!(pad_right("é", 3), "é  ");
    assert_eq!(pad_left("7", 5), "    7");
    assert_eq!(pad_right("long", 2), "long");
    assert_eq!(pad_left("long", 2), "long");
}

#[test]
fn full_count_cells_are_not_padded() {
    let mut spans = Vec::new();
    push_project_count_cell(&mut spans, 123, 4567, 8);
    let texts: Vec<&str> = spans.iter().map(|s| s.content.as_str()).collect();
    assert_eq!(texts, vec!["123", "/4567"]);
    assert_eq!(spans[0].style, active_count_style(123));

    let mut spans = Vec::new();
    push_project_blank_cell(&mut spans, 4);
    assert_eq!(spans[0].content, "    ");
    assert_eq!(spans[0].style, dim_count_style());
}

#[test]
fn matches_stand_apart() {
    assert_eq!(
        marks(highlight_segments("Fix the Fixture", &strings(&["fix"]))),
        strings(&["[Fix]", " the ", "[Fix]", "ture"])
    );
    assert_eq!(
        marks(highlight_segments("abcdef", &strings(&["abc", "cd"]))),
        strings(&["[abcd]", "ef"])
    );
    assert_eq!(
        marks(highlight_segments("abcd", &strings(&["ab", "cd"]))),
        strings(&["[abcd]"])
    );
    assert_eq!(
        marks(highlight_segments("ÄRGER", &strings(&["rg"]))),
        strings(&["Ä", "[RG]", "ER"])
    );
}

#[test]
fn nothing_stands_apart_without_terms() {
    assert_eq!(marks(highlight_segments("text", &Vec::new())), strings(&["text"]));
    assert_eq!(marks(highlight_segments("", &strings(&["a"]))), strings(&[""]));
    assert_eq!(marks(highlight_segments("text", &strings(&[""]))), strings(&["text"]));
    assert_eq!(marks(highlight_segments("text", &strings(&["z"]))), strings(&["text"]));
}

#[test]
fn matches_end_with_the_text() {
    // The lower case of the first letter has two characters.
    assert_eq!(
        marks(highlight_segments("\u{130}x", &strings(&["x"]))),
        strings(&["\u{130}", "[x]"])
    );
    assert_eq!(
        marks(highlight_segments("\u{130}a", &strings(&["a"]))),
        strings(&["\u{130}", "[a]"])
    );
    assert_eq!(
        marks(highlight_segments("\u{130}abc", &strings(&["a"]))),
        strings(&["\u{130}", "[a]", "bc"])
    );
    assert_eq!(
        marks(segments_of("AB", "ab", &strings(&["a", "b"]), &strings(&["b"]))),
        strings(&["A", "[B]"])
    );
}

#[test]
fn letters_are_marked_by_any_part_of_their_lower_case() {
    assert_eq!(
        marks(highlight_segments("\u{130}a", &strings(&["i"]))),
        strings(&["[\u{130}]", "a"])
    );
    assert_eq!(
        marks(highlight_segments("x\u{130}a", &strings(&["\u{307}a"]))),
        strings(&["x", "[\u{130}a]"])
    );
    assert_eq!(
        marks(segments_of(
            "\u{130}a",
            "i\u{307}a",
            &strings(&["i\u{307}", "a"]),
            &strings(&["a"])
        )),
        strings(&["\u{130}", "[a]"])
    );
}

#[test]
fn a_sigma_is_found_in_either_form() {
    assert_eq!(
        marks(highlight_segments("ΟΔΟΣ Σ", &strings(&["οδος"]))),
        strings(&["[ΟΔΟΣ]", " Σ"])
    );
    assert_eq!(
        marks(highlight_segments("ΟΔΟΣ ΣΟ", &strings(&["σ"]))),
        strings(&["ΟΔΟΣ ", "[Σ]", "Ο"])
    );
}

#[test]
fn no_letter_moves_the_mark_behind_it() {
    for c in (0..0x20000u32).filter_map(char::from_u32) {
        if c == 'x' || c == 'X' {
            continue;
        }
        assert_eq!(
            highlight_segments(&format!("{c}X"), &strings(&["x"])),
            vec![(c.to_string(), false), ("X".to_string(), true)]
        );
    }
}

#[test]
fn white_space_is_taken_off() {
    let listed = |c: u32| {
        matches!(
            c,
            0x9..=0xd
                | 0x20
                | 0x85
                | 0xa0
                | 0x1680
                | 0x2000..=0x200a
                | 0x2028
                | 0x2029
                | 0x202f
                | 0x205f
                | 0x3000
        )
    };
    for c in (0..=0x10ffffu32).filter_map(char::from_u32) {
        assert_eq!(trim(&c.to_string()).is_empty(), listed(c as u32));
    }
}

#[test]
fn times_are_told_in_the_largest_unit() {
    let now = 1_700_000_000 * SECOND;
    assert_eq!(time_since_datetime(now - 3 * DAY - HOUR, now), "3d ago");
    assert_eq!(time_since_datetime(now - 2 * HOUR, now), "2h ago");
    assert_eq!(time_since_datetime(now - 59 * MINUTE, now), "59m ago");
    assert_eq!(time_since_datetime(now - 59 * SECOND, now), "just now");
    assert_eq!(time_since_datetime(now + DAY, now), "just now");
    assert_eq!(format_time_ago(now - DAY, now), "1d ago");
    assert_eq!(format_time_ago(now - HOUR, now), "1h ago");
    assert_eq!(format_time_ago(now - 5 * MINUTE, now), "5m ago");
    assert_eq!(format_time_ago(now, now), "1m ago");
}

#[test]
fn moments_are_parsed_with_their_offset() {
    let now = 1_700_000_000 * SECOND;
    assert_eq!(relative_time("2023-11-14T22:13:20Z", now), "just now");
    assert_eq!(relative_time("2023-11-14T22:13:20+02:00", now), "2h ago");
    assert_eq!(relative_time("2023-11-04T22:13:20Z", now), "10d ago");
    assert_eq!(relative_time("yesterday", now), "");
    assert_eq!(describe_moment(None, now), "");
    assert_eq!(describe_moment(Some((1_700_000_000 - 120, 0)), now), "2m ago");
}

#[test]
fn leap_seconds_count_once_over() {
    let now = 10 * SECOND;
    assert_eq!(nanos_since((9, 0), now), SECOND as i128);
    assert_eq!(nanos_since((9, 1_500_000_000), now), 500_000_000);
    assert_eq!(nanos_since((9, 500_000_000), now), 500_000_000);
}

#[test]
fn names_come_in_order() {
    assert!(comes_before("a", "b"));
    assert!(comes_before("a", "aa"));
    assert!(!comes_before("b", "aa"));
    assert!(!comes_before("a", "a"));
    let sorted = sort_by_name(vec![
        ("beta".to_string(), 1),
        ("alpha".to_string(), 2),
        ("beta".to_string(), 3),
        ("Zeta".to_string(), 4),
    ]);
    let order: Vec<i32> = sorted.iter().map(|(_, n)| *n).collect();
    assert_eq!(order, vec![4, 2, 1, 3]);
}

#[test]
fn selections_go_round_or_stop() {
    assert_eq!(wrap_next(2, 3), 0);
    assert_eq!(wrap_previous(0, 3), 2);
    assert_eq!(wrap_previous(wrap_next(1, 3), 3), 1);
    assert_eq!(wrap_next(0, 0), 0);
    assert_eq!(step_next(2, 3), 2);
    assert_eq!(step_next(1, 3), 2);
    assert_eq!(step_previous(0), 0);
    assert_eq!(clamp(9, 3), 2);
    assert_eq!(clamp(9, 0), 9);
}

#[test]
fn tables_hold_one_value_for_a_key() {
    let mut table = Table::new();
    table.insert("a".to_string(), 1);
    table.insert("b".to_string(), 2);
    table.insert("a".to_string(), 3);
    assert_eq!(table.get("a"), Some(&3));
    assert_eq!(table.get("c"), None);
    assert!(table.contains_key("b"));
    table.remove("b");
    assert!(!table.contains_key("b"));

    let mut set = Vec::new();
    assert!(insert_string(&mut set, "x".to_string()));
    assert!(!insert_string(&mut set, "x".to_string()));
    assert!(contains_string(&set, "x"));
    remove_string(&mut set, "x");
    assert!(!contains_string(&set, "x"));
}

#[test]
fn paths_are_joined_with_one_separator() {
    assert_eq!(join_path("/home/user", "repo"), "/home/user/repo");
    assert_eq!(join_path("/home/user/", "repo"), "/home/user/repo");
}
