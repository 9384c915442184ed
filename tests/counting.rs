use wcr::{combine, count, format_field, format_line, is_white_space, Config, FileInfo};

fn record(lines: usize, words: usize, chars: usize, bytes: usize) -> FileInfo {
    FileInfo { line_count: lines, word_count: words, char_count: chars, byte_size: bytes }
}

#[test]
fn counts_sample_text() {
    let r = count("foo bar\nbaz\n");
    assert_eq!(r, record(2, 3, 12, 12));
}

#[test]
fn counts_empty_text() {
    assert_eq!(count(""), record(0, 0, 0, 0));
}

#[test]
fn unterminated_text_is_one_line() {
    assert_eq!(count("abc").line_count, 1);
    assert_eq!(count("abc def ghi").line_count, 1);
    assert_eq!(count(" ").line_count, 1);
}

#[test]
fn unterminated_last_line_counts() {
    assert_eq!(count("a\nb").line_count, 2);
    assert_eq!(count("\n\n").line_count, 2);
    assert_eq!(count("a\r\nb\r\n").line_count, 2);
}

#[test]
fn words_split_on_runs_of_white_space() {
    let text = "  a  b\t\nc  ";
    assert_eq!(count(text).word_count, 3);
    assert_eq!(count(text).word_count, text.split_whitespace().count());
    assert_eq!(count(" \t\n ").word_count, 0);
}

#[test]
fn unicode_white_space_separates_words() {
    let r = count("a\u{3000}b\u{a0}c");
    assert_eq!(r.word_count, 3);
    assert_eq!(r.char_count, 5);
    assert_eq!(r.byte_size, 1 + 3 + 1 + 2 + 1);
    assert!(is_white_space('\u{2028}'));
    assert!(!is_white_space('x'));
    assert!(!is_white_space('\u{200b}'));
}

#[test]
fn chars_and_bytes_differ_on_multibyte_text() {
    let r = count("h\u{e9}llo w\u{f6}rld\n");
    assert_eq!(r.char_count, 12);
    assert_eq!(r.byte_size, 14);
    assert_eq!(r.line_count, 1);
    assert_eq!(r.word_count, 2);
}

#[test]
fn combine_adds_fields() {
    let a = record(1, 2, 3, 4);
    let b = record(10, 20, 30, 40);
    assert_eq!(combine(a, b), record(11, 22, 33, 44));
}

#[test]
fn combine_is_associative_and_commutative() {
    let a = record(1, 2, 3, 4);
    let b = record(5, 0, 7, 9);
    let c = record(100, 200, 300, 400);
    assert_eq!(combine(combine(a, b), c), combine(a, combine(b, c)));
    assert_eq!(combine(a, b), combine(b, a));
}

#[test]
fn combine_with_zero_is_unchanged() {
    let a = record(3, 1, 4, 1);
    assert_eq!(combine(a, FileInfo::zero()), a);
    assert_eq!(combine(FileInfo::zero(), a), a);
}

#[test]
fn combine_stays_at_the_largest_value() {
    let a = record(usize::MAX, 1, 0, usize::MAX - 1);
    let b = record(1, 1, 0, 5);
    assert_eq!(combine(a, b), record(usize::MAX, 2, 0, usize::MAX));
}

#[test]
fn add_assign_accumulates() {
    let mut total = FileInfo::zero();
    total.add_assign(record(1, 2, 3, 4));
    total.add_assign(record(1, 1, 1, 1));
    assert_eq!(total, record(2, 3, 4, 5));
}

#[test]
fn hidden_field_is_empty() {
    assert_eq!(format_field(0, false), "");
    assert_eq!(format_field(12345, false), "");
    assert_eq!(format_field(usize::MAX, false), "");
}

#[test]
fn zero_field_is_padded() {
    assert_eq!(format_field(0, true), "       0");
}

#[test]
fn fields_are_right_aligned() {
    assert_eq!(format_field(42, true), "      42");
    assert_eq!(format_field(12345678, true), "12345678");
    assert_eq!(format_field(123456789, true), "123456789");
    assert_eq!(format_field(usize::MAX, true), usize::MAX.to_string());
}

#[test]
fn line_shows_chosen_fields_in_order() {
    let config = Config::new(vec!["f".to_string()], true, false, false, true);
    let line = format_line(&record(1, 2, 3, 4), &config, " f");
    assert_eq!(line, "       1       3 f");
    let all = Config { files: vec![], lines: true, words: true, bytes: true, chars: true };
    assert_eq!(format_line(&record(1, 2, 3, 4), &all, ""), "       1       2       4       3");
}

#[test]
fn no_flags_means_lines_words_bytes() {
    let config = Config::new(vec!["-".to_string()], false, false, false, false);
    assert!(config.lines && config.words && config.bytes);
    assert!(!config.chars);
}

#[test]
fn chosen_flags_are_kept() {
    let config = Config::new(vec!["-".to_string()], false, false, false, true);
    assert!(!config.lines && !config.words && !config.bytes);
    assert!(config.chars);
    assert_eq!(config.files, vec!["-".to_string()]);
}

#[test]
fn white_space_matches_char_is_whitespace() {
    for u in 0u32..0x3100 {
        if let Some(c) = char::from_u32(u) {
            assert_eq!(is_white_space(c), c.is_whitespace(), "U+{:04X}", u);
        }
    }
    assert_eq!(is_white_space('\u{feff}'), '\u{feff}'.is_whitespace());
}

#[test]
fn line_count_matches_str_lines() {
    for text in ["", "a", "\n", "a\n", "a\nb", "\r", "a\r\n\r\n", "\n\nx", "x\n\n", "  \n "] {
        assert_eq!(count(text).line_count, text.lines().count(), "{:?}", text);
    }
}
