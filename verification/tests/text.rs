use scribe_client::text::{
    ascii_lower_char, chars_of, contains, eq_ascii_case, find_char, is_control_char,
    is_white_space, join_with, lines_of, parse_number, push_decimal, split_on, string_of, trimmed,
    trimmed_end, trimmed_start,
};

fn every_char() -> impl Iterator<Item = char> {
    (0..=0x10ffffu32).filter_map(char::from_u32)
}

#[test]
fn white_space_and_controls_are_those_of_std() {
    for c in every_char() {
        assert_eq!(is_white_space(c), c.is_whitespace(), "U+{:04X}", c as u32);
        assert_eq!(is_control_char(c), c.is_control(), "U+{:04X}", c as u32);
    }
}

#[test]
fn ascii_letters_are_lowered_as_std_does() {
    for c in every_char() {
        assert_eq!(ascii_lower_char(c), c.to_ascii_lowercase());
    }
}

#[test]
fn texts_are_taken_apart_as_std_does() {
    for text in ["", "a", "\n", "a\nb", "a\r\nb\n", "a\r", "\r\n", "a\n\nb", " \ta b\u{3000}", "ä\n"] {
        let chars = chars_of(text);
        let lines: Vec<String> = lines_of(&chars).iter().map(|l| string_of(l)).collect();
        assert_eq!(lines, text.lines().collect::<Vec<_>>(), "{text:?}");
        let parts: Vec<String> = split_on(&chars, '\n').iter().map(|l| string_of(l)).collect();
        assert_eq!(parts, text.split('\n').collect::<Vec<_>>(), "{text:?}");
        assert_eq!(string_of(trimmed(&chars)), text.trim(), "{text:?}");
        assert_eq!(string_of(trimmed_start(&chars)), text.trim_start(), "{text:?}");
        assert_eq!(string_of(trimmed_end(&chars)), text.trim_end(), "{text:?}");
        assert_eq!(string_of(&join_with(&split_on(&chars, '\n'), '\n')), text);
    }
}

#[test]
fn texts_are_searched_as_std_does() {
    for hay in ["", "a", "abcabc", "aab", "äöü"] {
        for needle in ["", "a", "ab", "abc", "ö", "abcabcabc"] {
            assert_eq!(
                contains(&chars_of(hay), &chars_of(needle)),
                hay.contains(needle),
                "{hay:?} {needle:?}"
            );
        }
    }
    assert_eq!(find_char(&chars_of("abc"), 'c'), 2);
    assert_eq!(find_char(&chars_of("abc"), 'x'), 3);
    assert!(eq_ascii_case(&chars_of("AbC"), &chars_of("aBc")));
    assert!(!eq_ascii_case(&chars_of("Ä"), &chars_of("ä")));
}

#[test]
fn numbers_are_written_and_read_as_std_does() {
    for n in [0u64, 9, 10, 99, 100, 12345, u64::MAX] {
        let mut text = String::new();
        push_decimal(&mut text, n);
        assert_eq!(text, n.to_string());
    }
    for text in ["0", "+5", "-5", "", "+", "4294967295", "4294967296", "12x", "007", "99999999999999"] {
        assert_eq!(
            parse_number(&chars_of(text), u32::MAX),
            text.parse::<u32>().ok(),
            "{text:?}"
        );
    }
}
