use openai_compat::text::{begins_with, is_blank, is_white_space, push_decimal};

#[test]
fn white_space_is_that_of_the_standard_library() {
    for code in 0u32..=0x10ffff {
        if let Some(c) = char::from_u32(code) {
            assert_eq!(is_white_space(c), c.is_whitespace(), "U+{code:04X}");
        }
    }
}

#[test]
fn blank_lines_are_those_that_trim_to_nothing() {
    for line in ["", " ", "\t \r", "\u{3000}\u{2003}", "a", " a ", ":", "\u{feff}", "\u{200b}"] {
        assert_eq!(is_blank(line), line.trim().is_empty(), "{line:?}");
    }
}

#[test]
fn only_the_first_character_is_looked_at() {
    assert!(begins_with(":", ':'));
    assert!(begins_with(": ping", ':'));
    assert!(!begins_with("", ':'));
    assert!(!begins_with(" :", ':'));
    assert!(begins_with("\u{fc}ber", '\u{fc}'));
}

#[test]
fn decimal_numerals_are_those_of_the_standard_library() {
    for value in [0u64, 1, 9, 10, 99, 100, 120, 1_000_000_007, u64::MAX - 1, u64::MAX] {
        let mut out = "<".to_string();
        push_decimal(&mut out, value);
        assert_eq!(out, format!("<{value}"));
    }
}
