use salvo_kit::error::Error;
use salvo_kit::text::{
    ascii_lowercase, ascii_upper, ascii_uppercase, decimal, digit, eq_ignore_ascii_case,
    first_char, is_whitespace, is_word, join, last_char, last_index_of, parse_u16, push_decimal,
    push_text, replace_char, split_char, strip_end, trim,
};

#[test]
fn decimal_numerals() {
    assert_eq!(decimal(0), "0");
    assert_eq!(decimal(7), "7");
    assert_eq!(decimal(10), "10");
    assert_eq!(decimal(2592000), "2592000");
    assert_eq!(decimal(u64::MAX), u64::MAX.to_string());
    assert_eq!(digit(0), '0');
    assert_eq!(digit(9), '9');
    let mut out = "n=".to_string();
    push_decimal(&mut out, 405);
    push_text(&mut out, "!");
    assert_eq!(out, "n=405!");
}

#[test]
fn numbers_are_read_as_the_standard_library_reads_them() {
    for text in [
        "0", "7", "80", "5800", "65535", "65536", "99999", "000080", "+80", "+", "", "-1", "8 0",
        " 80", "80 ", "1_000", "٣", "4294967376", "+65535", "++1", "0x10",
    ] {
        assert_eq!(parse_u16(text), text.parse::<u16>().ok(), "{text:?}");
    }
}

#[test]
fn white_space_is_what_the_standard_library_takes_for_it() {
    for code in 0..0x3100u32 {
        if let Some(c) = char::from_u32(code) {
            assert_eq!(is_whitespace(c), c.is_whitespace(), "{code:#x}");
        }
    }
    for text in ["", " ", " a ", "\t a b \n", "\u{3000}x\u{a0}", "a", "  ", "a  b"] {
        assert_eq!(trim(text), text.trim(), "{text:?}");
    }
}

#[test]
fn splitting_and_joining() {
    for text in ["", ",", "a", "a,b", "a,,b", ",a,", "\u{e9},\u{fc}"] {
        let pieces = split_char(text, ',');
        let expected: Vec<String> = text.split(',').map(str::to_owned).collect();
        assert_eq!(pieces, expected, "{text:?}");
        assert_eq!(join(&pieces, ","), text);
    }
    assert_eq!(join(&vec![], "/"), "");
    assert_eq!(join(&vec!["a".to_string(), "b".to_string()], ", "), "a, b");
}

#[test]
fn case_and_characters() {
    assert_eq!(ascii_upper('a'), 'A');
    assert_eq!(ascii_upper('z'), 'Z');
    assert_eq!(ascii_upper('A'), 'A');
    assert_eq!(ascii_upper('\u{e9}'), '\u{e9}');
    assert_eq!(ascii_uppercase("rename_rule\u{e9}"), "RENAME_RULE\u{e9}");
    assert_eq!(ascii_lowercase("Upgrade\u{c9}"), "upgrade\u{c9}");
    assert!(eq_ignore_ascii_case("UpGrade", "upgrade"));
    assert!(!eq_ignore_ascii_case("upgrade", "upgraded"));
    assert_eq!(replace_char("a_b_c", '_', '-'), "a-b-c");
    assert_eq!(replace_char("", '_', '-'), "");
    assert!(is_word("a", "a"));
    assert!(!is_word("a", "A"));
}

#[test]
fn ends_of_texts() {
    assert_eq!(last_index_of("a:b:c", ':'), Some(3));
    assert_eq!(last_index_of("\u{e9}:b", ':'), Some(1));
    assert_eq!(last_index_of("abc", ':'), None);
    assert_eq!(last_index_of("", ':'), None);
    assert_eq!(strip_end("a//", '/'), "a");
    assert_eq!(strip_end("a/b/", '/'), "a/b");
    assert_eq!(strip_end("///", '/'), "");
    assert_eq!(strip_end("abc", '/'), "abc");
    assert_eq!(first_char("abc"), Some('a'));
    assert_eq!(first_char(""), None);
    assert_eq!(last_char("abc"), Some('c'));
    assert_eq!(last_char(""), None);
}

#[test]
fn errors_tell_in_words() {
    let error = Error::other("upstreams is empty");
    assert_eq!(error.message(), "upstreams is empty");
    assert_eq!(error, Error::Other("upstreams is empty".to_string()));
}
