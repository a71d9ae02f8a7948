use subtitle_pipeline::text::{
    char_is_white_space, chars_of, equals_ignoring_ascii_case, is_blank_text, push_decimal,
    same_text, trim,
};

#[test]
fn chars_of_keeps_every_character_in_order() {
    assert_eq!(chars_of("a b"), vec!['a', ' ', 'b']);
    assert_eq!(chars_of("h\u{e9}"), vec!['h', '\u{e9}']);
    assert_eq!(chars_of(""), Vec::<char>::new());
}

#[test]
fn white_space_is_what_std_calls_white_space() {
    let mut code: u32 = 0;
    while code <= 0x10FFFF {
        if let Some(c) = char::from_u32(code) {
            assert_eq!(char_is_white_space(c), c.is_whitespace(), "code point {:#x}", code);
        }
        code += 1;
    }
}

#[test]
fn trim_removes_white_space_at_both_ends_only() {
    assert_eq!(trim("  hello world \n"), "hello world");
    assert_eq!(trim("hello"), "hello");
    assert_eq!(trim("\u{3000}ciao\u{a0}"), "ciao");
    assert_eq!(trim(" a "), "a");
    assert_eq!(trim("a  b"), "a  b");
}

#[test]
fn trim_of_blank_text_is_empty() {
    assert_eq!(trim(""), "");
    assert_eq!(trim(" \t\r\n"), "");
}

#[test]
fn trim_agrees_with_std_on_mixed_text() {
    let samples = ["", " ", "x", " x", "x ", "\t x y \n", "\u{2003}\u{e9}t\u{e9}\u{2028}", "\u{200b} z"];
    for sample in samples {
        assert_eq!(trim(sample), sample.trim());
    }
}

#[test]
fn blank_text_is_recognised() {
    assert!(is_blank_text(""));
    assert!(is_blank_text(" \n\t"));
    assert!(!is_blank_text(" . "));
}

#[test]
fn same_text_compares_exactly() {
    assert!(same_text("output", "output"));
    assert!(!same_text("output", "Output"));
    assert!(!same_text("output", "outputs"));
    assert!(same_text("", ""));
}

#[test]
fn ascii_case_is_ignored_and_nothing_else() {
    assert!(equals_ignoring_ascii_case("English", "english"));
    assert!(equals_ignoring_ascii_case("ENGLISH", "eNgLiSh"));
    assert!(!equals_ignoring_ascii_case("English", "Englis"));
    assert!(!equals_ignoring_ascii_case("English", "Englisch"));
    assert!(!equals_ignoring_ascii_case("\u{c9}t\u{e9}", "\u{e9}t\u{e9}"));
    assert!(!equals_ignoring_ascii_case("a[", "a{"));
    assert!(!equals_ignoring_ascii_case("@", "`"));
}

#[test]
fn ascii_case_comparison_agrees_with_std() {
    let words = ["", "a", "A", "english", "ENGLISH", "Fran\u{e7}ais", "FRAN\u{c7}AIS", "z{", "Z["];
    for left in words {
        for right in words {
            assert_eq!(equals_ignoring_ascii_case(left, right), left.eq_ignore_ascii_case(right));
        }
    }
}

#[test]
fn push_decimal_appends_the_numeral() {
    let cases: [(u32, &str); 7] = [
        (0, "n0"),
        (7, "n7"),
        (10, "n10"),
        (99, "n99"),
        (100, "n100"),
        (1234567890, "n1234567890"),
        (4294967295, "n4294967295"),
    ];
    for (number, expected) in cases {
        let mut out = String::from("n");
        push_decimal(&mut out, number);
        assert_eq!(out, expected);
    }
}
