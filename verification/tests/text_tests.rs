use semantic_git_cz::text::{chars_of, decimal_string, string_of, trim};

#[test]
fn trim_removes_white_space_at_both_ends() {
    assert_eq!(trim("  hello  "), "hello");
    assert_eq!(trim("hello\n"), "hello");
    assert_eq!(trim("hello\r\n"), "hello");
    assert_eq!(trim("\t 2 \n"), "2");
    assert_eq!(trim("\u{A0}wide\u{3000}"), "wide");
}

#[test]
fn trim_keeps_white_space_inside() {
    assert_eq!(trim("  fix the  parser \n"), "fix the  parser");
    assert_eq!(trim("a\nb"), "a\nb");
}

#[test]
fn trim_of_blank_input_is_empty() {
    assert_eq!(trim(""), "");
    assert_eq!(trim(" "), "");
    assert_eq!(trim("\n"), "");
    assert_eq!(trim(" \t\r\n "), "");
}

#[test]
fn trim_leaves_clean_text_alone() {
    assert_eq!(trim("x"), "x");
    assert_eq!(trim("✨ sparkle"), "✨ sparkle");
    assert_eq!(trim(trim("  twice  ")), trim("  twice  "));
}

#[test]
fn trim_agrees_with_the_standard_trim() {
    let samples = ["", " ", "a", " a", "a ", " a b ", "\u{2003}x\u{2028}", "é \u{85}", "\n\n"];
    for sample in samples {
        assert_eq!(trim(sample), sample.trim(), "for {:?}", sample);
    }
}

#[test]
fn decimal_string_writes_plain_numerals() {
    assert_eq!(decimal_string(0), "0");
    assert_eq!(decimal_string(7), "7");
    assert_eq!(decimal_string(9), "9");
    assert_eq!(decimal_string(10), "10");
    assert_eq!(decimal_string(42), "42");
    assert_eq!(decimal_string(1005), "1005");
    assert_eq!(decimal_string(usize::MAX), usize::MAX.to_string());
}

#[test]
fn chars_of_lists_every_character() {
    assert_eq!(chars_of(""), Vec::<char>::new());
    assert_eq!(chars_of("a✨b"), vec!['a', '✨', 'b']);
}

#[test]
fn string_of_takes_the_stretch() {
    let chars = vec!['h', 'é', 'l', 'l', 'o'];
    assert_eq!(string_of(&chars, 0, 5), "héllo");
    assert_eq!(string_of(&chars, 1, 3), "él");
    assert_eq!(string_of(&chars, 2, 2), "");
}
