use dioscript_parser::text::{first_line_of, is_blank, is_whitespace};

const SAMPLES: [&str; 30] = [
    "",
    " ",
    "\n",
    "\r\n",
    "\r",
    "\t \n\r\u{b}\u{c}",
    "\u{85}\u{a0}\u{1680}\u{2000}\u{2005}\u{200a}\u{2028}\u{2029}\u{202f}\u{205f}\u{3000}",
    "\u{200b}",
    "\u{180e}",
    "\u{feff}",
    "TRAILING JUNK",
    "  TRAILING JUNK  ",
    "one\ntwo",
    "one\r\ntwo",
    "one\rtwo",
    "one\r",
    "one\n",
    "one\r\n",
    "one\r\r\ntwo",
    "one\n\rtwo",
    "\none",
    "\r\none",
    "\n\n",
    "   \n   x",
    "x\n   ",
    "größer\näöü",
    "日本語\r\nテキスト",
    "a\u{2028}b\nc",
    "tab\there\nnext",
    "\r\r\n",
];

#[test]
fn white_space_is_what_std_calls_white_space() {
    let mut count = 0;
    for c in '\0'..=char::MAX {
        assert_eq!(is_whitespace(c), c.is_whitespace(), "{:?}", c);
        if is_whitespace(c) {
            count += 1;
        }
    }
    assert_eq!(count, 25);
}

#[test]
fn white_space_holds_the_line_breaks() {
    for c in ['\n', '\r', '\t', ' ', '\u{b}', '\u{c}', '\u{85}', '\u{2028}', '\u{2029}'] {
        assert!(is_whitespace(c));
    }
    let others =
        ['a', '0', '_', '$', '\0', '\u{8}', '\u{e}', '\u{1f}', '\u{200b}', '\u{180e}', '\u{feff}'];
    for c in others {
        assert!(!is_whitespace(c));
    }
}

#[test]
fn blank_is_what_trims_to_nothing() {
    for text in SAMPLES {
        assert_eq!(is_blank(text), text.trim().is_empty(), "{:?}", text);
    }
}

#[test]
fn empty_text_is_blank() {
    assert!(is_blank(""));
}

#[test]
fn text_with_one_letter_is_not_blank() {
    assert!(!is_blank("  \n x \n  "));
    assert!(is_blank("  \n   \n  "));
}

#[test]
fn first_line_is_what_std_gives_first() {
    for text in SAMPLES {
        assert_eq!(first_line_of(text), text.lines().next().unwrap_or(""), "{:?}", text);
    }
}

#[test]
fn first_line_exact_values() {
    assert_eq!(first_line_of(""), "");
    assert_eq!(first_line_of("TRAILING JUNK"), "TRAILING JUNK");
    assert_eq!(first_line_of("one\ntwo\nthree"), "one");
    assert_eq!(first_line_of("one\r\ntwo"), "one");
    assert_eq!(first_line_of("one\rtwo"), "one\rtwo");
    assert_eq!(first_line_of("one\r"), "one\r");
    assert_eq!(first_line_of("one\r\r\ntwo"), "one\r");
    assert_eq!(first_line_of("\ntwo"), "");
    assert_eq!(first_line_of("\r\ntwo"), "");
    assert_eq!(first_line_of("  one  \n"), "  one  ");
    assert_eq!(first_line_of("日本語\r\nテキスト"), "日本語");
}

#[test]
fn first_line_of_a_long_text() {
    let mut text = "x".repeat(5000);
    text.push_str("\r\n");
    text.push_str(&"y".repeat(5000));
    assert_eq!(first_line_of(&text), "x".repeat(5000));
    assert_eq!(first_line_of(&"z".repeat(7000)), "z".repeat(7000));
}
