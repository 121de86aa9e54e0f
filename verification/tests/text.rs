use chat_e2e::text::{
    char_is_space, join, render_decimal, same_text, same_text_ignoring_ascii_case, split_lines,
    split_words, tab, to_chars,
};

const SAMPLES: [&str; 22] = [
    "",
    " ",
    "a",
    "a b",
    "  a  b  ",
    "\ta\nb\r\nc",
    "--headless --disable-gpu",
    "one\u{a0}two",
    "one\u{2003}two\u{3000}three",
    "x\u{85}y",
    "x\u{200b}y",
    "x\u{1680}y\u{2028}z\u{2029}w\u{202f}v\u{205f}u",
    "\n",
    "\n\n",
    "a\n",
    "a\r\n",
    "a\r",
    "a\r\r\nb",
    "\r\n\r\n",
    "a\n\nb\n",
    "héllo wörld\nünïcode",
    "last line without end\nof line",
];

#[test]
fn words_are_what_std_splits_at_white_space() {
    for text in SAMPLES {
        let expected: Vec<String> = text.split_whitespace().map(|w| w.to_string()).collect();
        assert_eq!(split_words(text), expected, "{:?}", text);
    }
}

#[test]
fn words_of_driver_arguments() {
    assert_eq!(split_words("--headless   --port 1"), vec!["--headless", "--port", "1"]);
    assert!(split_words("").is_empty());
    assert!(split_words(" \t\n").is_empty());
}

#[test]
fn lines_are_what_std_reads_as_lines() {
    for text in SAMPLES {
        let expected: Vec<String> = text.lines().map(|w| w.to_string()).collect();
        assert_eq!(split_lines(text), expected, "{:?}", text);
    }
}

#[test]
fn lines_end_at_line_feeds() {
    assert_eq!(split_lines("a\nb"), vec!["a", "b"]);
    assert_eq!(split_lines("a\r\nb\r"), vec!["a", "b\r"]);
    assert_eq!(split_lines("\n"), vec![""]);
    assert!(split_lines("").is_empty());
}

#[test]
fn tab_indents_every_line_by_four_spaces() {
    assert_eq!(tab("a\nb"), "    a\n    b\n");
    assert_eq!(tab("a\nb\n"), "    a\n    b\n");
    assert_eq!(tab(""), "");
    assert_eq!(tab("\n"), "    \n");
    assert_eq!(tab("x\r\ny"), "    x\n    y\n");
    assert_eq!(tab("  indented"), "      indented\n");
}

#[test]
fn tab_does_what_a_loop_over_std_lines_does() {
    for text in SAMPLES {
        let mut expected = String::new();
        for line in text.lines() {
            expected.push_str("    ");
            expected.push_str(line);
            expected.push_str("\n");
        }
        assert_eq!(tab(text), expected, "{:?}", text);
    }
}

#[test]
fn white_space_is_what_std_calls_white_space() {
    for code in 0u32..0x11000 {
        if let Some(c) = char::from_u32(code) {
            assert_eq!(char_is_space(c), c.is_whitespace(), "U+{:04X}", code);
        }
    }
    assert!(!char_is_space('\u{10FFFF}'));
}

#[test]
fn decimal_numerals() {
    assert_eq!(render_decimal(0), "0");
    assert_eq!(render_decimal(7), "7");
    assert_eq!(render_decimal(10), "10");
    assert_eq!(render_decimal(8080), "8080");
    assert_eq!(render_decimal(65535), "65535");
    assert_eq!(render_decimal(u64::MAX), "18446744073709551615");
    for n in [1u64, 9, 11, 99, 100, 101, 1000, 40507, 1 << 32, 999_999_999_999] {
        assert_eq!(render_decimal(n), n.to_string());
    }
}

#[test]
fn texts_are_compared_by_their_characters() {
    assert!(same_text("", ""));
    assert!(same_text("héllo", "héllo"));
    assert!(!same_text("hello", "hellO"));
    assert!(!same_text("hello", "hell"));
    assert!(!same_text("a", ""));
}

#[test]
fn ascii_case_is_ignored_on_request() {
    assert!(same_text_ignoring_ascii_case("auto", "auto"));
    assert!(same_text_ignoring_ascii_case("AUTO", "auto"));
    assert!(same_text_ignoring_ascii_case("AuTo", "aUtO"));
    assert!(!same_text_ignoring_ascii_case("auto ", "auto"));
    assert!(!same_text_ignoring_ascii_case("aut", "auto"));
    assert!(!same_text_ignoring_ascii_case("", "auto"));
    assert!(same_text_ignoring_ascii_case("", ""));
    assert!(!same_text_ignoring_ascii_case("É", "é"));
    assert!(!same_text_ignoring_ascii_case("[", "{"));
    assert!(!same_text_ignoring_ascii_case("@", "`"));
    for a in ["auto", "Auto", "true", "TRUE", "x", "é", "Straße", "K", "\u{212a}"] {
        for b in ["auto", "true", "k", "strasse", "É"] {
            assert_eq!(same_text_ignoring_ascii_case(a, b), a.eq_ignore_ascii_case(b));
        }
    }
}

#[test]
fn ignoring_ascii_case_is_comparing_lowercase_for_the_words_that_matter() {
    for word in ["auto", "true"] {
        for text in ["auto", "AUTO", "Auto", "aUTO", "true", "True", "TRUE", "tRuE", "", "autó", "ａｕｔｏ", "\u{212a}", "aut\u{0130}"] {
            assert_eq!(same_text_ignoring_ascii_case(text, word), text.to_lowercase() == word);
        }
    }
}

#[test]
fn characters_of_a_text() {
    assert_eq!(to_chars("héy"), vec!['h', 'é', 'y']);
    assert!(to_chars("").is_empty());
}

#[test]
fn joining_puts_the_separator_between() {
    let items = vec!["a".to_string(), "b".to_string(), "c".to_string()];
    assert_eq!(join(&items, "\n "), "a\n b\n c");
    assert_eq!(join(&items[..1].to_vec(), ", "), "a");
    assert_eq!(join(&Vec::new(), ", "), "");
    assert_eq!(join(&vec![String::new(), String::new()], "-"), "-");
    assert_eq!(join(&items, ""), "abc");
    let strs: Vec<&str> = items.iter().map(|s| s.as_str()).collect();
    assert_eq!(join(&items, "\n "), strs.join("\n "));
}
