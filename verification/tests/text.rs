use static_contact::text::{
    blank, break_lines, chars_of, contains, join_lines, length_of, push_decimal, push_octal, trim,
};

fn in_decimal(n: usize) -> String {
    let mut text = String::new();
    push_decimal(&mut text, n);
    text
}

#[test]
fn a_text_is_taken_apart_into_its_characters() {
    assert_eq!(chars_of("héllo\n"), vec!['h', 'é', 'l', 'l', 'o', '\n']);
    assert_eq!(chars_of(""), Vec::<char>::new());
}

#[test]
fn decimal_numerals() {
    assert_eq!(in_decimal(0), "0");
    assert_eq!(in_decimal(7), "7");
    assert_eq!(in_decimal(10), "10");
    assert_eq!(in_decimal(254), "254");
    assert_eq!(in_decimal(1000), "1000");
    assert_eq!(in_decimal(1234567890), "1234567890");
    assert_eq!(in_decimal(usize::MAX), usize::MAX.to_string());
}

#[test]
fn every_decimal_digit_is_written() {
    assert_eq!(in_decimal(9876543210), "9876543210");
    for n in 0..2000 {
        assert_eq!(in_decimal(n), n.to_string());
    }
}

#[test]
fn octal_numerals() {
    let mut text = String::new();
    push_octal(&mut text, 0);
    assert_eq!(text, "0");
    for n in [1usize, 7, 8, 9, 63, 64, 0o644, 0o100755, 0o7654321, usize::MAX] {
        let mut text = String::new();
        push_octal(&mut text, n);
        assert_eq!(text, format!("{:o}", n));
    }
}

#[test]
fn numerals_are_appended() {
    let mut text = String::from("n=");
    push_octal(&mut text, 64);
    assert_eq!(text, "n=100");
    push_decimal(&mut text, 42);
    assert_eq!(text, "n=10042");
}

#[test]
fn lines_are_joined_by_line_feeds() {
    assert_eq!(join_lines(&vec![]), "");
    assert_eq!(join_lines(&vec!["one".to_string()]), "one");
    assert_eq!(join_lines(&vec!["one".to_string(), "two".to_string()]), "one\ntwo");
    assert_eq!(
        join_lines(&vec!["a".to_string(), "".to_string(), "c".to_string()]),
        "a\n\nc"
    );
}

#[test]
fn line_feeds_become_breaks() {
    assert_eq!(break_lines(""), "");
    assert_eq!(break_lines("no feed"), "no feed");
    assert_eq!(break_lines("a\nb"), "a<br>b");
    assert_eq!(break_lines("\n\n"), "<br><br>");
    assert_eq!(break_lines("a\r\nb\n"), "a\r<br>b<br>");
    assert_eq!(break_lines("ä\nö"), "ä<br>ö");
    let text = "first\nsecond\n\nthird";
    assert_eq!(break_lines(text), text.replace("\n", "<br>"));
}

#[test]
fn contains_finds_a_text_inside_another() {
    assert!(contains("SmtpError::Skipped", "Skipped"));
    assert!(contains("Skipped", "Skipped"));
    assert!(contains("xSkippedx", "Skipped"));
    assert!(!contains("Skippe", "Skipped"));
    assert!(!contains("skipped", "Skipped"));
    assert!(!contains("", "Skipped"));
    assert!(!contains("Skipp ed", "Skipped"));
    assert!(contains("anything", ""));
    assert!(contains("", ""));
    assert!(contains("SkipSkipped", "Skipped"));
    assert!(contains("aab", "ab"));
}

#[test]
fn blank_characters_are_white_space() {
    for code in 0..0x3100u32 {
        if let Some(c) = char::from_u32(code) {
            assert_eq!(blank(c), c.is_whitespace(), "U+{:04X}", code);
        }
    }
    assert!(!blank('\u{feff}'));
    assert!(!blank('\u{200b}'));
}

#[test]
fn trim_removes_white_space_at_both_ends() {
    assert_eq!(trim(""), "");
    assert_eq!(trim("   "), "");
    assert_eq!(trim("a"), "a");
    assert_eq!(trim("  a b  "), "a b");
    assert_eq!(trim("\n\tline one\nline two\n"), "line one\nline two");
    assert_eq!(trim("\u{a0}x\u{3000}"), "x");
    assert_eq!(trim("x \u{200b}"), "x \u{200b}");
    for text in ["", " ", "a ", " a", " a b \n", "\r\n", "ä ", "\u{2003}ö\u{2003}"] {
        assert_eq!(trim(text), text.trim());
    }
}

#[test]
fn length_is_counted_in_characters() {
    assert_eq!(length_of(""), 0);
    assert_eq!(length_of("abc"), 3);
    assert_eq!(length_of("äöü"), 3);
    assert_eq!(length_of("€"), 1);
    assert_eq!(length_of("🦀"), 1);
    assert_eq!(length_of("a\nb"), 3);
}
