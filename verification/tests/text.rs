use plaza_term_rs::text::{chars_of, is_whitespace, split_once, starts_with, trim};

#[test]
fn chars_are_listed_in_order() {
    assert_eq!(chars_of("a\u{e9}z"), vec!['a', '\u{e9}', 'z']);
    assert_eq!(chars_of(""), Vec::<char>::new());
}

#[test]
fn prefix_is_recognized() {
    assert!(starts_with("https://x", "https://"));
    assert!(starts_with("//x", "/"));
    assert!(starts_with("abc", ""));
    assert!(starts_with("", ""));
    assert!(!starts_with("http:/", "http://"));
    assert!(!starts_with("", "/"));
    assert!(!starts_with("xhttp://", "http://"));
}

#[test]
fn split_takes_the_first_separator() {
    assert_eq!(
        split_once("a - b - c", " - "),
        Some(("a".to_string(), "b - c".to_string()))
    );
    assert_eq!(split_once(" - tail", " - "), Some((String::new(), "tail".to_string())));
    assert_eq!(split_once("head - ", " - "), Some(("head".to_string(), String::new())));
    assert_eq!(split_once("a -- b", " - "), None);
    assert_eq!(split_once("a-b", " - "), None);
    assert_eq!(split_once("", " - "), None);
    assert_eq!(split_once(" -", " - "), None);
}

#[test]
fn split_agrees_with_the_standard_library() {
    let cases = ["x - y", "\u{e9}t\u{e9} - hiver", "  -  - ", "none", " - ", "a - b - c - d"];
    for case in cases {
        let expected = case.split_once(" - ").map(|(a, b)| (a.to_string(), b.to_string()));
        assert_eq!(split_once(case, " - "), expected);
    }
}

#[test]
fn trim_removes_whitespace_at_both_ends_only() {
    assert_eq!(trim("  a b  "), "a b");
    assert_eq!(trim("\t\n x \r\n"), "x");
    assert_eq!(trim("x"), "x");
    assert_eq!(trim(""), "");
    assert_eq!(trim("   "), "");
    assert_eq!(trim("\u{a0}\u{3000}y\u{2003}"), "y");
    assert_eq!(trim("_ a _"), "_ a _");
}

#[test]
fn whitespace_is_the_unicode_class() {
    let spaces = [
        '\u{9}', '\u{a}', '\u{b}', '\u{c}', '\u{d}', ' ', '\u{85}', '\u{a0}', '\u{1680}',
        '\u{2000}', '\u{2001}', '\u{2002}', '\u{2003}', '\u{2004}', '\u{2005}', '\u{2006}',
        '\u{2007}', '\u{2008}', '\u{2009}', '\u{200a}', '\u{2028}', '\u{2029}', '\u{202f}',
        '\u{205f}', '\u{3000}',
    ];
    assert_eq!(spaces.len(), 25);
    for c in spaces {
        assert!(is_whitespace(c));
    }
    for c in ['A', 'r', 'X', 'S', 'Y', '-', '_', '0', '\u{0}', '\u{8}', '\u{e}', '\u{1f}'] {
        assert!(!is_whitespace(c));
    }
    for c in ['\u{180e}', '\u{200b}', '\u{200c}', '\u{2060}', '\u{feff}', '\u{1fff}', '\u{3001}'] {
        assert!(!is_whitespace(c));
    }
}

#[test]
fn whitespace_agrees_with_the_standard_library_on_every_character() {
    let mut count = 0;
    for code in 0..=0x10ffffu32 {
        if let Some(c) = char::from_u32(code) {
            assert_eq!(is_whitespace(c), c.is_whitespace(), "U+{:04X}", code);
            if is_whitespace(c) {
                count += 1;
            }
        }
    }
    assert_eq!(count, 25);
}

#[test]
fn trim_agrees_with_the_standard_library() {
    for code in 0..=0x3100u32 {
        if let Some(c) = char::from_u32(code) {
            let padded = format!("{}{} a {} b {}{}", c, c, c, c, c);
            assert_eq!(trim(&padded), padded.trim(), "U+{:04X}", code);
        }
    }
    for case in ["", " ", "\t x\n", "x", " \u{3000}\u{2028} ", "\u{feff} x \u{feff}"] {
        assert_eq!(trim(case), case.trim());
    }
}
