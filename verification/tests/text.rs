use audio_ingest::text::{
    chars_of, contains_char, copy_text, is_whitespace_char, precedes, starts_with, trim_range,
};

fn chars(s: &str) -> Vec<char> {
    s.chars().collect()
}

#[test]
fn whitespace_agrees_with_the_standard_library_on_every_character() {
    let mut code: u32 = 0;
    while code <= 0x10FFFF {
        if let Some(c) = char::from_u32(code) {
            assert_eq!(is_whitespace_char(c), c.is_whitespace(), "U+{:04X}", code);
        }
        code += 1;
    }
}

#[test]
fn chars_of_lists_the_characters() {
    assert_eq!(chars_of("a-é你"), vec!['a', '-', 'é', '你']);
    assert_eq!(chars_of(""), Vec::<char>::new());
}

#[test]
fn trim_range_finds_the_trimmed_part() {
    let list = chars("  a b \t");
    assert_eq!(trim_range(&list, 0, list.len()), (2, 5));
    assert_eq!(trim_range(&list, 3, 4), (4, 4));
    let blank = chars(" \u{3000}\n");
    let (a, b) = trim_range(&blank, 0, blank.len());
    assert_eq!(a, b);
    let empty = chars("");
    assert_eq!(trim_range(&empty, 0, 0), (0, 0));
    let plain = chars("abc");
    assert_eq!(trim_range(&plain, 0, 3), (0, 3));
    assert_eq!(trim_range(&plain, 1, 2), (1, 2));
}

#[test]
fn trim_range_agrees_with_trim() {
    for s in ["", " ", "x", " x", "x ", "  x y  ", "\u{A0}x\u{2003}", "\t\n", "a - b"] {
        let list = chars(s);
        let (a, b) = trim_range(&list, 0, list.len());
        let got: String = list[a..b].iter().collect();
        assert_eq!(got, s.trim());
    }
}

#[test]
fn contains_char_looks_at_every_character() {
    assert!(contains_char(&chars("ab\u{FFFD}"), '\u{FFFD}'));
    assert!(contains_char(&chars("\u{FFFD}ab"), '\u{FFFD}'));
    assert!(!contains_char(&chars("abc"), '\u{FFFD}'));
    assert!(!contains_char(&chars(""), 'a'));
}

#[test]
fn starts_with_compares_the_prefix() {
    assert!(starts_with(&chars("lyrics-eng"), &chars("lyrics")));
    assert!(starts_with(&chars("lyrics"), &chars("lyrics")));
    assert!(starts_with(&chars("abc"), &chars("")));
    assert!(!starts_with(&chars("lyric"), &chars("lyrics")));
    assert!(!starts_with(&chars("xlyrics"), &chars("lyrics")));
}

#[test]
fn precedes_is_the_order_of_strings() {
    let samples = ["", "a", "A", "ab", "b", "aa", "é", "你", "lyrics", "LYRICS", "Lyrics-a"];
    for a in samples {
        for b in samples {
            assert_eq!(precedes(&chars(a), &chars(b)), a < b, "{:?} {:?}", a, b);
        }
    }
}

#[test]
fn copy_text_copies() {
    assert_eq!(copy_text(&Some("x".to_string())), Some("x".to_string()));
    assert_eq!(copy_text(&None), None);
}
