use spotify_freemium::text::{
    characters, decimal_string, parse_at_most, range_is, range_starts_with, trim_bounds,
    whitespace,
};

fn chars_of(text: &str) -> Vec<char> {
    text.chars().collect()
}

#[test]
fn whitespace_is_the_unicode_property() {
    for code in 0..=0x10FFFFu32 {
        if let Some(c) = char::from_u32(code) {
            assert_eq!(whitespace(c), c.is_whitespace());
        }
    }
}

#[test]
fn characters_gives_every_character_in_order() {
    assert_eq!(characters(""), Vec::<char>::new());
    assert_eq!(characters("a\u{e9}\u{1F3B5}z"), vec!['a', '\u{e9}', '\u{1F3B5}', 'z']);
}

#[test]
fn trim_bounds_agree_with_the_standard_trim() {
    let samples = [
        "",
        " ",
        "\n\t ",
        "a",
        " a",
        "a ",
        "  a b  ",
        "\u{2003}x\u{85}",
        "\u{feff}x",
        "spotify:ad:1\r\n",
        "\u{200b}",
    ];
    for sample in samples {
        let chars = chars_of(sample);
        let (start, end) = trim_bounds(&chars);
        let trimmed: String = chars[start..end].iter().collect();
        assert_eq!(trimmed, sample.trim());
    }
}

#[test]
fn trim_bounds_of_blank_text_are_empty() {
    let chars = chars_of(" \t\n");
    let (start, end) = trim_bounds(&chars);
    assert_eq!(start, end);
}

#[test]
fn decimal_string_agrees_with_the_standard_writing() {
    for n in 0..=u8::MAX {
        assert_eq!(decimal_string(n), n.to_string());
    }
}

#[test]
fn parse_at_most_reads_the_given_range_only() {
    let chars = chars_of("ab123cd");
    assert_eq!(parse_at_most(&chars, 2, 5, 200), Some(123));
    assert_eq!(parse_at_most(&chars, 2, 4, 200), Some(12));
    assert_eq!(parse_at_most(&chars, 2, 5, 122), None);
    assert_eq!(parse_at_most(&chars, 2, 5, 123), Some(123));
    assert_eq!(parse_at_most(&chars, 1, 5, 200), None);
    assert_eq!(parse_at_most(&chars, 2, 6, 200), None);
    assert_eq!(parse_at_most(&chars, 3, 3, 200), None);
}

#[test]
fn parse_at_most_agrees_with_the_standard_parser() {
    for n in 0..=u16::from(u8::MAX) + 50 {
        for text in [n.to_string(), format!("+{}", n), format!("0{}", n), format!("-{}", n)] {
            let chars = chars_of(&text);
            assert_eq!(parse_at_most(&chars, 0, chars.len(), u8::MAX), text.parse::<u8>().ok());
        }
    }
}

#[test]
fn range_is_compares_the_whole_range() {
    let chars = chars_of("xtruey");
    assert!(range_is(&chars, 1, 5, "true"));
    assert!(!range_is(&chars, 0, 5, "true"));
    assert!(!range_is(&chars, 1, 6, "true"));
    assert!(!range_is(&chars, 1, 5, "trua"));
    assert!(range_is(&chars, 3, 3, ""));
}

#[test]
fn range_starts_with_compares_the_beginning() {
    let chars = chars_of("  spotify:ad:7 ");
    assert!(range_starts_with(&chars, 2, 14, "spotify:ad"));
    assert!(range_starts_with(&chars, 2, 12, "spotify:ad"));
    assert!(!range_starts_with(&chars, 2, 11, "spotify:ad"));
    assert!(!range_starts_with(&chars, 1, 14, "spotify:ad"));
    assert!(range_starts_with(&chars, 5, 5, ""));
}
