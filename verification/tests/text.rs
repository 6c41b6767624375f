use pong_settings::text::{
    chars_are, chars_of, lowercased, parse_u32_chars, push_decimal, split_once_chars,
    trimmed,
};

fn chars(s: &str) -> Vec<char> {
    s.chars().collect()
}

#[test]
fn chars_of_keeps_every_character() {
    assert_eq!(chars_of("aé ✓\n"), vec!['a', 'é', ' ', '✓', '\n']);
    assert!(chars_of("").is_empty());
}

#[test]
fn trimmed_matches_str_trim() {
    for s in ["", "   ", " a ", "\t\r\nx y\u{2003}", "\u{85}z\u{3000}", "a", " \u{200b}b"] {
        assert_eq!(trimmed(&chars(s)), chars(s.trim()), "{s:?}");
    }
}

#[test]
fn lowercased_matches_to_ascii_lowercase() {
    for s in ["ABC", "DX12", "MiXeD ÄÖ", "already"] {
        assert_eq!(lowercased(&chars(s)), chars(&s.to_ascii_lowercase()), "{s:?}");
    }
}

#[test]
fn split_once_at_first_separator() {
    assert_eq!(
        split_once_chars(&chars("a=b=c"), '='),
        Some((chars("a"), chars("b=c")))
    );
    assert_eq!(split_once_chars(&chars("=x"), '='), Some((vec![], chars("x"))));
    assert_eq!(split_once_chars(&chars("none"), '='), None);
}

#[test]
fn parse_u32_matches_str_parse() {
    for s in [
        "0", "42", "+7", "007", "4294967295", "4294967296", "", "+", "-1", "1 ", "1a",
        "18446744073709551616",
    ] {
        assert_eq!(parse_u32_chars(&chars(s)), s.parse::<u32>().ok(), "{s:?}");
    }
}

#[test]
fn decimal_writing() {
    for n in [0u32, 9, 10, 99, 1234567, u32::MAX] {
        let mut s = String::from("n=");
        push_decimal(&mut s, n);
        assert_eq!(s, format!("n={n}"));
    }
}

#[test]
fn comparing_with_words() {
    assert!(chars_are(&chars("vsync"), "vsync"));
    assert!(!chars_are(&chars("vsync "), "vsync"));
    assert!(!chars_are(&chars("Vsync"), "vsync"));
}
