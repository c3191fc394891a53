use control_plane::utils::text::{
    char_is_whitespace, chars_of, decimal, digit_text, find_line_end, has_prefix, same_text,
    skip_repeated_prefix, skip_trailing_whitespace, skip_whitespace, trim_bounds,
};

fn chars(s: &str) -> Vec<char> {
    s.chars().collect()
}

#[test]
fn whitespace_is_what_std_takes_for_it() {
    let mut c = 0u32;
    let mut count = 0;
    while c <= 0x10FFFF {
        if let Some(ch) = char::from_u32(c) {
            assert_eq!(char_is_whitespace(ch), ch.is_whitespace(), "U+{:04X}", c);
            if ch.is_whitespace() {
                count += 1;
            }
        }
        c += 1;
    }
    assert_eq!(count, 25);
}

#[test]
fn trimming_agrees_with_std() {
    for s in [
        "",
        " ",
        "a",
        " a ",
        "\t\n a b \r\n",
        "\u{2003}x\u{3000}",
        "\u{85}\u{a0}mid dle\u{1680}\u{2028}\u{2029}\u{202f}\u{205f}",
        "   ",
        "x  ",
        "  x",
        "\u{200b}x\u{200b}",
        "\u{feff}x",
    ] {
        let v = chars(s);
        let start = skip_whitespace(&v, 0, v.len());
        let end = skip_trailing_whitespace(&v, 0, v.len());
        let (a, b) = trim_bounds(&v, 0, v.len());
        assert_eq!(v[start..].iter().collect::<String>(), s.trim_start());
        assert_eq!(v[..end].iter().collect::<String>(), s.trim_end());
        assert_eq!(v[a..b].iter().collect::<String>(), s.trim());
    }
}

#[test]
fn trimming_within_a_range() {
    let v = chars("ab  cd  ef");
    assert_eq!(skip_whitespace(&v, 2, 8), 4);
    assert_eq!(skip_trailing_whitespace(&v, 2, 8), 6);
    assert_eq!(trim_bounds(&v, 2, 8), (4, 6));
    assert_eq!(trim_bounds(&v, 2, 4), (4, 4));
    assert_eq!(trim_bounds(&v, 3, 3), (3, 3));
}

#[test]
fn prefixes() {
    let v = chars("data: data: x");
    let p = chars("data: ");
    assert!(has_prefix(&v, 0, v.len(), &p));
    assert!(has_prefix(&v, 6, v.len(), &p));
    assert!(!has_prefix(&v, 1, v.len(), &p));
    assert!(!has_prefix(&v, 0, 5, &p));
    assert!(has_prefix(&v, 0, 6, &p));
    assert!(has_prefix(&v, 3, 3, &Vec::new()));
    assert_eq!(skip_repeated_prefix(&v, 0, v.len(), &p), 12);
    assert_eq!(skip_repeated_prefix(&v, 0, 11, &p), 6);
    assert_eq!(skip_repeated_prefix(&v, 1, v.len(), &p), 1);
    assert_eq!(skip_repeated_prefix(&v, 0, v.len(), &Vec::new()), 0);
    let same = chars("aaaa");
    assert_eq!(skip_repeated_prefix(&same, 0, 4, &chars("aa")), 4);
    assert_eq!(skip_repeated_prefix(&same, 0, 3, &chars("aa")), 2);
    for s in ["data: data: x", "data:data: x", "x", "", "data: "] {
        let w = chars(s);
        let i = skip_repeated_prefix(&w, 0, w.len(), &p);
        assert_eq!(w[i..].iter().collect::<String>(), s.trim_start_matches("data: "));
    }
}

#[test]
fn line_ends() {
    let v = chars("ab\ncd\n\nef");
    assert_eq!(find_line_end(&v, 0, v.len()), 2);
    assert_eq!(find_line_end(&v, 3, v.len()), 5);
    assert_eq!(find_line_end(&v, 6, v.len()), 6);
    assert_eq!(find_line_end(&v, 7, v.len()), 9);
    assert_eq!(find_line_end(&v, 0, 2), 2);
    assert_eq!(find_line_end(&v, 9, 9), 9);
}

#[test]
fn characters_and_equality() {
    assert_eq!(chars_of("héllo 世界"), chars("héllo 世界"));
    assert_eq!(chars_of(""), Vec::<char>::new());
    assert!(same_text("", ""));
    assert!(same_text("héllo", "héllo"));
    assert!(!same_text("hello", "hellp"));
    assert!(!same_text("hello", "hell"));
    assert!(!same_text("é", "e\u{301}"));
}

#[test]
fn decimal_numerals() {
    assert_eq!(decimal(0), "0");
    assert_eq!(decimal(7), "7");
    assert_eq!(decimal(10), "10");
    assert_eq!(decimal(85), "85");
    assert_eq!(decimal(80000), "80000");
    assert_eq!(decimal(1234567890), "1234567890");
    assert_eq!(decimal(u64::MAX), "18446744073709551615");
    for d in 0..10u64 {
        assert_eq!(digit_text(d), d.to_string());
    }
    let mut n = 1u64;
    while n < u64::MAX / 7 {
        assert_eq!(decimal(n), n.to_string());
        n = n * 7 + 3;
    }
}
