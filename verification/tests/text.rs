use license_hub::text::{
    blank, chars_of, compare_chars, decimal_text, remove_occurrences, same_text, string_of,
    trimmed, white_space,
};

#[test]
fn white_space_matches_char_is_whitespace() {
    for u in 0u32..=0x10FFFF {
        if let Some(c) = char::from_u32(u) {
            assert_eq!(white_space(c), c.is_whitespace(), "code point {:#x}", u);
        }
    }
}

#[test]
fn blank_matches_trim_is_empty() {
    for s in ["", " ", "\t\n", "\u{3000}\u{00A0}", " a ", "abc", "\u{200B}"] {
        assert_eq!(blank(s), s.trim().is_empty(), "{:?}", s);
    }
}

#[test]
fn trimmed_matches_trim() {
    for s in ["", "  ", " a b ", "\u{2003}x\u{2028}", "x", "\t/path/ \n"] {
        let v = chars_of(s);
        assert_eq!(string_of(&trimmed(&v)), s.trim(), "{:?}", s);
    }
}

#[test]
fn decimal_text_matches_to_string() {
    for n in [0, 7, 10, 42, 1234567, -1, -9, -10, -2147483647, i32::MIN, i32::MAX] {
        assert_eq!(decimal_text(n), n.to_string());
    }
}

#[test]
fn remove_occurrences_matches_replace() {
    let cases = [
        ("prepay_id=wx123", "prepay_id="),
        ("prepay_id=prepay_id=x", "prepay_id="),
        ("aaa", "aa"),
        ("abc", ""),
        ("xprepay_id", "prepay_id="),
        ("", "a"),
    ];
    for (s, p) in cases {
        let r = remove_occurrences(&chars_of(s), &chars_of(p));
        assert_eq!(string_of(&r), s.replace(p, ""), "{:?} {:?}", s, p);
    }
}

#[test]
fn compare_chars_matches_string_order() {
    let words = ["", "a", "b", "ab", "aB", "Z", "é", "e\u{301}", "中", "a/b", "a-b"];
    for x in words {
        for y in words {
            let expected = match x.cmp(y) {
                std::cmp::Ordering::Less => -1,
                std::cmp::Ordering::Equal => 0,
                std::cmp::Ordering::Greater => 1,
            };
            assert_eq!(compare_chars(&chars_of(x), &chars_of(y)), expected, "{:?} {:?}", x, y);
        }
    }
}

#[test]
fn same_text_compares_characters() {
    assert!(same_text("GET", "GET"));
    assert!(!same_text("GET", "get"));
    assert!(!same_text("GE", "GET"));
}
