use cat_launcher::text::{
    char_is_whitespace, find_char_index, str_eq, str_eq_ignore_ascii_case, str_less, trim_str,
    i64_to_decimal, u64_to_decimal, usize_to_decimal,
};

#[test]
fn trim_matches_std_trim() {
    let samples = [
        "",
        "   ",
        "  abc  ",
        "\t<a>; rel=\"next\"\n",
        "\u{2003}wide\u{3000}",
        "\u{00A0}nbsp\u{0085}",
        "inner  space",
        "\u{200B}zero width\u{200B}",
    ];
    for s in samples {
        assert_eq!(trim_str(s), s.trim(), "trim of {:?}", s);
    }
}

#[test]
fn whitespace_matches_std() {
    for v in 0u32..0x3100 {
        if let Some(c) = char::from_u32(v) {
            assert_eq!(char_is_whitespace(c), c.is_whitespace(), "char {:#x}", v);
        }
    }
}

#[test]
fn string_order_matches_std() {
    let words = ["", "a", "b", "ab", "aB", "Z", "é", "e", "mod-1", "mod-10", "mod-2", "\u{1F600}"];
    for a in words {
        for b in words {
            assert_eq!(str_less(a, b), a < b, "{:?} < {:?}", a, b);
            assert_eq!(str_eq(a, b), a == b);
        }
    }
}

#[test]
fn ascii_case_insensitive_equality() {
    assert!(str_eq_ignore_ascii_case("SAVE", "save"));
    assert!(str_eq_ignore_ascii_case("SaVe", "sAvE"));
    assert!(!str_eq_ignore_ascii_case("saves", "save"));
    assert!(!str_eq_ignore_ascii_case("ſave", "save"));
    assert!(str_eq_ignore_ascii_case("", ""));
}

#[test]
fn find_first_character() {
    assert_eq!(find_char_index("a,b,c", ','), Some(1));
    assert_eq!(find_char_index("abc", ','), None);
    assert_eq!(find_char_index("é,x", ','), Some(1));
}

#[test]
fn decimal_formatting() {
    for n in [0usize, 7, 10, 99, 100, 1000, 123456789, usize::MAX] {
        assert_eq!(usize_to_decimal(n), n.to_string());
    }
}

#[test]
fn signed_and_wide_decimal_formatting() {
    for n in [0u64, 9, 10, 4096, u64::MAX] {
        assert_eq!(u64_to_decimal(n), n.to_string());
    }
    for n in [0i64, 5, -1, -10, 12345, i64::MIN, i64::MAX] {
        assert_eq!(i64_to_decimal(n), n.to_string());
    }
}
