use house_query::text::{chars_of, clean_string, i64_text, trim, u64_text};

#[test]
fn clean_string_removes_line_breaks_and_edge_space() {
    assert_eq!(clean_string("  a\nb\r c \n"), "ab c");
    assert_eq!(clean_string("\u{3000}x\u{3000}"), "x");
    assert_eq!(clean_string("\n\r"), "");
    assert_eq!(clean_string(""), "");
}

#[test]
fn clean_string_twice_is_clean_string_once() {
    for s in ["  a\nb\r c \n", " \n x \r\n y\t", "plain", "\u{a0}价格\n"] {
        let once = clean_string(s);
        assert_eq!(clean_string(&once), once);
    }
}

#[test]
fn trim_matches_str_trim() {
    for s in ["  a b  ", "\t\n", "x", "\u{2003}中\u{2003}", ""] {
        assert_eq!(trim(s), s.trim());
    }
}

#[test]
fn decimal_texts() {
    assert_eq!(i64_text(-120), "-120");
    assert_eq!(i64_text(0), "0");
    assert_eq!(i64_text(i64::MIN), i64::MIN.to_string());
    assert_eq!(i64_text(i64::MAX), i64::MAX.to_string());
    assert_eq!(u64_text(u64::MAX), u64::MAX.to_string());
    assert_eq!(u64_text(7), "7");
}

#[test]
fn chars_of_lists_characters() {
    assert_eq!(chars_of("a中b"), vec!['a', '中', 'b']);
}
