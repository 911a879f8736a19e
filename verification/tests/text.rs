use rl_bc_uploader::text::{is_blank, parse_u64, push_bool, push_decimal, push_int, same_text};

#[test]
fn parses_decimal_seconds() {
    assert_eq!(parse_u64("300"), Some(300));
    assert_eq!(parse_u64("0"), Some(0));
    assert_eq!(parse_u64("+42"), Some(42));
    assert_eq!(parse_u64("007"), Some(7));
    assert_eq!(parse_u64("18446744073709551615"), Some(u64::MAX));
}

#[test]
fn refuses_what_u64_from_str_refuses() {
    for s in ["", "+", "-", "-1", " 5", "5 ", "1e3", "18446744073709551616", "++1", "12a"] {
        assert_eq!(parse_u64(s), None, "{s:?}");
        assert_eq!(parse_u64(s), s.parse::<u64>().ok(), "{s:?}");
    }
}

#[test]
fn decimal_text_reads_back() {
    for n in [0u32, 7, 10, 99, 300, 65535, u32::MAX] {
        let mut s = String::new();
        push_decimal(&mut s, n);
        assert_eq!(s, n.to_string());
        assert_eq!(parse_u64(&s), Some(n as u64));
    }
}

#[test]
fn integers_and_booleans_as_display_writes_them() {
    for v in [0i32, 5, -5, 123, i32::MIN, i32::MAX] {
        let mut s = String::from("x=");
        push_int(&mut s, v);
        assert_eq!(s, format!("x={}", v));
    }
    let mut s = String::new();
    push_bool(&mut s, true);
    push_bool(&mut s, false);
    assert_eq!(s, "truefalse");
}

#[test]
fn blank_is_what_trim_empties() {
    for s in ["", " ", "\t\n", "\u{3000}", "\u{a0} \u{2009}", "a", " a ", "\u{200b}"] {
        assert_eq!(is_blank(s), s.trim().is_empty(), "{s:?}");
    }
}

#[test]
fn text_comparison() {
    assert!(same_text("abc", "abc"));
    assert!(!same_text("abc", "abd"));
    assert!(!same_text("abc", "ab"));
    assert!(same_text("", ""));
    assert!(same_text("日本", "日本"));
}
