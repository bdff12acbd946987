use mouse_jiggler_neo::ui_main::period_display;
use mouse_jiggler_neo::util::{parse_u32, str_eq, to_ascii_lowercase};

#[test]
fn parse_u32_matches_std() {
    for s in ["0", "42", "+7", "007", "4294967295", "4294967296", "", "+", "-", "-1", "1a", " 1", "99999999999999999999", "+-1", "\u{661}"] {
        assert_eq!(parse_u32(s), s.parse::<u32>().ok(), "input {:?}", s);
    }
}

#[test]
fn decimal_rendering() {
    for n in [0u32, 9, 10, 123, 4294967295] {
        assert_eq!(period_display(n), format!("{} s", n));
    }
}

#[test]
fn lowercase_and_equality() {
    assert_eq!(to_ascii_lowercase("AbC-\u{394}Z"), "abc-\u{394}z");
    assert!(str_eq("abc", "abc"));
    assert!(!str_eq("abc", "abd"));
    assert!(!str_eq("ab", "abc"));
}
