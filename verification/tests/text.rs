use plz::text::{blank, byte_len, char_is_control, char_is_space, decimal_text, same_text, trim};

#[test]
fn character_classes_are_those_of_unicode() {
    for code in 0..=0x10ffffu32 {
        if let Some(c) = char::from_u32(code) {
            assert_eq!(char_is_space(c), c.is_whitespace(), "{code:x}");
            assert_eq!(char_is_control(c), c.is_control(), "{code:x}");
        }
    }
}

#[test]
fn trimming_removes_outer_space_only() {
    for s in ["", " ", "a", " a", "a ", " a b ", "\u{3000}é ü\u{2029}\n", "\u{200b}x", "\t\r\n"] {
        assert_eq!(trim(s), s.trim());
        assert_eq!(blank(s), s.trim().is_empty());
        assert_eq!(trim(trim(s)), trim(s));
    }
}

#[test]
fn texts_are_compared_in_full() {
    assert!(same_text("", ""));
    assert!(same_text("né", "né"));
    assert!(!same_text("né", "ne"));
    assert!(!same_text("a", "ab"));
    assert!(!same_text("ab", "a"));
    assert_eq!(byte_len("né"), 3);
}

#[test]
fn decimals_are_those_of_std() {
    for n in [0, 1, 9, 10, 11, 99, 100, 1234567890, u64::MAX] {
        assert_eq!(decimal_text(n), n.to_string());
    }
}
