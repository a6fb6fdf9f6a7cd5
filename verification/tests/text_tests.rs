use oxide::text::{
    chars_of, nw, push_decimal, push_decimal_padded, push_hex, push_hex_fixed, slot_width_label,
    string_of, with_shortcut,
};

#[test]
fn nw_replaces_spaces_with_non_breaking_spaces() {
    assert_eq!(nw("Load a game"), "Load\u{00A0}a\u{00A0}game");
    assert_eq!(nw("none"), "none");
    assert_eq!(nw(""), "");
}

#[test]
fn with_shortcut_adds_the_hint_in_parentheses() {
    assert_eq!(with_shortcut("Pause", "P"), "Pause (P)");
    assert_eq!(with_shortcut("Pause", ""), "Pause");
}

#[test]
fn slot_width_label_uses_two_spaces() {
    assert_eq!(slot_width_label("1 - (empty)", "F1"), "1 - (empty)  F1");
    assert_eq!(slot_width_label("left", ""), "left");
}

#[test]
fn number_formatting() {
    let mut s = String::new();
    push_decimal(&mut s, 0);
    s.push(' ');
    push_decimal(&mut s, 1234567);
    s.push(' ');
    push_decimal_padded(&mut s, 7, 3);
    s.push(' ');
    push_decimal_padded(&mut s, 12345, 2);
    s.push(' ');
    push_hex_fixed(&mut s, 0x2a, 4, true);
    s.push(' ');
    push_hex(&mut s, 0xbeef, false);
    s.push(' ');
    push_hex(&mut s, 0, true);
    assert_eq!(s, "0 1234567 007 12345 002A beef 0");
    let mut t = String::new();
    push_decimal(&mut t, u64::MAX);
    assert_eq!(t, u64::MAX.to_string());
    let mut u = String::new();
    push_hex_fixed(&mut u, 0xABCD, 4, true);
    assert_eq!(u, format!("{:04X}", 0xABCD));
    let mut w = String::new();
    push_hex_fixed(&mut w, 0x1_2345, 4, false);
    assert_eq!(w, "2345");
}

#[test]
fn chars_round_trip() {
    let v = chars_of("héllo");
    assert_eq!(v, vec!['h', 'é', 'l', 'l', 'o']);
    assert_eq!(string_of(&v), "héllo");
}
