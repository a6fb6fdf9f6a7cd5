use oxide::keys::{
    binding_label, contains_double_plus, default_touches, format_shortcut, key_from_label,
    mouse_binding_label, mouse_from_label, normalize, parse_shortcut, shortcut_key_label,
    shortcut_pressed, split_char, KeyCode, PointerButtonCode, ShortcutSpec,
};

#[test]
fn default_keypad_mapping() {
    let t = default_touches();
    let expected = ["X", "1", "2", "3", "Q", "W", "E", "A", "S", "D", "Z", "C", "4", "R", "F", "V"];
    for i in 0..16 {
        assert_eq!(t[i], expected[i]);
    }
}

#[test]
fn key_labels_are_trimmed_and_case_insensitive() {
    assert_eq!(normalize("  esc "), "ESC");
    assert_eq!(key_from_label(" x "), Some(KeyCode::X));
    assert_eq!(key_from_label("num7"), Some(KeyCode::Num7));
    assert_eq!(key_from_label("7"), Some(KeyCode::Num7));
    assert_eq!(key_from_label("f12"), Some(KeyCode::F12));
    assert_eq!(key_from_label("Echap"), Some(KeyCode::Escape));
    assert_eq!(key_from_label("escape"), Some(KeyCode::Escape));
    assert_eq!(key_from_label("Enter"), Some(KeyCode::Enter));
    assert_eq!(key_from_label("space"), Some(KeyCode::Space));
    assert_eq!(key_from_label("Tab"), Some(KeyCode::Tab));
    assert_eq!(key_from_label("+"), Some(KeyCode::Plus));
    assert_eq!(key_from_label("plus_equals"), Some(KeyCode::Plus));
    assert_eq!(key_from_label("="), Some(KeyCode::Equals));
    assert_eq!(key_from_label("minus"), Some(KeyCode::Minus));
    assert_eq!(key_from_label("Left"), Some(KeyCode::ArrowLeft));
    assert_eq!(key_from_label("down"), Some(KeyCode::ArrowDown));
}

#[test]
fn unknown_key_labels() {
    assert_eq!(key_from_label(""), None);
    assert_eq!(key_from_label("F13"), None);
    assert_eq!(key_from_label("MouseLeft"), None);
    assert_eq!(key_from_label("Home"), None);
    assert_eq!(key_from_label("AB"), None);
}

#[test]
fn mouse_labels() {
    assert_eq!(mouse_from_label("MouseLeft"), Some(PointerButtonCode::Primary));
    assert_eq!(mouse_from_label(" mousegauche "), Some(PointerButtonCode::Primary));
    assert_eq!(mouse_from_label("MouseDroit"), Some(PointerButtonCode::Secondary));
    assert_eq!(mouse_from_label("MouseMilieu"), Some(PointerButtonCode::Middle));
    assert_eq!(mouse_from_label("MouseExtra1"), Some(PointerButtonCode::Extra1));
    assert_eq!(mouse_from_label("MouseExtra2"), Some(PointerButtonCode::Extra2));
    assert_eq!(mouse_from_label("X"), None);
}

#[test]
fn parse_shortcut_with_modifiers() {
    assert_eq!(
        parse_shortcut("Ctrl+Shift+F1"),
        Some(ShortcutSpec { ctrl: true, shift: true, alt: false, key: KeyCode::F1 })
    );
    assert_eq!(
        parse_shortcut("control + alt + s"),
        Some(ShortcutSpec { ctrl: true, shift: false, alt: true, key: KeyCode::S })
    );
    assert_eq!(parse_shortcut("P"), Some(ShortcutSpec { ctrl: false, shift: false, alt: false, key: KeyCode::P }));
    assert_eq!(parse_shortcut("Ctrl"), None);
    assert_eq!(parse_shortcut(""), None);
    assert_eq!(parse_shortcut("Ctrl+Bogus"), None);
}

#[test]
fn parse_shortcut_plus_key() {
    assert_eq!(parse_shortcut("+"), Some(ShortcutSpec { ctrl: false, shift: false, alt: false, key: KeyCode::Plus }));
    assert_eq!(parse_shortcut("Ctrl++"), Some(ShortcutSpec { ctrl: true, shift: false, alt: false, key: KeyCode::Plus }));
    assert!(contains_double_plus("Ctrl++"));
    assert!(!contains_double_plus("Ctrl+P"));
}

#[test]
fn last_key_word_wins() {
    assert_eq!(parse_shortcut("A+B").map(|s| s.key), Some(KeyCode::B));
}

#[test]
fn split_keeps_empty_pieces() {
    assert_eq!(split_char("Ctrl++", '+'), vec!["Ctrl".to_string(), String::new(), String::new()]);
    assert_eq!(split_char("", '+'), vec![String::new()]);
}

#[test]
fn shortcut_pressed_needs_exact_modifiers() {
    let s = vec![KeyCode::S];
    assert!(shortcut_pressed("Ctrl+S", true, false, false, &s));
    assert!(!shortcut_pressed("Ctrl+S", true, true, false, &s));
    assert!(!shortcut_pressed("Ctrl+S", false, false, false, &s));
    assert!(!shortcut_pressed("Ctrl+S", true, false, false, &vec![KeyCode::D]));
    assert!(shortcut_pressed("F11", false, false, false, &vec![KeyCode::A, KeyCode::F11]));
    assert!(!shortcut_pressed("nonsense", false, false, false, &s));
}

#[test]
fn key_labels_for_display() {
    assert_eq!(shortcut_key_label(KeyCode::ArrowUp), "Up");
    assert_eq!(shortcut_key_label(KeyCode::Escape), "Esc");
    assert_eq!(shortcut_key_label(KeyCode::Num5), "5");
    assert_eq!(shortcut_key_label(KeyCode::Q), "Q");
    assert_eq!(shortcut_key_label(KeyCode::F10), "F10");
    assert_eq!(shortcut_key_label(KeyCode::Plus), "+");
    assert_eq!(shortcut_key_label(KeyCode::Other), "?");
}

#[test]
fn format_then_parse_round_trips() {
    let label = format_shortcut(true, false, true, KeyCode::F5);
    assert_eq!(label, "Ctrl+Alt+F5");
    assert_eq!(parse_shortcut(&label), Some(ShortcutSpec { ctrl: true, shift: false, alt: true, key: KeyCode::F5 }));
    assert_eq!(format_shortcut(false, true, false, KeyCode::Space), "Shift+Space");
    assert_eq!(format_shortcut(false, false, false, KeyCode::Num1), "1");
}

#[test]
fn binding_labels() {
    assert_eq!(binding_label("Num1"), "1");
    assert_eq!(binding_label("ArrowUp"), "ArrowUp");
    assert_eq!(binding_label("Nu"), "Nu");
    assert_eq!(mouse_binding_label(PointerButtonCode::Primary), "MouseLeft");
    assert_eq!(mouse_binding_label(PointerButtonCode::Extra2), "MouseExtra2");
    assert_eq!(mouse_from_label(mouse_binding_label(PointerButtonCode::Middle)), Some(PointerButtonCode::Middle));
}

#[test]
fn unicode_white_space_is_trimmed() {
    assert_eq!(key_from_label("\u{3000}x\u{a0}"), Some(KeyCode::X));
    assert_eq!(key_from_label("\t F11 \n"), Some(KeyCode::F11));
}

#[test]
fn every_key_label_reads_back_in_any_case() {
    let keys = [
        KeyCode::A, KeyCode::M, KeyCode::Z, KeyCode::Num0, KeyCode::Num9, KeyCode::F1, KeyCode::F12,
        KeyCode::Escape, KeyCode::Enter, KeyCode::Space, KeyCode::Tab, KeyCode::Plus, KeyCode::Equals,
        KeyCode::Minus, KeyCode::ArrowLeft, KeyCode::ArrowRight, KeyCode::ArrowUp, KeyCode::ArrowDown,
    ];
    for k in keys {
        let label = shortcut_key_label(k);
        assert_eq!(key_from_label(label), Some(k));
        assert_eq!(key_from_label(&label.to_lowercase()), Some(k));
        for (c, s, a) in [(false, false, false), (true, false, false), (true, true, true), (false, true, true)] {
            let f = format_shortcut(c, s, a, k);
            assert_eq!(parse_shortcut(&f), Some(ShortcutSpec { ctrl: c, shift: s, alt: a, key: k }));
        }
    }
    assert_eq!(key_from_label(shortcut_key_label(KeyCode::Home)), None);
}
