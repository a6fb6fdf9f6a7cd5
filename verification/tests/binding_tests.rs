use oxide::binding::{BindingEvent, KeyBinding, ShortcutBinding, ShortcutKeyEvent};
use oxide::keys::{default_touches, KeyCode, PointerButtonCode};
use oxide::types::Raccourcis;

#[test]
fn key_press_sets_the_keypad_binding() {
    let mut b = KeyBinding::new();
    let mut touches = default_touches();
    b.start(4);
    let events = vec![BindingEvent::Key { debug_name: "Num7".to_string() }];
    assert_eq!(b.frame(Some(1), &events, &mut touches), Some(4));
    assert_eq!(touches[4], "7");
    assert_eq!(b.binding_key, None);
}

#[test]
fn first_click_is_skipped_then_mouse_binds() {
    let mut b = KeyBinding::new();
    let mut touches = default_touches();
    b.start(0);
    let click = vec![BindingEvent::Pointer { button: PointerButtonCode::Primary }];
    assert_eq!(b.frame(Some(0), &click, &mut touches), None);
    assert_eq!(touches[0], "X");
    assert_eq!(b.binding_key, Some(0));
    assert!(!b.skip_first_click);
    let right = vec![BindingEvent::Other, BindingEvent::Pointer { button: PointerButtonCode::Secondary }];
    assert_eq!(b.frame(Some(1), &right, &mut touches), Some(0));
    assert_eq!(touches[0], "MouseRight");
    assert_eq!(b.binding_key, None);
}

#[test]
fn listening_times_out() {
    let mut b = KeyBinding::new();
    let mut touches = default_touches();
    b.start(2);
    let events = vec![BindingEvent::Key { debug_name: "A".to_string() }];
    assert_eq!(b.frame(Some(3), &events, &mut touches), None);
    assert_eq!(touches[2], "2");
    assert_eq!(b.binding_key, None);
    assert_eq!(b.frame(Some(0), &events, &mut touches), None);
    assert_eq!(touches[2], "2");
}

#[test]
fn shortcut_binding_records_modifiers() {
    let mut sb = ShortcutBinding::new();
    let mut kb = KeyBinding::new();
    kb.start(1);
    let mut r = Raccourcis::default();
    sb.start(4, &mut kb);
    assert_eq!(kb.binding_key, None);
    sb.frame(Some(1), &vec![], &mut r);
    assert_eq!(sb.binding_shortcut, Some(4));
    let presses = vec![
        ShortcutKeyEvent { ctrl: true, shift: false, alt: false, key: KeyCode::F },
        ShortcutKeyEvent { ctrl: false, shift: false, alt: false, key: KeyCode::G },
    ];
    sb.frame(Some(1), &presses, &mut r);
    assert_eq!(r.fullscreen, "Ctrl+F");
    assert_eq!(sb.binding_shortcut, None);
    assert_eq!(r.pause, "P");
}

#[test]
fn shortcut_binding_times_out() {
    let mut sb = ShortcutBinding::new();
    let mut kb = KeyBinding::new();
    let mut r = Raccourcis::default();
    sb.start(0, &mut kb);
    let presses = vec![ShortcutKeyEvent { ctrl: false, shift: false, alt: false, key: KeyCode::Space }];
    sb.frame(Some(5), &presses, &mut r);
    assert_eq!(r.pause, "P");
    assert_eq!(sb.binding_shortcut, None);
}
