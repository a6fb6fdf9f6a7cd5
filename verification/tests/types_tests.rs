use oxide::types::{
    default_langue_fr, default_theme_kiwano, shortcut_value_mut, AppTheme, CpuQuirks, Langue,
    QuirkPreset, Raccourcis, SHORTCUT_COUNT,
};

#[test]
fn language_labels_are_written_in_their_language() {
    assert_eq!(Langue::Francais.label(), "Français");
    assert_eq!(Langue::Anglais.label(), "English");
    assert_eq!(Langue::Espagnol.label(), "Español");
    assert_eq!(Langue::Allemand.label(), "Deutsch");
    assert_eq!(Langue::Russe.label(), "Русский");
    assert_eq!(Langue::Japonais.label(), "日本語");
    assert_eq!(Langue::all().len(), 12);
    assert_eq!(Langue::all()[0], Langue::Francais);
}

#[test]
fn defaults_are_french_and_kiwano() {
    assert_eq!(default_langue_fr(), Langue::Francais);
    assert_eq!(default_theme_kiwano(), AppTheme::Kiwano);
}

#[test]
fn theme_cycle_returns_after_three_steps() {
    assert_eq!(AppTheme::Kiwano.next(), AppTheme::Dark);
    assert_eq!(AppTheme::Dark.next(), AppTheme::Light);
    assert_eq!(AppTheme::Light.next(), AppTheme::Kiwano);
    for t in AppTheme::all() {
        assert_eq!(t.next().next().next(), t);
    }
    assert!(AppTheme::Kiwano.is_dark());
    assert!(AppTheme::Dark.is_dark());
    assert!(!AppTheme::Light.is_dark());
}

#[test]
fn preset_quirk_sets() {
    let none = CpuQuirks::default();
    assert_eq!(QuirkPreset::Chip8.quirks(), none);
    assert_eq!(QuirkPreset::Custom.quirks(), none);
    let c48 = QuirkPreset::Chip48.quirks();
    assert!(c48.shift_uses_vy && c48.jump_uses_vx && !c48.draw_clips);
    let sc = QuirkPreset::SuperChip.quirks();
    assert!(sc.shift_uses_vy && sc.jump_uses_vx && sc.draw_clips);
    assert!(!sc.load_store_increment_i && !sc.logic_clears_vf);
    assert_eq!(QuirkPreset::default(), QuirkPreset::Chip8);
}

#[test]
fn preset_round_trip() {
    for p in [QuirkPreset::Chip8, QuirkPreset::Chip48, QuirkPreset::SuperChip] {
        assert_eq!(QuirkPreset::from_quirks(p.quirks()), p);
    }
    assert_eq!(QuirkPreset::from_quirks(QuirkPreset::Custom.quirks()), QuirkPreset::Chip8);
    let odd = CpuQuirks { logic_clears_vf: true, ..CpuQuirks::default() };
    assert_eq!(QuirkPreset::from_quirks(odd), QuirkPreset::Custom);
}

#[test]
fn default_shortcuts() {
    let r = Raccourcis::default();
    assert_eq!(r.pause, "P");
    assert_eq!(r.reset, "R");
    assert_eq!(r.stop, "Echap");
    assert_eq!(r.charger_jeu, "O");
    assert_eq!(r.fullscreen, "F11");
    assert_eq!(
        [&r.savestate_1, &r.savestate_2, &r.savestate_3, &r.loadstate_1, &r.loadstate_2, &r.loadstate_3],
        ["F1", "F2", "F3", "F5", "F6", "F7"]
    );
    assert!(r.same_as(&r.duplicate()));
}

#[test]
fn shortcut_value_mut_reaches_each_row() {
    let mut r = Raccourcis::default();
    *shortcut_value_mut(&mut r, 0).unwrap() = "Space".to_string();
    *shortcut_value_mut(&mut r, 10).unwrap() = "F8".to_string();
    assert_eq!(r.pause, "Space");
    assert_eq!(r.loadstate_3, "F8");
    assert!(shortcut_value_mut(&mut r, SHORTCUT_COUNT).is_none());
    assert!(!r.same_as(&Raccourcis::default()));
}
