use oxide::settings::{
    default_focus_main, default_sound_volume, default_video_scale, focus_settings_on,
    reset_tab_values, SettingValues, Settings,
};
use oxide::types::{AppTheme, CpuQuirks, Langue, OngletsSettings, QuirkPreset};

#[test]
fn default_helpers() {
    assert_eq!(default_sound_volume(), 100);
    assert_eq!(default_video_scale(), 2);
    assert!(default_focus_main());
}

#[test]
fn first_launch_values() {
    let s = Settings::new();
    let v = &s.live;
    assert_eq!(v.theme, AppTheme::Kiwano);
    assert_eq!(v.langue, Langue::Francais);
    assert!(v.vsync);
    assert_eq!(v.video_scale, 2);
    assert_eq!(v.touches[0], "X");
    assert_eq!(v.raccourcis.pause, "P");
    assert_eq!(v.cycles_par_seconde, 700);
    assert!(v.son_active);
    assert_eq!(v.sound_volume, 100);
    assert_eq!(v.quirks, CpuQuirks::default());
    assert_eq!(v.quirks_preset, QuirkPreset::Chip8);
    assert!(!v.terminal_active);
    assert!(!s.fenetre_settings);
    assert_eq!(s.onglet_settings, OngletsSettings::Emulateur);
    assert!(!s.has_pending_changes());
}

#[test]
fn apply_commits_temporary_values() {
    let mut s = Settings::new();
    s.open_from_menu(OngletsSettings::Video);
    assert!(s.fenetre_settings);
    s.temp.video_scale = 4;
    s.temp.vsync = false;
    assert!(s.has_pending_changes());
    s.apply_temp_values();
    assert_eq!(s.live.video_scale, 4);
    assert!(!s.live.vsync);
    assert!(!s.has_pending_changes());
    s.apply_temp_values();
    assert_eq!(s.live.video_scale, 4);
}

#[test]
fn apply_recognises_the_preset() {
    let mut s = Settings::new();
    s.temp.quirks = QuirkPreset::SuperChip.quirks();
    s.temp.quirks_preset = QuirkPreset::Custom;
    s.apply_temp_values();
    assert_eq!(s.live.quirks_preset, QuirkPreset::SuperChip);
}

#[test]
fn cancel_brings_back_the_opening_values() {
    let mut s = Settings::new();
    s.open_from_menu(OngletsSettings::Emulateur);
    s.temp.theme = AppTheme::Light;
    s.temp.cycles_par_seconde = 1500;
    s.apply_temp_values();
    assert_eq!(s.live.theme, AppTheme::Light);
    s.press_cancel();
    assert_eq!(s.live.theme, AppTheme::Kiwano);
    assert_eq!(s.live.cycles_par_seconde, 700);
    assert_eq!(s.temp.theme, AppTheme::Kiwano);
    assert!(!s.fenetre_settings);
}

#[test]
fn ok_applies_and_closes() {
    let mut s = Settings::new();
    s.open_from_menu(OngletsSettings::Audio);
    s.temp.sound_volume = 30;
    s.press_ok();
    assert_eq!(s.live.sound_volume, 30);
    assert!(!s.fenetre_settings);
}

#[test]
fn tab_reset_only_touches_its_tab() {
    let mut v = SettingValues::defaults();
    v.video_scale = 5;
    v.sound_volume = 10;
    v.theme = AppTheme::Dark;
    reset_tab_values(&mut v, OngletsSettings::Video);
    assert_eq!(v.video_scale, 2);
    assert_eq!(v.sound_volume, 10);
    assert_eq!(v.theme, AppTheme::Dark);
    reset_tab_values(&mut v, OngletsSettings::Audio);
    assert_eq!(v.sound_volume, 100);
    reset_tab_values(&mut v, OngletsSettings::Emulateur);
    assert_eq!(v.theme, AppTheme::Kiwano);
}

#[test]
fn reset_current_tab_uses_the_open_tab() {
    let mut s = Settings::new();
    s.open_from_menu(OngletsSettings::Controles);
    s.temp.touches[0] = "K".to_string();
    s.temp.raccourcis.pause = "Space".to_string();
    s.reset_current_settings_tab_to_default();
    assert_eq!(s.temp.touches[0], "X");
    assert_eq!(s.temp.raccourcis.pause, "Space");
}

#[test]
fn reset_everything_gives_defaults() {
    let mut s = Settings::new();
    s.live.theme = AppTheme::Light;
    s.temp.theme = AppTheme::Dark;
    s.temp.terminal_active = true;
    s.confirm_reset_all = true;
    s.confirm_reset_everything();
    assert_eq!(s.live.theme, AppTheme::Kiwano);
    assert!(!s.live.terminal_active);
    assert!(!s.confirm_reset_all);
    assert!(!s.has_pending_changes());
}

#[test]
fn presets_and_quirk_sync() {
    let mut s = Settings::new();
    s.set_temp_quirks_preset(QuirkPreset::Chip48);
    assert_eq!(s.temp.quirks, QuirkPreset::Chip48.quirks());
    s.set_temp_quirks_preset(QuirkPreset::Custom);
    assert_eq!(s.temp.quirks, QuirkPreset::Chip48.quirks());
    assert_eq!(s.temp.quirks_preset, QuirkPreset::Custom);
    s.sync_temp_quirks_preset_from_values();
    assert_eq!(s.temp.quirks_preset, QuirkPreset::Chip48);
}

#[test]
fn language_choice_applies_at_once() {
    let mut s = Settings::new();
    s.choose_temp_langue(Langue::Anglais);
    assert_eq!(s.live.langue, Langue::Anglais);
    assert_eq!(s.temp.langue, Langue::Anglais);
}

#[test]
fn terminal_activation_requests_focus() {
    let mut s = Settings::new();
    s.temp.terminal_active = true;
    s.apply_temp_values();
    assert!(s.focus_terminal_requested);
    let mut keys = [true; 16];
    s.close_terminal(&mut keys);
    assert_eq!(keys, [false; 16]);
    assert!(!s.live.terminal_active && !s.temp.terminal_active);
}

#[test]
fn window_frames_and_focus() {
    let mut s = Settings::new();
    s.open_from_menu(OngletsSettings::Debug);
    s.end_frame(false);
    assert!(s.settings_position_initialized);
    s.end_frame(true);
    assert!(!s.fenetre_settings);
    assert!(focus_settings_on(true, true, false, false));
    assert!(focus_settings_on(true, true, true, true));
    assert!(!focus_settings_on(true, true, true, false));
    assert!(!focus_settings_on(false, true, false, true));
}

#[test]
fn theme_button_cycles() {
    let mut s = Settings::new();
    s.cycle_theme();
    assert_eq!(s.live.theme, AppTheme::Dark);
    s.cycle_theme();
    s.cycle_theme();
    assert_eq!(s.live.theme, AppTheme::Kiwano);
}

#[test]
fn first_frame_captures_live_values() {
    let mut s = Settings::new();
    s.live.video_scale = 3;
    s.sync_on_first_frame();
    assert_eq!(s.snapshot.video_scale, 3);
    assert_eq!(s.temp.video_scale, 3);
}

#[test]
fn saved_state_has_the_window_closed() {
    let mut s = Settings::new();
    s.open_from_menu(OngletsSettings::Audio);
    s.temp.sound_volume = 40;
    s.confirm_reset_all = true;
    let saved = s.for_save();
    assert!(!saved.fenetre_settings);
    assert!(!saved.focus_settings_requested && !saved.confirm_reset_all);
    assert_eq!(saved.temp.sound_volume, 40);
    assert_eq!(saved.onglet_settings, OngletsSettings::Audio);
    assert!(s.fenetre_settings);
}
