use oxide::terminal::{
    contains_text, displayed_text, join_with_newlines, log_config_changes, log_line,
    seed_terminal_boot_logs, terminal_timestamp, theme_label, BootWords, LoggedConfig,
    StatusLogger, TerminalEntry, TerminalLog, TerminalWords,
};
use oxide::types::{AppTheme, Langue};

fn words() -> TerminalWords {
    TerminalWords {
        terminal_theme: "Theme".to_string(),
        terminal_language: "Language".to_string(),
        terminal_vsync: "VSync".to_string(),
        terminal_fps: "FPS".to_string(),
        terminal_unlimited: "unlimited".to_string(),
        terminal_fullscreen: "Fullscreen".to_string(),
        terminal_sound: "Sound".to_string(),
        terminal_enabled: "enabled".to_string(),
        terminal_disabled: "disabled".to_string(),
        terminal_kiwano: "kiwano".to_string(),
        terminal_dark: "dark".to_string(),
        terminal_light: "light".to_string(),
    }
}

fn config() -> LoggedConfig {
    LoggedConfig { theme: AppTheme::Kiwano, langue: Langue::Anglais, vsync: true, fullscreen: false, son_active: true }
}

fn texts(entries: &[TerminalEntry]) -> Vec<(bool, String)> {
    entries.iter().map(|e| (e.timestamped, e.message.clone())).collect()
}

#[test]
fn log_text_is_the_lines_joined() {
    let mut log = TerminalLog::new();
    log.push_plain_line("first".to_string());
    log.push_plain_line(String::new());
    log.push_plain_line("third".to_string());
    assert_eq!(log.lines, vec!["first", "", "third"]);
    assert_eq!(log.text, "first\n\nthird");
    assert_eq!(log.text, join_with_newlines(&log.lines));
    assert_eq!(log.export_text(), "first\n\nthird");
}

#[test]
fn leading_empty_lines_leave_no_newline() {
    let mut log = TerminalLog::new();
    log.push_plain_line(String::new());
    log.push_plain_line("a".to_string());
    assert_eq!(log.text, "a");
    assert_eq!(join_with_newlines(&log.lines), "\na");
}

#[test]
fn export_uses_lines_when_text_is_empty() {
    let log = TerminalLog { lines: vec!["x".to_string(), "y".to_string()], text: String::new() };
    assert_eq!(log.export_text(), "x\ny");
}

#[test]
fn uptime_timestamps() {
    assert_eq!(terminal_timestamp(0, 0), "00:00:00.000");
    assert_eq!(terminal_timestamp(3723, 45), "01:02:03.045");
    assert_eq!(terminal_timestamp(360_000, 999), "100:00:00.999");
}

#[test]
fn log_lines_carry_level_and_timestamp() {
    assert_eq!(log_line("00:00:01.000", "I", "ROM loaded"), "00:00:01.000 |I| ROM loaded");
}

#[test]
fn a_status_is_logged_once() {
    let mut s = StatusLogger { last_status_logged: String::new() };
    assert_eq!(s.status_line("", "t"), None);
    assert_eq!(s.status_line("Paused", "t0"), Some("t0 |I| Paused".to_string()));
    assert_eq!(s.status_line("Paused", "t1"), None);
    assert_eq!(s.status_line("Running", "t2"), Some("t2 |I| Running".to_string()));
    assert_eq!(s.last_status_logged, "Running");
}

#[test]
fn theme_labels_for_settings() {
    let w = words();
    assert_eq!(theme_label(AppTheme::Kiwano, &w, "(default)"), "Kiwano (default)");
    assert_eq!(theme_label(AppTheme::Dark, &w, "(default)"), "Dark");
    let mut w2 = words();
    w2.terminal_light = "ßig".to_string();
    assert_eq!(theme_label(AppTheme::Light, &w2, "x"), "SSig");
    w2.terminal_dark = String::new();
    assert_eq!(theme_label(AppTheme::Dark, &w2, "x"), "");
    assert_eq!(w.state_label(true), "enabled");
    assert_eq!(w.fps_label(false), "unlimited");
    assert_eq!(w.fps_label(true), "60");
}

#[test]
fn config_changes_are_logged_in_order() {
    let w = words();
    let mut last = config();
    let mut now = config();
    now.vsync = false;
    now.theme = AppTheme::Dark;
    let msgs = log_config_changes(&mut last, now, &w);
    assert_eq!(msgs, vec!["Theme: dark", "VSync: disabled", "FPS : unlimited"]);
    assert_eq!(last, now);
    assert!(log_config_changes(&mut last, now, &w).is_empty());
}

#[test]
fn boot_lines_are_written_once() {
    let w = words();
    let b = BootWords {
        legend: "legend".to_string(),
        info_legend: "info".to_string(),
        platform: "Platform".to_string(),
        runtime_ready: "ready".to_string(),
        core_init: "core".to_string(),
        display_init: "display".to_string(),
        input_init: "input".to_string(),
        audio_init: "audio".to_string(),
    };
    let mut seeded = false;
    let mut last = LoggedConfig { theme: AppTheme::Light, ..config() };
    let entries = seed_terminal_boot_logs(&mut seeded, &mut last, config(), &w, &b, "1.2.3", "linux", "x86_64");
    let expected: Vec<(bool, String)> = vec![
        (false, "legend"),
        (false, "info"),
        (false, ""),
        (true, "Oxide v1.2.3"),
        (true, "Platform: linux (x86_64)"),
        (true, "ready"),
        (true, "Theme: kiwano"),
        (true, "Language: English"),
        (true, "FPS : 60"),
        (true, "VSync: enabled"),
        (true, "Fullscreen: disabled"),
        (true, "Sound: enabled"),
        (true, "core"),
        (true, "display"),
        (true, "input"),
        (true, "audio (enabled)"),
    ]
    .into_iter()
    .map(|(t, s)| (t, s.to_string()))
    .collect();
    assert_eq!(texts(&entries), expected);
    assert!(seeded);
    assert_eq!(last, config());
    let again = seed_terminal_boot_logs(&mut seeded, &mut last, config(), &w, &b, "1.2.3", "linux", "x86_64");
    assert!(again.is_empty());
}

#[test]
fn search_filters_lines_case_insensitively() {
    let mut log = TerminalLog::new();
    log.push_plain_line("ROM loaded".to_string());
    log.push_plain_line("Sound enabled".to_string());
    log.push_plain_line("rom reset".to_string());
    assert_eq!(displayed_text(&log, "  Rom "), "ROM loaded\nrom reset");
    assert_eq!(displayed_text(&log, "   "), log.text);
    assert_eq!(displayed_text(&log, "zzz"), "");
    assert!(contains_text("hello world", "lo w"));
    assert!(contains_text("abc", ""));
    assert!(!contains_text("ab", "abc"));
}
