use oxide::display::Display;
use oxide::keys::{default_touches, KeyCode, PointerButtonCode};
use oxide::savestate::{rom_hash_hex, PersistedSaveState, SaveStateMeta, CPU, SAVE_STATE_VERSION};
use oxide::session::{
    buzzer_active, key_held, merge_keypad, open_action_for_extension, rom_failed_message,
    rom_loaded_message, shortcut_actions_first, shortcut_actions_second, slot_status,
    terminal_shortcut_actions, GuardedAction, OpenAction, Session, ShortcutAction,
    ShortcutPresses, SlotLoad, StateFileLoad, overlay_text,
};

fn cpu_with(pc: u16) -> CPU {
    CPU { memory: vec![0u8; 4096], v: [0; 16], i: 0, pc, sp: 0, delay_timer: 0, sound_timer: 0 }
}

fn no_presses() -> ShortcutPresses {
    ShortcutPresses {
        pause: false,
        reset: false,
        stop: false,
        load_game: false,
        fullscreen: false,
        save_1: false,
        save_2: false,
        save_3: false,
        load_1: false,
        load_2: false,
        load_3: false,
        alt_enter: false,
    }
}

#[test]
fn pause_and_fullscreen_toggles() {
    let mut s = Session::new();
    s.toggle_pause("Paused", "Resumed", 1000);
    assert!(s.en_pause);
    assert_eq!(s.status_message, "Paused");
    s.toggle_pause("Paused", "Resumed", 1000);
    assert!(!s.en_pause);
    assert_eq!(s.status_message, "Resumed");
    assert!(s.set_fullscreen(true, "Fullscreen on", "Fullscreen off", 1000));
    assert_eq!(s.status_message, "Fullscreen on");
    assert!(!s.set_fullscreen(true, "on", "off", 1000));
    assert_eq!(s.status_message, "Fullscreen on");
    s.toggle_fullscreen("on", "off", 1000);
    assert!(!s.fullscreen);
    assert_eq!(s.status_message, "off");
}

#[test]
fn loading_a_rom_runs_it() {
    let mut s = Session::new();
    assert!(!s.can_interact_with_rom());
    s.load_rom(vec![0x00, 0xE0], "/roms/game.ch8".to_string(), &mut Display::new());
    assert!(s.rom_chargee && !s.en_pause && s.emulation_running());
    assert_eq!(s.rom_data, vec![0x00, 0xE0]);
    assert!(s.savestates.iter().all(|x| x.is_none()));
    s.toggle_pause("p", "r", 1000);
    assert!(!s.emulation_running());
}

#[test]
fn reset_and_stop() {
    let mut s = Session::new();
    let mut d = Display::new();
    d.set_pixel(2, 2);
    assert!(!s.reset_rom(&mut d, "No ROM", "ROM reset", 0, "bytes", 1000));
    assert_eq!(s.status_message, "No ROM");
    assert!(d.get_pixel(2, 2));
    s.load_rom(vec![1, 2, 3], "/roms/game.ch8".to_string(), &mut Display::new());
    s.en_pause = true;
    s.keypad[3] = true;
    let cpu = cpu_with(0x200);
    s.save_state_slot_commit(0, false, &cpu, &d, "game.ch8", "t", "Saved", 1000);
    assert!(s.reset_rom(&mut d, "No ROM", "ROM reset", 3, "bytes", 1000));
    assert!(s.rom_chargee && !s.en_pause);
    assert_eq!(s.status_message, "ROM reset (3 bytes)");
    assert!(!d.get_pixel(2, 2));
    assert_eq!(s.keypad, [false; 16]);
    assert!(s.savestates[0].is_some());
    assert_eq!(s.rom_path.as_deref(), Some("/roms/game.ch8"));
    d.set_pixel(1, 1);
    s.keypad[0] = true;
    s.stop_emulation(&mut d, "Stopped", 1000);
    assert!(!s.rom_chargee && s.rom_data.is_empty());
    assert_eq!(s.status_message, "Stopped");
    assert!(!d.get_pixel(1, 1));
    assert_eq!(s.keypad, [false; 16]);
    assert!(s.savestates.iter().all(|x| x.is_none()));
    assert_eq!(s.rom_path, None);
    assert_eq!(s.last_rom_path.as_deref(), Some("/roms/game.ch8"));
}

#[test]
fn rom_flag_follows_rom_data() {
    let mut s = Session::new();
    s.rom_chargee = true;
    s.sync_rom_flag();
    assert!(!s.rom_chargee);
}

#[test]
fn save_then_load_a_slot() {
    let mut s = Session::new();
    s.load_rom(vec![0x12, 0x00], "/roms/game.ch8".to_string(), &mut Display::new());
    let mut cpu = cpu_with(0x234);
    cpu.v[3] = 9;
    let mut display = Display::new();
    display.set_pixel(1, 1);
    assert!(s.request_save(0, true));
    s.save_state_slot_commit(0, true, &cpu, &display, "pong.ch8", "2024-05-06 07:08:09", "Saved slot", 1000);
    assert_eq!(s.status_message, "Saved slot 1 - 2024-05-06 07:08:09 - pong.ch8");
    let mut cpu2 = cpu_with(0);
    let mut display2 = Display::new();
    let outcome = s.load_state_slot(0, &mut cpu2, &mut display2, "Loaded slot", "Empty slot", 1000);
    assert_eq!(outcome, SlotLoad::Restored { reload_program: false });
    assert_eq!(cpu2.pc, 0x234);
    assert_eq!(cpu2.v[3], 9);
    assert_eq!(display2.pixels, display.pixels);
    assert_eq!(s.status_message, "Loaded slot 1");
    assert_eq!(s.load_state_slot(2, &mut cpu2, &mut display2, "L", "Empty slot", 1000), SlotLoad::Empty);
    assert_eq!(s.status_message, "Empty slot 3");
    assert_eq!(s.load_state_slot(3, &mut cpu2, &mut display2, "L", "E", 1000), SlotLoad::Ignored);
}

#[test]
fn shortcut_save_has_short_status_and_manual_overwrite_asks() {
    let mut s = Session::new();
    s.load_rom(vec![1], "/roms/game.ch8".to_string(), &mut Display::new());
    let cpu = cpu_with(0x200);
    let display = Display::new();
    s.save_state_slot_commit(1, false, &cpu, &display, "r", "t", "Saved", 1000);
    assert_eq!(s.status_message, "Saved 2");
    assert!(s.request_save(1, false));
    assert!(!s.request_save(1, true));
    assert_eq!(s.confirm_overwrite_slot, Some(1));
    assert_eq!(s.answer_overwrite(true), Some(1));
    assert_eq!(s.confirm_overwrite_slot, None);
    assert!(!s.request_save(1, true));
    assert_eq!(s.answer_overwrite(false), None);
    assert_eq!(s.confirm_overwrite_slot, None);
}

#[test]
fn persisted_payload_and_install() {
    let mut s = Session::new();
    s.load_rom(b"abc".to_vec(), "/roms/abc.ch8".to_string(), &mut Display::new());
    assert!(s.persisted_payload(0).is_none());
    let cpu = cpu_with(0x300);
    s.save_state_slot_commit(0, true, &cpu, &Display::new(), "abc.ch8", "ts", "Saved", 1000);
    let p = s.persisted_payload(0).unwrap();
    assert_eq!(p.version, SAVE_STATE_VERSION);
    assert_eq!(p.rom_name, "abc.ch8");
    assert_eq!(p.rom_hash, rom_hash_hex(b"abc"));
    assert!(p.rom_bytes.is_empty());
    assert_eq!(p.rom_path, "/roms/abc.ch8");
    let mut other = Session::new();
    other.last_rom_path = Some("/old.ch8".to_string());
    other.save_state_slot_commit(1, false, &cpu, &Display::new(), "x", "t", "Saved", 1000);
    assert_eq!(other.persisted_payload(1).unwrap().rom_path, "/old.ch8");
    assert_eq!(p.slot, 0);
    assert_eq!(p.snapshot.cpu.pc, 0x300);
    let mut fresh = Session::new();
    fresh.load_rom(b"abc".to_vec(), "/roms/abc.ch8".to_string(), &mut Display::new());
    let h = rom_hash_hex(b"abc");
    let q = s.persisted_payload(0).unwrap();
    assert!(!fresh.install_persisted(1, q, &h));
    assert!(fresh.install_persisted(0, p, &h));
    assert_eq!(fresh.savestate_meta[0].as_ref().unwrap().timestamp, "ts");
}

#[test]
fn loading_a_state_file() {
    let mut s = Session::new();
    let mut cpu = cpu_with(0);
    let mut display = Display::new();
    let rom = vec![9u8, 9];
    let payload = |hash: String, bytes: Vec<u8>| PersistedSaveState {
        version: 1,
        rom_name: "x".to_string(),
        rom_hash: hash,
        rom_bytes: bytes,
        rom_path: "/roms/x.ch8".to_string(),
        slot: 0,
        meta: SaveStateMeta { name: "x".to_string(), timestamp: "t".to_string() },
        snapshot: oxide::savestate::capture_snapshot(&cpu_with(0x2F0), &Display::new()),
    };
    let h = rom_hash_hex(&rom);
    // No ROM loaded and no ROM bytes to be found: the status says so.
    assert_eq!(
        s.load_state_file(payload(h.clone(), vec![]), None, &mut cpu, &mut display, "Loaded", "No ROM", "a.state", 10),
        StateFileLoad::NoRom
    );
    assert_eq!(s.status_message, "No ROM: a.state");
    assert_eq!(s.overlay_message, "No ROM: a.state");
    assert_eq!(s.overlay_until_ms, 1010);
    // The recorded ROM has another hash.
    assert_eq!(
        s.load_state_file(payload(h.clone(), vec![]), Some(vec![1]), &mut cpu, &mut display, "Loaded", "No ROM", "a.state", 10),
        StateFileLoad::NoRom
    );
    assert!(!s.rom_chargee);
    // No ROM loaded: the state brings its ROM from the recorded path.
    assert_eq!(
        s.load_state_file(payload(h.clone(), vec![]), Some(rom.clone()), &mut cpu, &mut display, "Loaded", "No ROM", "a.state", 20),
        StateFileLoad::Restored { reload_program: false }
    );
    assert_eq!(cpu.pc, 0x2F0);
    assert_eq!(s.rom_data, rom);
    assert!(s.rom_chargee && !s.en_pause);
    assert_eq!(s.rom_path.as_deref(), Some("/roms/x.ch8"));
    assert_eq!(s.status_message, "Loaded: a.state");
    // With a ROM loaded, a state of another ROM is left alone.
    let before = s.status_message.clone();
    assert_eq!(
        s.load_state_file(payload("other".to_string(), vec![]), None, &mut cpu, &mut display, "Loaded", "No ROM", "b.state", 30),
        StateFileLoad::OtherRom
    );
    assert_eq!(s.status_message, before);
    // ROM bytes stored in the file replace the loaded ROM.
    assert_eq!(
        s.load_state_file(payload(h.clone(), vec![7]), None, &mut cpu, &mut display, "Loaded", "No ROM", "c.state", 40),
        StateFileLoad::Restored { reload_program: false }
    );
    assert_eq!(s.rom_data, vec![7]);
}

#[test]
fn state_file_brings_its_stored_rom() {
    let mut s = Session::new();
    let mut cpu = cpu_with(0);
    let mut display = Display::new();
    let rom = vec![3u8, 4, 5];
    let p = PersistedSaveState {
        version: 1,
        rom_name: "y".to_string(),
        rom_hash: rom_hash_hex(&rom),
        rom_bytes: rom.clone(),
        rom_path: String::new(),
        slot: 1,
        meta: SaveStateMeta { name: "y".to_string(), timestamp: "t".to_string() },
        snapshot: oxide::savestate::capture_snapshot(&cpu_with(0x250), &Display::new()),
    };
    let out = s.load_state_file(p, None, &mut cpu, &mut display, "Loaded", "No ROM", "y.state", 0);
    assert_eq!(out, StateFileLoad::Restored { reload_program: false });
    assert_eq!(s.rom_data, rom);
    assert_eq!(cpu.pc, 0x250);
}

#[test]
fn status_messages() {
    assert_eq!(slot_status("Slot", 0), "Slot 1");
    assert_eq!(rom_loaded_message("ROM loaded", "pong.ch8", 246, "bytes"), "ROM loaded: pong.ch8 (246 bytes)");
    assert_eq!(rom_failed_message("ROM failed", "x.ch8", "not found"), "ROM failed: x.ch8 (not found)");
}

#[test]
fn shortcut_dispatch() {
    let mut p = no_presses();
    p.pause = true;
    p.fullscreen = true;
    p.save_2 = true;
    p.alt_enter = true;
    assert_eq!(shortcut_actions_first(p, false, true), vec![ShortcutAction::TogglePause, ShortcutAction::ToggleFullscreen]);
    assert_eq!(shortcut_actions_first(p, false, false), vec![ShortcutAction::ToggleFullscreen]);
    assert_eq!(shortcut_actions_first(p, true, true), vec![]);
    assert_eq!(
        shortcut_actions_second(p, false, true),
        vec![ShortcutAction::SaveSlot(1), ShortcutAction::ToggleFullscreen]
    );
    assert_eq!(shortcut_actions_second(p, false, false), vec![ShortcutAction::ToggleFullscreen]);
    assert_eq!(
        terminal_shortcut_actions(p, false),
        vec![
            GuardedAction { action: ShortcutAction::FlipPause, needs_rom: true },
            GuardedAction { action: ShortcutAction::FlipFullscreen, needs_rom: false },
            GuardedAction { action: ShortcutAction::SaveSlot(1), needs_rom: true },
        ]
    );
}

#[test]
fn opened_files_by_extension() {
    assert_eq!(open_action_for_extension("STATE"), OpenAction::LoadState);
    assert_eq!(open_action_for_extension("ch8"), OpenAction::LoadRom);
    assert_eq!(open_action_for_extension("Bin"), OpenAction::LoadRom);
    assert_eq!(open_action_for_extension("txt"), OpenAction::Ignore);
    assert_eq!(open_action_for_extension(""), OpenAction::Ignore);
}

#[test]
fn keypad_merges_every_source() {
    let touches = default_touches();
    let keys = vec![KeyCode::X, KeyCode::W];
    let buttons = vec![PointerButtonCode::Primary];
    let mut terminal = [false; 16];
    terminal[15] = true;
    let mut gamepad = [false; 16];
    gamepad[3] = true;
    let states = merge_keypad(true, &touches, &keys, &buttons, &terminal, &gamepad);
    let pressed: Vec<usize> = (0..16).filter(|i| states[*i]).collect();
    assert_eq!(pressed, vec![0, 3, 5, 15]);
    assert_eq!(merge_keypad(false, &touches, &keys, &buttons, &terminal, &gamepad), [false; 16]);
    assert!(key_held("MouseLeft", &vec![], &buttons));
    assert!(!key_held("MouseRight", &vec![], &buttons));
}

#[test]
fn buzzer_needs_sound_volume_and_timer() {
    assert!(buzzer_active(true, 50, 3));
    assert!(!buzzer_active(false, 50, 3));
    assert!(!buzzer_active(true, 0, 3));
    assert!(!buzzer_active(true, 50, 0));
}

#[test]
fn startup_reset_forgets_the_rom() {
    let mut s = Session::new();
    s.load_rom(vec![1, 2], "/roms/game.ch8".to_string(), &mut Display::new());
    s.en_pause = true;
    s.fullscreen = true;
    s.keypad[5] = true;
    let mut d = Display::new();
    d.set_pixel(0, 0);
    s.reset_runtime_on_startup(&mut d);
    assert!(s.rom_data.is_empty() && !s.rom_chargee && !s.en_pause);
    assert_eq!(s.keypad, [false; 16]);
    assert!(!d.get_pixel(0, 0));
    assert_eq!(s.rom_path, None);
    assert!(s.fullscreen);
}

#[test]
fn loading_clears_screen_and_keypad_and_records_path() {
    let mut s = Session::new();
    let mut d = Display::new();
    d.set_pixel(9, 9);
    s.keypad[1] = true;
    s.load_rom(vec![1, 2], "/r/pong.ch8".to_string(), &mut d);
    assert!(!d.get_pixel(9, 9));
    assert_eq!(s.keypad, [false; 16]);
    assert_eq!(s.rom_path.as_deref(), Some("/r/pong.ch8"));
    assert_eq!(s.last_rom_path.as_deref(), Some("/r/pong.ch8"));
}

#[test]
fn slots_survive_pause_and_fullscreen() {
    let mut s = Session::new();
    s.load_rom(vec![1], "/r/a.ch8".to_string(), &mut Display::new());
    let cpu = cpu_with(0x222);
    s.save_state_slot_commit(2, false, &cpu, &Display::new(), "a", "t", "Saved", 1000);
    s.toggle_pause("p", "r", 1000);
    s.toggle_fullscreen("on", "off", 1000);
    s.set_fullscreen(false, "on", "off", 1000);
    s.sync_rom_flag();
    let mut cpu2 = cpu_with(0);
    let mut d2 = Display::new();
    assert_eq!(s.load_state_slot(2, &mut cpu2, &mut d2, "L", "E", 1000), SlotLoad::Restored { reload_program: false });
    assert_eq!(cpu2.pc, 0x222);
}

#[test]
fn overlay_shows_pause_or_recent_message() {
    assert_eq!(overlay_text(true, "msg", 5000, 0, "Paused"), Some("Paused".to_string()));
    assert_eq!(overlay_text(false, "msg", 500, 1000, "Paused"), Some("msg".to_string()));
    assert_eq!(overlay_text(false, "msg", 1000, 1000, "Paused"), None);
    assert_eq!(overlay_text(false, "", 0, 1000, "Paused"), None);
    let mut s = Session::new();
    s.toggle_pause("Paused", "Resumed", 2500);
    assert_eq!(s.overlay_message, "Paused");
    assert_eq!(s.overlay_until_ms, 3500);
    s.report_status("Hello".to_string(), u64::MAX - 10);
    assert_eq!(s.status_message, "Hello");
    assert_eq!(s.overlay_until_ms, u64::MAX);
}
