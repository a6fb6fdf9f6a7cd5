use oxide::display::Display;
use oxide::savestate::{
    accepts_persisted, capture_snapshot, default_savestate_meta, default_savestates,
    is_slot_file, latest_slot_file, restore_snapshot, rom_hash_hex, sanitize_filename,
    savestate_dir_name, slot_file_name, slot_rom_name, slot_file_prefix, slot_label_text, starts_with,
    EmuSnapshot, PersistedSaveState, SaveFileEntry, SaveStateMeta, CPU, SAVE_STATE_VERSION,
};

fn sample_cpu() -> CPU {
    let mut memory = vec![0u8; 4096];
    memory[0x200] = 0x12;
    memory[0x201] = 0x34;
    let mut v = [0u8; 16];
    v[0] = 7;
    v[15] = 1;
    CPU { memory, v, i: 0x300, pc: 0x200, sp: 2, delay_timer: 9, sound_timer: 4 }
}

#[test]
fn rom_hash_is_fnv1a_64_in_hex() {
    assert_eq!(rom_hash_hex(b""), "cbf29ce484222325");
    assert_eq!(rom_hash_hex(b"a"), "af63dc4c8601ec8c");
    assert_eq!(rom_hash_hex(b"foobar"), "85944171f73967e8");
    assert_eq!(rom_hash_hex(&[0, 1, 2, 3]), "4475327f98e05411");
    assert_eq!(rom_hash_hex(&[0x12, 0x34]).len(), 16);
    assert_eq!(rom_hash_hex(&[0x12, 0x34]), "086f8007b51f1073");
}

#[test]
fn sanitize_keeps_safe_characters_only() {
    assert_eq!(sanitize_filename("Pong (1990).ch8"), "Pong__1990_.ch8");
    assert_eq!(sanitize_filename("a-b_c.d"), "a-b_c.d");
    assert_eq!(sanitize_filename("été"), "_t_");
    assert_eq!(sanitize_filename(""), "rom");
    let once = sanitize_filename("x/y\\z");
    assert_eq!(once, "x_y_z");
    assert_eq!(sanitize_filename(&once), once);
}

#[test]
fn savestate_folder_name() {
    assert_eq!(savestate_dir_name(Some("Pong"), b""), None);
    assert_eq!(savestate_dir_name(Some("Pong 2"), b"a"), Some("Pong_2-af63dc4c8601ec8c".to_string()));
    assert_eq!(savestate_dir_name(None, b"a"), Some("rom-af63dc4c8601ec8c".to_string()));
}

#[test]
fn slot_file_names() {
    assert_eq!(slot_file_prefix("Pong", 0), "Pong_01_");
    assert_eq!(slot_file_prefix("my rom", 2), "my_rom_03_");
    assert_eq!(
        slot_file_name("Pong", 1, "2024-01-02_03-04-05"),
        "Pong_02_2024-01-02_03-04-05.state"
    );
    assert!(starts_with("Pong_01_x.state", "Pong_01_"));
    assert!(!starts_with("Pong_0", "Pong_01_"));
    assert!(starts_with("anything", ""));
}

fn entry(name: &str, ext: Option<&str>, modified: i128) -> SaveFileEntry {
    SaveFileEntry { name: name.to_string(), extension: ext.map(|e| e.to_string()), modified }
}

#[test]
fn latest_slot_file_picks_newest_matching() {
    let entries = vec![
        entry("Pong_01_a.state", Some("state"), 10),
        entry("Pong_01_b.txt", Some("txt"), 99),
        entry("Pong_02_c.state", Some("state"), 50),
        entry("Pong_01_d.state", Some("state"), 30),
        entry("Pong_01_e.state", Some("state"), 30),
    ];
    assert!(is_slot_file(&entries[0], "Pong_01_"));
    assert!(!is_slot_file(&entries[1], "Pong_01_"));
    assert!(!is_slot_file(&entries[2], "Pong_01_"));
    assert_eq!(latest_slot_file(&entries, "Pong_01_"), Some(3));
    assert_eq!(latest_slot_file(&entries, "Pong_02_"), Some(2));
    assert_eq!(latest_slot_file(&entries, "Pong_03_"), None);
    assert_eq!(latest_slot_file(&Vec::new(), "Pong_01_"), None);
}

#[test]
fn slot_labels() {
    let meta = SaveStateMeta { name: "Pong.ch8".to_string(), timestamp: "2024-01-02 03:04:05".to_string() };
    assert_eq!(slot_label_text(Some(&meta), 0, "empty"), "1 - 2024-01-02 03:04:05 - Pong.ch8");
    let unnamed = SaveStateMeta { name: String::new(), timestamp: "t".to_string() };
    assert_eq!(slot_label_text(Some(&unnamed), 1, "empty"), "2 - (empty)");
    assert_eq!(slot_label_text(None, 2, "vide"), "3 - (vide)");
}

#[test]
fn empty_slot_arrays() {
    assert!(default_savestates().iter().all(|s| s.is_none()));
    assert!(default_savestate_meta().iter().all(|s| s.is_none()));
}

#[test]
fn load_after_save_gives_back_the_state() {
    let cpu = sample_cpu();
    let mut display = Display::new();
    display.set_pixel(4, 4);
    let snap = capture_snapshot(&cpu, &display);
    let mut cpu2 = CPU { memory: vec![0u8; 4096], v: [0; 16], i: 0, pc: 0, sp: 0, delay_timer: 0, sound_timer: 0 };
    let mut display2 = Display::new();
    assert!(restore_snapshot(&snap, &mut cpu2, &mut display2));
    assert_eq!(cpu2.memory, cpu.memory);
    assert_eq!(cpu2.v, cpu.v);
    assert_eq!((cpu2.i, cpu2.pc, cpu2.sp, cpu2.delay_timer, cpu2.sound_timer), (0x300, 0x200, 2, 9, 4));
    assert_eq!(display2.pixels, display.pixels);
}

#[test]
fn restore_with_short_memory_keeps_cpu_memory() {
    let cpu = sample_cpu();
    let snap = EmuSnapshot { cpu: cpu.duplicate(), display: Display::new(), memory: vec![1, 2, 3] };
    let mut cpu2 = sample_cpu();
    cpu2.memory[0] = 0xAA;
    let mut display2 = Display::new();
    assert!(!restore_snapshot(&snap, &mut cpu2, &mut display2));
    assert_eq!(cpu2.memory, cpu.memory);
}

#[test]
fn persisted_state_must_match_rom_and_slot() {
    let payload = PersistedSaveState {
        version: SAVE_STATE_VERSION,
        rom_name: "Pong".to_string(),
        rom_hash: "abc".to_string(),
        rom_bytes: Vec::new(),
        rom_path: String::new(),
        slot: 1,
        meta: SaveStateMeta { name: "Pong".to_string(), timestamp: "t".to_string() },
        snapshot: capture_snapshot(&sample_cpu(), &Display::new()),
    };
    assert!(accepts_persisted(&payload, "abc", 1));
    assert!(!accepts_persisted(&payload, "abd", 1));
    assert!(!accepts_persisted(&payload, "abc", 0));
}

#[test]
fn slot_files_are_written_and_found_under_the_stem() {
    let name = slot_rom_name(Some("Pong"));
    assert_eq!(name, "Pong");
    assert_eq!(slot_rom_name(None), "rom");
    let written = slot_file_name(&name, 0, "2024-01-01_00-00-00");
    let entry = SaveFileEntry { name: written, extension: Some("state".to_string()), modified: 5 };
    assert!(is_slot_file(&entry, &slot_file_prefix(&name, 0)));
    assert!(!is_slot_file(&entry, &slot_file_prefix(&name, 1)));
}
