use oxide::report::{
    cpu_line, emit_test_report, lit_pixel_count, opcode_at, preset_name, pressed_keys_label,
    quirks_line, registers_line, video_line, ReportState, ReportWords,
};
use oxide::savestate::CPU;
use oxide::terminal::TerminalWords;
use oxide::types::{CpuQuirks, QuirkPreset};

fn cpu() -> CPU {
    let mut memory = vec![0u8; 4096];
    memory[0x200] = 0xA2;
    memory[0x201] = 0x2A;
    let mut v = [0u8; 16];
    v[1] = 0xFF;
    v[10] = 0x0B;
    CPU { memory, v, i: 0x22A, pc: 0x200, sp: 1, delay_timer: 12, sound_timer: 0 }
}

#[test]
fn opcode_is_big_endian_or_zero() {
    let c = cpu();
    assert_eq!(opcode_at(&c.memory, 0x200), 0xA22A);
    assert_eq!(opcode_at(&c.memory, 4095), 0);
    assert_eq!(opcode_at(&[1, 2], 0), 0x0102);
}

#[test]
fn report_lines() {
    let c = cpu();
    assert_eq!(cpu_line("CPU", &c), "CPU: PC=0200 OP=A22A I=022A SP=01 DT=12 ST=0");
    let regs = registers_line(&c.v);
    assert!(regs.starts_with("V0=00 V1=FF V2=00"));
    assert!(regs.contains("VA=0B"));
    assert!(regs.ends_with("VF=00"));
    assert_eq!(regs.split(' ').count(), 16);
    assert_eq!(
        quirks_line("Quirks", QuirkPreset::Chip48, QuirkPreset::Chip48.quirks()),
        "Quirks: preset=CHIP-48 shift_vy=true jump_vx=true draw_clips=false inc_i=false logic_vf0=false"
    );
    assert_eq!(preset_name(QuirkPreset::Custom), "Custom");
    assert_eq!(preset_name(QuirkPreset::SuperChip), "SUPER-CHIP");
}

#[test]
fn video_line_counts_lit_pixels_and_keys() {
    let mut pixels = vec![0u8; 2048];
    pixels[0] = 1;
    pixels[100] = 1;
    pixels[2047] = 3;
    assert_eq!(lit_pixel_count(&pixels), 3);
    let mut keys = [false; 16];
    assert_eq!(pressed_keys_label(&keys), "-");
    keys[1] = true;
    keys[0xA] = true;
    assert_eq!(pressed_keys_label(&keys), "1,A");
    assert_eq!(video_line("Video", &pixels, &keys), "Video: lit_pixels=3 keypad=1,A");
}

#[test]
fn full_diagnostics_block() {
    let w = ReportWords {
        header: "=== TEST ===".to_string(),
        trigger: "Trigger".to_string(),
        rom_label: "ROM".to_string(),
        state: "State".to_string(),
        state_running: "running".to_string(),
        state_paused: "paused".to_string(),
        state_rom_loaded: "rom".to_string(),
        cpu_label: "CPU".to_string(),
        video: "Video".to_string(),
        quirks_label: "Quirks".to_string(),
    };
    let tw = TerminalWords {
        terminal_theme: String::new(),
        terminal_language: String::new(),
        terminal_vsync: String::new(),
        terminal_fps: String::new(),
        terminal_unlimited: String::new(),
        terminal_fullscreen: String::new(),
        terminal_sound: String::new(),
        terminal_enabled: "on".to_string(),
        terminal_disabled: "off".to_string(),
        terminal_kiwano: String::new(),
        terminal_dark: String::new(),
        terminal_light: String::new(),
    };
    let st = ReportState {
        rom_file_name: None,
        en_pause: true,
        rom_chargee: true,
        cpu: cpu(),
        pixels: vec![0u8; 2048],
        keys: [false; 16],
        preset: QuirkPreset::Chip8,
        quirks: CpuQuirks::default(),
    };
    let entries = emit_test_report(&w, &tw, "F9", &st);
    let got: Vec<(bool, String)> = entries.iter().map(|e| (e.timestamped, e.message.clone())).collect();
    assert_eq!(got.len(), 10);
    assert_eq!(got[0], (false, String::new()));
    assert_eq!(got[1], (false, "=== TEST ===".to_string()));
    assert_eq!(got[2], (true, "Trigger: F9".to_string()));
    assert_eq!(got[3], (true, "ROM: <none>".to_string()));
    assert_eq!(got[4], (true, "State: running=off paused=on rom=on".to_string()));
    assert_eq!(got[5], (true, "CPU: PC=0200 OP=A22A I=022A SP=01 DT=12 ST=0".to_string()));
    assert_eq!(got[6], (true, "Video: lit_pixels=0 keypad=-".to_string()));
    assert!(got[7].1.starts_with("Quirks: preset=CHIP-8 "));
    assert!(!got[8].0 && got[8].1.starts_with("V0=00 V1=FF"));
    assert_eq!(got[9], (false, "=== TEST ===".to_string()));
}
