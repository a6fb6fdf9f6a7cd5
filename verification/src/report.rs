//! The diagnostics block that the debug terminal prints for ROM test
//! analysis (F9 or the report button).

use vstd::prelude::*;
use vstd::string::*;
use crate::text::{push_char, push_str, push_decimal, push_hex_fixed, push_hex, decimal, hex_fixed, hex};
use crate::types::{QuirkPreset, CpuQuirks};
use crate::savestate::CPU;
use crate::terminal::{TerminalWords, TerminalEntry, entries_view, push_plain, push_info, state_word, labelled};

verus! {

/// The opcode at the program counter: the big-endian pair of bytes at `pc`
/// and `pc + 1`, or 0 when they are not both in memory.
pub open spec fn opcode_spec(memory: Seq<u8>, pc: nat) -> u16 {
    if pc + 1 < memory.len() {
        (memory[pc as int] * 256 + memory[pc + 1int]) as u16
    } else {
        0
    }
}

/// Reads the opcode at the program counter.
pub fn opcode_at(memory: &[u8], pc: u16) -> (op: u16)
    ensures
        op == opcode_spec(memory@, pc as nat),
{
    let p = pc as usize;
    if p + 1 < memory.len() {
        let hi = memory[p] as u16;
        let lo = memory[p + 1] as u16;
        let op = (hi << 8) | lo;
        assert(op == (hi * 256 + lo) as u16) by (bit_vector)
            requires
                hi < 256,
                lo < 256,
                op == (hi << 8) | lo,
        ;
        op
    } else {
        0
    }
}

/// Number of lit (non-zero) pixels.
pub open spec fn lit_count(pixels: Seq<u8>) -> nat
    decreases pixels.len(),
{
    if pixels.len() == 0 {
        0
    } else {
        lit_count(pixels.drop_last()) + if pixels.last() != 0 { 1nat } else { 0nat }
    }
}

proof fn lemma_lit_count_bound(pixels: Seq<u8>)
    ensures
        lit_count(pixels) <= pixels.len(),
    decreases pixels.len(),
{
    if pixels.len() > 0 {
        lemma_lit_count_bound(pixels.drop_last());
    }
}

/// Counts the lit pixels of a framebuffer.
pub fn lit_pixel_count(pixels: &[u8]) -> (n: usize)
    ensures
        n == lit_count(pixels@),
{
    let mut n: usize = 0;
    let mut k: usize = 0;
    while k < pixels.len()
        invariant
            k <= pixels@.len(),
            n == lit_count(pixels@.take(k as int)),
        decreases pixels@.len() - k,
    {
        assert(pixels@.take(k + 1).drop_last() =~= pixels@.take(k as int));
        proof {
            lemma_lit_count_bound(pixels@.take(k as int));
        }
        if pixels[k] != 0 {
            n = n + 1;
        }
        k = k + 1;
    }
    assert(pixels@.take(pixels@.len() as int) =~= pixels@);
    n
}

/// The pressed keys written as upper-case hex digits joined by commas.
pub open spec fn pressed_keys_text(states: Seq<bool>) -> Seq<char>
    decreases states.len(),
{
    if states.len() == 0 {
        Seq::empty()
    } else {
        let prev = pressed_keys_text(states.drop_last());
        if states.last() {
            if prev.len() == 0 {
                hex((states.len() - 1) as nat, true)
            } else {
                prev + seq![','] + hex((states.len() - 1) as nat, true)
            }
        } else {
            prev
        }
    }
}

/// The keypad column of the report: the pressed keys, or `-` when none is.
pub open spec fn keypad_field(states: Seq<bool>) -> Seq<char> {
    if pressed_keys_text(states).len() == 0 {
        seq!['-']
    } else {
        pressed_keys_text(states)
    }
}

/// Builds the list of pressed terminal keys.
pub fn pressed_keys_label(states: &[bool; 16]) -> (s: String)
    ensures
        s@ == keypad_field(states@),
{
    let mut s = String::new();
    let mut k: usize = 0;
    while k < 16
        invariant
            k <= 16,
            s@ == pressed_keys_text(states@.take(k as int)),
        decreases 16 - k,
    {
        let ghost prev = s@;
        assert(states@.take(k + 1).drop_last() =~= states@.take(k as int));
        if states[k] {
            if s.as_str().unicode_len() > 0 {
                push_char(&mut s, ',');
            }
            push_hex(&mut s, k as u64, true);
        }
        k = k + 1;
        assert(s@ =~= pressed_keys_text(states@.take(k as int)));
    }
    assert(states@.take(16) =~= states@);
    if s.as_str().unicode_len() == 0 {
        let mut dash = String::new();
        push_char(&mut dash, '-');
        dash
    } else {
        s
    }
}

/// `V<i>=<value>` for each register, the index as one upper-case hex digit
/// and the value as two, separated by spaces.
pub open spec fn registers_text(v: Seq<u8>) -> Seq<char>
    decreases v.len(),
{
    if v.len() == 0 {
        Seq::empty()
    } else {
        let item = seq!['V'] + hex((v.len() - 1) as nat, true) + seq!['='] + hex_fixed(
            v.last() as nat,
            2,
            true,
        );
        if v.len() == 1 {
            item
        } else {
            registers_text(v.drop_last()) + seq![' '] + item
        }
    }
}

/// Builds the register dump line.
pub fn registers_line(v: &[u8; 16]) -> (s: String)
    ensures
        s@ == registers_text(v@),
{
    let mut s = String::new();
    let mut k: usize = 0;
    while k < 16
        invariant
            k <= 16,
            s@ == registers_text(v@.take(k as int)),
        decreases 16 - k,
    {
        assert(v@.take(k + 1).drop_last() =~= v@.take(k as int));
        if k > 0 {
            push_char(&mut s, ' ');
        }
        push_char(&mut s, 'V');
        push_hex(&mut s, k as u64, true);
        push_char(&mut s, '=');
        push_hex_fixed(&mut s, v[k] as u64, 2, true);
        k = k + 1;
        assert(s@ =~= registers_text(v@.take(k as int)));
    }
    assert(v@.take(16) =~= v@);
    s
}

/// Display name of a quirk preset in the report.
pub open spec fn preset_name_spec(p: QuirkPreset) -> Seq<char> {
    match p {
        QuirkPreset::Chip8 => "CHIP-8"@,
        QuirkPreset::Chip48 => "CHIP-48"@,
        QuirkPreset::SuperChip => "SUPER-CHIP"@,
        QuirkPreset::Custom => "Custom"@,
    }
}

/// Returns the display name of a quirk preset.
pub fn preset_name(p: QuirkPreset) -> (name: &'static str)
    ensures
        name@ == preset_name_spec(p),
{
    match p {
        QuirkPreset::Chip8 => "CHIP-8",
        QuirkPreset::Chip48 => "CHIP-48",
        QuirkPreset::SuperChip => "SUPER-CHIP",
        QuirkPreset::Custom => "Custom",
    }
}

/// How a boolean is written (`true` / `false`).
pub open spec fn bool_text(b: bool) -> Seq<char> {
    if b {
        "true"@
    } else {
        "false"@
    }
}

fn push_bool(s: &mut String, b: bool)
    ensures
        final(s)@ == old(s)@ + bool_text(b),
{
    if b {
        push_str(s, "true");
    } else {
        push_str(s, "false");
    }
}

/// The CPU line of the report.
pub open spec fn cpu_text(label: Seq<char>, cpu: CPU) -> Seq<char> {
    label + ": PC="@ + hex_fixed(cpu.pc as nat, 4, true) + " OP="@ + hex_fixed(
        opcode_spec(cpu.memory@, cpu.pc as nat) as nat,
        4,
        true,
    ) + " I="@ + hex_fixed(cpu.i as nat, 4, true) + " SP="@ + hex_fixed(cpu.sp as nat, 2, true)
        + " DT="@ + decimal(cpu.delay_timer as nat) + " ST="@ + decimal(cpu.sound_timer as nat)
}

/// Builds the CPU line: program counter, opcode, index, stack pointer and
/// timers.
pub fn cpu_line(label: &str, cpu: &CPU) -> (s: String)
    ensures
        s@ == cpu_text(label@, *cpu),
{
    let op = opcode_at(cpu.memory.as_slice(), cpu.pc);
    let mut s = label.to_string();
    push_str(&mut s, ": PC=");
    push_hex_fixed(&mut s, cpu.pc as u64, 4, true);
    push_str(&mut s, " OP=");
    push_hex_fixed(&mut s, op as u64, 4, true);
    push_str(&mut s, " I=");
    push_hex_fixed(&mut s, cpu.i as u64, 4, true);
    push_str(&mut s, " SP=");
    push_hex_fixed(&mut s, cpu.sp as u64, 2, true);
    push_str(&mut s, " DT=");
    push_decimal(&mut s, cpu.delay_timer as u64);
    push_str(&mut s, " ST=");
    push_decimal(&mut s, cpu.sound_timer as u64);
    s
}

/// The quirks line of the report.
pub open spec fn quirks_text(label: Seq<char>, preset: QuirkPreset, q: CpuQuirks) -> Seq<char> {
    label + ": preset="@ + preset_name_spec(preset) + " shift_vy="@ + bool_text(q.shift_uses_vy)
        + " jump_vx="@ + bool_text(q.jump_uses_vx) + " draw_clips="@ + bool_text(q.draw_clips)
        + " inc_i="@ + bool_text(q.load_store_increment_i) + " logic_vf0="@ + bool_text(
        q.logic_clears_vf,
    )
}

/// Builds the quirks line: the preset and each switch.
pub fn quirks_line(label: &str, preset: QuirkPreset, q: CpuQuirks) -> (s: String)
    ensures
        s@ == quirks_text(label@, preset, q),
{
    let mut s = label.to_string();
    push_str(&mut s, ": preset=");
    push_str(&mut s, preset_name(preset));
    push_str(&mut s, " shift_vy=");
    push_bool(&mut s, q.shift_uses_vy);
    push_str(&mut s, " jump_vx=");
    push_bool(&mut s, q.jump_uses_vx);
    push_str(&mut s, " draw_clips=");
    push_bool(&mut s, q.draw_clips);
    push_str(&mut s, " inc_i=");
    push_bool(&mut s, q.load_store_increment_i);
    push_str(&mut s, " logic_vf0=");
    push_bool(&mut s, q.logic_clears_vf);
    s
}

/// The video line of the report.
pub open spec fn video_text(label: Seq<char>, pixels: Seq<u8>, keys: Seq<bool>) -> Seq<char> {
    label + ": lit_pixels="@ + decimal(lit_count(pixels)) + " keypad="@ + keypad_field(keys)
}

/// Builds the video line: the lit pixel count and the pressed terminal keys.
pub fn video_line(label: &str, pixels: &[u8], keys: &[bool; 16]) -> (s: String)
    ensures
        s@ == video_text(label@, pixels@, keys@),
{
    let lit = lit_pixel_count(pixels);
    let pressed = pressed_keys_label(keys);
    let mut s = label.to_string();
    push_str(&mut s, ": lit_pixels=");
    push_decimal(&mut s, lit as u64);
    push_str(&mut s, " keypad=");
    push_str(&mut s, pressed.as_str());
    s
}

/// Translated words of the diagnostics block.
pub struct ReportWords {
    pub header: String,
    pub trigger: String,
    pub rom_label: String,
    pub state: String,
    pub state_running: String,
    pub state_paused: String,
    pub state_rom_loaded: String,
    pub cpu_label: String,
    pub video: String,
    pub quirks_label: String,
}

/// The ROM's file name, or `<none>` without a ROM file.
pub open spec fn rom_name_spec(rom_file_name: Option<Seq<char>>) -> Seq<char> {
    match rom_file_name {
        Some(n) => n,
        None => "<none>"@,
    }
}

/// The state line: running, paused and ROM-loaded flags in words.
pub open spec fn state_text(w: ReportWords, tw: TerminalWords, en_pause: bool, rom_chargee: bool) -> Seq<char> {
    w.state@ + ": "@ + w.state_running@ + "="@ + state_word(tw, !en_pause && rom_chargee) + " "@
        + w.state_paused@ + "="@ + state_word(tw, en_pause) + " "@ + w.state_rom_loaded@ + "="@
        + state_word(tw, rom_chargee)
}

/// The machine state that the diagnostics block describes.
pub struct ReportState {
    pub rom_file_name: Option<String>,
    pub en_pause: bool,
    pub rom_chargee: bool,
    pub cpu: CPU,
    pub pixels: Vec<u8>,
    pub keys: [bool; 16],
    pub preset: QuirkPreset,
    pub quirks: CpuQuirks,
}

/// The ROM's file name as characters, when there is one.
pub open spec fn rom_name_view(n: Option<String>) -> Option<Seq<char>> {
    match n {
        Some(s) => Some(s@),
        None => None,
    }
}

/// The diagnostics block: a blank line and the header, then the trigger,
/// ROM, state, CPU, video and quirks lines behind timestamps, then the
/// register dump and the header again.
pub open spec fn test_report_spec(w: ReportWords, tw: TerminalWords, trigger: Seq<char>, st: ReportState) -> Seq<(bool, Seq<char>)> {
    seq![
        (false, Seq::<char>::empty()),
        (false, w.header@),
        (true, w.trigger@ + ": "@ + trigger),
        (true, w.rom_label@ + ": "@ + rom_name_spec(rom_name_view(st.rom_file_name))),
        (true, state_text(w, tw, st.en_pause, st.rom_chargee)),
        (true, cpu_text(w.cpu_label@, st.cpu)),
        (true, video_text(w.video@, st.pixels@, st.keys@)),
        (true, quirks_text(w.quirks_label@, st.preset, st.quirks)),
        (false, registers_text(st.cpu.v@)),
        (false, w.header@),
    ]
}

fn state_line(w: &ReportWords, tw: &TerminalWords, en_pause: bool, rom_chargee: bool) -> (s: String)
    ensures
        s@ == state_text(*w, *tw, en_pause, rom_chargee),
{
    let mut s = labelled(w.state.as_str(), ": ", w.state_running.as_str());
    push_char(&mut s, '=');
    let running = tw.state_label(!en_pause && rom_chargee);
    push_str(&mut s, running.as_str());
    push_char(&mut s, ' ');
    push_str(&mut s, w.state_paused.as_str());
    push_char(&mut s, '=');
    let paused = tw.state_label(en_pause);
    push_str(&mut s, paused.as_str());
    push_char(&mut s, ' ');
    push_str(&mut s, w.state_rom_loaded.as_str());
    push_char(&mut s, '=');
    let loaded = tw.state_label(rom_chargee);
    push_str(&mut s, loaded.as_str());
    proof {
        reveal_strlit(": ");
        reveal_strlit("=");
        reveal_strlit(" ");
    }
    assert(s@ =~= state_text(*w, *tw, en_pause, rom_chargee));
    s
}

/// Builds the diagnostics block printed for ROM test analysis; `trigger`
/// says what asked for it (a key or the button).
pub fn emit_test_report(w: &ReportWords, tw: &TerminalWords, trigger: &str, st: &ReportState) -> (entries: Vec<TerminalEntry>)
    ensures
        entries_view(entries@) == test_report_spec(*w, *tw, trigger@, *st),
{
    let mut entries: Vec<TerminalEntry> = Vec::new();
    push_plain(&mut entries, String::new());
    push_plain(&mut entries, w.header.clone());
    push_info(&mut entries, labelled(w.trigger.as_str(), ": ", trigger));
    let rom: &str = match &st.rom_file_name {
        Some(n) => n.as_str(),
        None => "<none>",
    };
    push_info(&mut entries, labelled(w.rom_label.as_str(), ": ", rom));
    push_info(&mut entries, state_line(w, tw, st.en_pause, st.rom_chargee));
    push_info(&mut entries, cpu_line(w.cpu_label.as_str(), &st.cpu));
    push_info(&mut entries, video_line(w.video.as_str(), st.pixels.as_slice(), &st.keys));
    push_info(&mut entries, quirks_line(w.quirks_label.as_str(), st.preset, st.quirks));
    push_plain(&mut entries, registers_line(&st.cpu.v));
    push_plain(&mut entries, w.header.clone());
    assert(entries_view(entries@) =~= test_report_spec(*w, *tw, trigger@, *st));
    entries
}

} // verus!
