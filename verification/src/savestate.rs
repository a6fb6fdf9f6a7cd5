//! Save-state bookkeeping: the snapshot of the machine, the on-disk
//! container, ROM identification (FNV-1a), file naming, and the choice of
//! which file on disk belongs to which slot.

use vstd::prelude::*;
use vstd::string::*;
use crate::display::Display;
use crate::text::{push_char, str_eq, chars_of, push_str, push_decimal, push_decimal_padded, push_hex_fixed, hex_fixed, decimal, zero_pad};

verus! {

/// Version written into every persisted save state.
pub const SAVE_STATE_VERSION: u32 = 1;

/// Number of save-state slots.
pub const SLOT_COUNT: usize = 3;

/// Registers and memory of the CHIP-8 interpreter that a save state keeps.
pub struct CPU {
    /// The 4 KiB address space.
    pub memory: Vec<u8>,
    /// General purpose registers V0..VF.
    pub v: [u8; 16],
    /// Index register.
    pub i: u16,
    /// Program counter.
    pub pc: u16,
    /// Stack pointer.
    pub sp: u8,
    /// 60 Hz delay timer.
    pub delay_timer: u8,
    /// 60 Hz sound timer; the buzzer sounds while it is non-zero.
    pub sound_timer: u8,
}

/// Two interpreter states hold the same registers.
pub open spec fn same_registers(a: CPU, b: CPU) -> bool {
    &&& a.v@ == b.v@
    &&& a.i == b.i
    &&& a.pc == b.pc
    &&& a.sp == b.sp
    &&& a.delay_timer == b.delay_timer
    &&& a.sound_timer == b.sound_timer
}

/// Two interpreter states hold the same registers and memory.
pub open spec fn same_cpu(a: CPU, b: CPU) -> bool {
    &&& same_registers(a, b)
    &&& a.memory@ == b.memory@
}

impl CPU {
    /// A copy of the registers and memory.
    pub fn duplicate(&self) -> (c: CPU)
        ensures
            same_cpu(c, *self),
    {
        CPU {
            memory: vstd::slice::slice_to_vec(self.memory.as_slice()),
            v: self.v,
            i: self.i,
            pc: self.pc,
            sp: self.sp,
            delay_timer: self.delay_timer,
            sound_timer: self.sound_timer,
        }
    }
}

impl Display {
    /// A copy of the framebuffer.
    pub fn duplicate(&self) -> (d: Display)
        ensures
            d.pixels@ == self.pixels@,
    {
        Display { pixels: vstd::slice::slice_to_vec(self.pixels.as_slice()) }
    }
}

/// Snapshot of CPU/display state used by save/load slots.
pub struct EmuSnapshot {
    pub cpu: CPU,
    pub display: Display,
    /// A copy of the interpreter memory at the time of the snapshot.
    pub memory: Vec<u8>,
}

impl EmuSnapshot {
    /// A copy of the snapshot.
    pub fn duplicate(&self) -> (c: EmuSnapshot)
        ensures
            same_cpu(c.cpu, self.cpu),
            c.display.pixels@ == self.display.pixels@,
            c.memory@ == self.memory@,
    {
        EmuSnapshot {
            cpu: self.cpu.duplicate(),
            display: self.display.duplicate(),
            memory: vstd::slice::slice_to_vec(self.memory.as_slice()),
        }
    }
}

/// Metadata stored alongside each save-state slot (ROM name + timestamp).
pub struct SaveStateMeta {
    pub name: String,
    pub timestamp: String,
}

impl SaveStateMeta {
    /// A copy of the metadata.
    pub fn duplicate(&self) -> (m: SaveStateMeta)
        ensures
            m.name@ == self.name@,
            m.timestamp@ == self.timestamp@,
    {
        SaveStateMeta { name: self.name.clone(), timestamp: self.timestamp.clone() }
    }
}

/// On-disk savestate container (one file per slot).
pub struct PersistedSaveState {
    pub version: u32,
    pub rom_name: String,
    pub rom_hash: String,
    pub rom_bytes: Vec<u8>,
    pub rom_path: String,
    pub slot: usize,
    pub meta: SaveStateMeta,
    pub snapshot: EmuSnapshot,
}

/// Default empty save-state array.
pub fn default_savestates() -> (slots: [Option<EmuSnapshot>; 3])
    ensures
        slots[0] is None && slots[1] is None && slots[2] is None,
{
    [None, None, None]
}

/// Default empty save-state metadata array.
pub fn default_savestate_meta() -> (slots: [Option<SaveStateMeta>; 3])
    ensures
        slots[0] is None && slots[1] is None && slots[2] is None,
{
    [None, None, None]
}

/// Takes a snapshot of the interpreter and the screen.
pub fn capture_snapshot(cpu: &CPU, display: &Display) -> (snap: EmuSnapshot)
    ensures
        same_cpu(snap.cpu, *cpu),
        snap.display.pixels@ == display.pixels@,
        snap.memory@ == cpu.memory@,
{
    EmuSnapshot {
        cpu: cpu.duplicate(),
        display: display.duplicate(),
        memory: vstd::slice::slice_to_vec(cpu.memory.as_slice()),
    }
}

/// Puts a snapshot back into the interpreter and the screen. The saved
/// memory is copied back when it has the interpreter's memory size; the
/// result tells whether it was. When it was not, the caller reloads the
/// ROM program instead.
pub fn restore_snapshot(snap: &EmuSnapshot, cpu: &mut CPU, display: &mut Display) -> (copied: bool)
    ensures
        copied == (snap.memory@.len() == snap.cpu.memory@.len()),
        same_registers(*final(cpu), snap.cpu),
        copied ==> final(cpu).memory@ == snap.memory@,
        !copied ==> final(cpu).memory@ == snap.cpu.memory@,
        final(display).pixels@ == snap.display.pixels@,
{
    *cpu = snap.cpu.duplicate();
    *display = snap.display.duplicate();
    if snap.memory.len() == cpu.memory.len() {
        cpu.memory = vstd::slice::slice_to_vec(snap.memory.as_slice());
        true
    } else {
        false
    }
}

/// Loading what was saved gives back the interpreter and the screen as they
/// were when saved.
pub proof fn lemma_save_then_load(cpu: CPU, display: Display, snap: EmuSnapshot, cpu_after: CPU, display_after: Display)
    requires
        same_cpu(snap.cpu, cpu),
        snap.display.pixels@ == display.pixels@,
        snap.memory@ == cpu.memory@,
        same_registers(cpu_after, snap.cpu),
        snap.memory@.len() == snap.cpu.memory@.len() ==> cpu_after.memory@ == snap.memory@,
        display_after.pixels@ == snap.display.pixels@,
    ensures
        snap.memory@.len() == snap.cpu.memory@.len(),
        same_cpu(cpu_after, cpu),
        display_after.pixels@ == display.pixels@,
{
}

/// FNV-1a 64-bit offset basis.
pub const FNV_OFFSET: u64 = 0xcbf29ce484222325;

/// FNV-1a 64-bit prime.
pub const FNV_PRIME: u64 = 0x100000001b3;

/// One FNV-1a step: XOR the byte in, then multiply modulo 2^64.
pub open spec fn fnv_step(h: u64, b: u8) -> u64 {
    vstd::wrapping::u64_specs::wrapping_mul(h ^ (b as u64), FNV_PRIME)
}

/// FNV-1a 64-bit hash of a byte sequence.
pub open spec fn fnv1a(data: Seq<u8>) -> u64
    decreases data.len(),
{
    if data.len() == 0 {
        FNV_OFFSET
    } else {
        fnv_step(fnv1a(data.drop_last()), data.last())
    }
}

/// The hash of a byte sequence written as 16 lower-case hex digits.
pub open spec fn rom_hash_spec(data: Seq<u8>) -> Seq<char> {
    hex_fixed(fnv1a(data) as nat, 16, false)
}

/// Stable, lightweight hash for ROM identification (FNV-1a 64-bit), as 16
/// lower-case hex digits.
pub fn rom_hash_hex(data: &[u8]) -> (h: String)
    ensures
        h@ == rom_hash_spec(data@),
{
    let mut hash: u64 = FNV_OFFSET;
    let mut k: usize = 0;
    while k < data.len()
        invariant
            k <= data@.len(),
            hash == fnv1a(data@.take(k as int)),
        decreases data@.len() - k,
    {
        assert(data@.take(k + 1).drop_last() =~= data@.take(k as int));
        hash = hash ^ (data[k] as u64);
        hash = hash.wrapping_mul(FNV_PRIME);
        k = k + 1;
    }
    assert(data@.take(data@.len() as int) =~= data@);
    let mut h = String::new();
    push_hex_fixed(&mut h, hash, 16, false);
    assert(h@ =~= rom_hash_spec(data@));
    h
}

/// Characters kept as they are in file names.
pub open spec fn is_filename_char(c: char) -> bool {
    ||| ('0' <= c && c <= '9')
    ||| ('a' <= c && c <= 'z')
    ||| ('A' <= c && c <= 'Z')
    ||| c == '-'
    ||| c == '_'
    ||| c == '.'
}

/// A string usable as a file name: every other character becomes `_`, and an
/// empty input becomes `rom`.
pub open spec fn sanitize_spec(s: Seq<char>) -> Seq<char> {
    if s.len() == 0 {
        "rom"@
    } else {
        s.map_values(|c: char| if is_filename_char(c) { c } else { '_' })
    }
}

/// Sanitizes a string for use as a file name.
pub fn sanitize_filename(input: &str) -> (out: String)
    ensures
        out@ == sanitize_spec(input@),
{
    let chars = chars_of(input);
    if chars.len() == 0 {
        return "rom".to_string();
    }
    let mut out = String::new();
    let mut k: usize = 0;
    while k < chars.len()
        invariant
            chars@ == input@,
            k <= chars@.len(),
            out@ == input@.take(k as int).map_values(
                |c: char| if is_filename_char(c) { c } else { '_' },
            ),
        decreases chars@.len() - k,
    {
        let c = chars[k];
        let keep = ('0' <= c && c <= '9') || ('a' <= c && c <= 'z') || ('A' <= c && c <= 'Z')
            || c == '-' || c == '_' || c == '.';
        if keep {
            push_char(&mut out, c);
        } else {
            push_char(&mut out, '_');
        }
        k = k + 1;
        assert(out@ =~= input@.take(k as int).map_values(
            |c: char| if is_filename_char(c) { c } else { '_' },
        ));
    }
    assert(input@.take(input@.len() as int) =~= input@);
    out
}

/// Sanitizing never yields an empty name, keeps the length of a non-empty
/// name, and leaves an already clean name unchanged.
pub proof fn lemma_sanitize_properties(s: Seq<char>)
    ensures
        sanitize_spec(s).len() > 0,
        s.len() > 0 ==> sanitize_spec(s).len() == s.len(),
        forall|i: int| 0 <= i < sanitize_spec(s).len() ==> #[trigger] is_filename_char(
            sanitize_spec(s)[i],
        ),
        (s.len() > 0 && forall|i: int| 0 <= i < s.len() ==> #[trigger] is_filename_char(s[i]))
            ==> sanitize_spec(s) == s,
{
    reveal_strlit("rom");
    if s.len() > 0 && forall|i: int| 0 <= i < s.len() ==> #[trigger] is_filename_char(s[i]) {
        assert(sanitize_spec(s) =~= s);
    }
}

/// Sanitizing twice gives the same name as sanitizing once.
pub proof fn lemma_sanitize_idempotent(s: Seq<char>)
    ensures
        sanitize_spec(sanitize_spec(s)) == sanitize_spec(s),
{
    lemma_sanitize_properties(s);
    lemma_sanitize_properties(sanitize_spec(s));
}

/// Name of the folder holding the save states of a ROM: the sanitized ROM
/// name, a dash, and the ROM hash.
pub open spec fn savestate_dir_spec(rom_stem: Option<Seq<char>>, rom: Seq<u8>) -> Option<Seq<char>> {
    if rom.len() == 0 {
        None
    } else {
        let name = match rom_stem {
            Some(s) => s,
            None => "rom"@,
        };
        Some(sanitize_spec(name) + "-"@ + rom_hash_spec(rom))
    }
}

/// Computes the save-state folder name for the current ROM, or nothing when
/// no ROM is loaded. `rom_stem` is the ROM file name without its extension.
pub fn savestate_dir_name(rom_stem: Option<&str>, rom: &[u8]) -> (dir: Option<String>)
    ensures
        match dir {
            Some(d) => savestate_dir_spec(
                match rom_stem {
                    Some(s) => Some(s@),
                    None => None,
                },
                rom@,
            ) == Some(d@),
            None => savestate_dir_spec(
                match rom_stem {
                    Some(s) => Some(s@),
                    None => None,
                },
                rom@,
            ) is None,
        },
{
    if rom.len() == 0 {
        return None;
    }
    let name = match rom_stem {
        Some(s) => s,
        None => "rom",
    };
    let mut dir = sanitize_filename(name);
    push_str(&mut dir, "-");
    let h = rom_hash_hex(rom);
    push_str(&mut dir, h.as_str());
    Some(dir)
}

/// The start shared by every save-state file of a slot:
/// `<sanitized rom name>_<slot number on two digits>_`.
pub open spec fn slot_prefix_spec(rom_name: Seq<char>, slot: nat) -> Seq<char> {
    sanitize_spec(rom_name) + "_"@ + zero_pad(decimal(slot + 1), 2) + "_"@
}

/// Builds the file-name prefix of a save-state slot.
pub fn slot_file_prefix(rom_name: &str, slot: usize) -> (prefix: String)
    requires
        slot < u64::MAX,
    ensures
        prefix@ == slot_prefix_spec(rom_name@, slot as nat),
{
    let mut prefix = sanitize_filename(rom_name);
    push_str(&mut prefix, "_");
    push_decimal_padded(&mut prefix, slot as u64 + 1, 2);
    push_str(&mut prefix, "_");
    prefix
}

/// Builds the timestamped file name of a save-state slot:
/// `<prefix><timestamp>.state`.
pub fn slot_file_name(rom_name: &str, slot: usize, timestamp: &str) -> (name: String)
    requires
        slot < u64::MAX,
    ensures
        name@ == slot_prefix_spec(rom_name@, slot as nat) + timestamp@ + ".state"@,
{
    let mut name = slot_file_prefix(rom_name, slot);
    push_str(&mut name, timestamp);
    push_str(&mut name, ".state");
    name
}

/// The ROM name under which a ROM's slot files are written and looked up:
/// the ROM file's stem (its name without extension), or `rom` without one.
pub open spec fn slot_rom_name_spec(rom_stem: Option<Seq<char>>) -> Seq<char> {
    match rom_stem {
        Some(s) => s,
        None => "rom"@,
    }
}

/// Picks the ROM name used in slot file names, for writing and for reading
/// alike.
pub fn slot_rom_name(rom_stem: Option<&str>) -> (name: String)
    ensures
        name@ == slot_rom_name_spec(
            match rom_stem {
                Some(s) => Some(s@),
                None => None,
            },
        ),
{
    match rom_stem {
        Some(s) => s.to_string(),
        None => "rom".to_string(),
    }
}

/// A file written for a slot under a ROM name is found again when that
/// slot is looked up under the same name: its name starts with the slot's
/// prefix and its extension is `state`.
pub proof fn lemma_written_slot_file_found(rom_name: Seq<char>, slot: nat, timestamp: Seq<char>, e: SaveFileEntry)
    requires
        e.name@ == slot_prefix_spec(rom_name, slot) + timestamp + ".state"@,
        e.extension matches Some(x) && x@ == "state"@,
    ensures
        is_slot_file_spec(e, slot_prefix_spec(rom_name, slot)),
{
    let p = slot_prefix_spec(rom_name, slot);
    assert(e.name@.subrange(0, p.len() as int) =~= p);
}

/// Whether `p` is a prefix of `s`.
pub fn starts_with(s: &str, p: &str) -> (yes: bool)
    ensures
        yes == p@.is_prefix_of(s@),
{
    let sc = chars_of(s);
    let pc = chars_of(p);
    if pc.len() > sc.len() {
        return false;
    }
    let mut k: usize = 0;
    while k < pc.len()
        invariant
            sc@ == s@,
            pc@ == p@,
            pc@.len() <= sc@.len(),
            k <= pc@.len(),
            forall|j: int| 0 <= j < k ==> pc@[j] == sc@[j],
        decreases pc@.len() - k,
    {
        if pc[k] != sc[k] {
            return false;
        }
        k = k + 1;
    }
    true
}

/// A directory entry seen while looking for save states.
pub struct SaveFileEntry {
    /// The file name, with its extension.
    pub name: String,
    /// The file extension, when the name has one.
    pub extension: Option<String>,
    /// Modification time, in nanoseconds from the Unix epoch (negative before
    /// it; 0 when the file system gives none).
    pub modified: i128,
}

/// An entry is a save-state file of the slot with this prefix.
pub open spec fn is_slot_file_spec(e: SaveFileEntry, prefix: Seq<char>) -> bool {
    &&& e.extension matches Some(ext) && ext@ == "state"@
    &&& prefix.is_prefix_of(e.name@)
}

/// Whether a directory entry is a save-state file of the slot with this
/// prefix: its extension is `state` and its name starts with the prefix.
pub fn is_slot_file(e: &SaveFileEntry, prefix: &str) -> (yes: bool)
    ensures
        yes == is_slot_file_spec(*e, prefix@),
{
    match &e.extension {
        Some(ext) => str_eq(ext.as_str(), "state") && starts_with(e.name.as_str(), prefix),
        None => false,
    }
}

/// Picks the most recently modified save-state file of a slot: among the
/// entries that are files of the slot, the first one whose modification time
/// is the greatest.
pub fn latest_slot_file(entries: &Vec<SaveFileEntry>, prefix: &str) -> (best: Option<usize>)
    ensures
        best is None <==> forall|j: int| 0 <= j < entries@.len() ==> !is_slot_file_spec(
            #[trigger] entries@[j],
            prefix@,
        ),
        best matches Some(b) ==> {
            &&& b < entries@.len()
            &&& is_slot_file_spec(entries@[b as int], prefix@)
            &&& forall|j: int|
                0 <= j < entries@.len() && is_slot_file_spec(#[trigger] entries@[j], prefix@)
                    ==> entries@[j].modified <= entries@[b as int].modified
            &&& forall|j: int|
                0 <= j < b && is_slot_file_spec(#[trigger] entries@[j], prefix@)
                    ==> entries@[j].modified < entries@[b as int].modified
        },
{
    let mut best: Option<usize> = None;
    let mut k: usize = 0;
    while k < entries.len()
        invariant
            k <= entries@.len(),
            best is None <==> forall|j: int| 0 <= j < k ==> !is_slot_file_spec(
                #[trigger] entries@[j],
                prefix@,
            ),
            best matches Some(b) ==> {
                &&& b < k
                &&& is_slot_file_spec(entries@[b as int], prefix@)
                &&& forall|j: int|
                    0 <= j < k && is_slot_file_spec(#[trigger] entries@[j], prefix@)
                        ==> entries@[j].modified <= entries@[b as int].modified
                &&& forall|j: int|
                    0 <= j < b && is_slot_file_spec(#[trigger] entries@[j], prefix@)
                        ==> entries@[j].modified < entries@[b as int].modified
            },
        decreases entries@.len() - k,
    {
        if is_slot_file(&entries[k], prefix) {
            let better = match best {
                Some(b) => entries[k].modified > entries[b].modified,
                None => true,
            };
            if better {
                best = Some(k);
            }
        }
        k = k + 1;
    }
    best
}

/// A save state read from disk is taken into a slot: the slot is one of
/// the three, the state was made for the ROM with this hash, and for that
/// slot.
pub open spec fn install_accepts(p: PersistedSaveState, rom_hash: Seq<char>, slot: int) -> bool {
    0 <= slot < 3 && p.rom_hash@ == rom_hash && p.slot == slot
}

/// A state written for a slot of a ROM is taken back into that slot when
/// the same ROM is loaded again: it records the ROM's hash and the slot.
pub proof fn lemma_persisted_state_taken_back(p: PersistedSaveState, rom: Seq<u8>, slot: usize)
    requires
        p.rom_hash@ == rom_hash_spec(rom),
        p.slot == slot,
        slot < 3,
    ensures
        install_accepts(p, rom_hash_spec(rom), slot as int),
{
}

/// A persisted save state is accepted for a slot when it was made for the
/// same ROM (same hash) and for that slot.
pub fn accepts_persisted(payload: &PersistedSaveState, rom_hash: &str, slot: usize) -> (ok: bool)
    ensures
        ok == (payload.rom_hash@ == rom_hash@ && payload.slot == slot),
{
    str_eq(payload.rom_hash.as_str(), rom_hash) && payload.slot == slot
}

/// Label of a save-state slot in the menus:
/// `<n> - <timestamp> - <rom name>`, or `<n> - (<empty word>)` when the slot
/// has no metadata or an empty name.
pub open spec fn slot_label_spec(meta: Option<(Seq<char>, Seq<char>)>, slot: nat, empty_word: Seq<char>) -> Seq<char> {
    let prefix = decimal(slot + 1) + " - "@;
    match meta {
        Some((name, timestamp)) => if name.len() == 0 {
            prefix + "("@ + empty_word + ")"@
        } else {
            prefix + timestamp + " - "@ + name
        },
        None => prefix + "("@ + empty_word + ")"@,
    }
}

/// Builds a save-state slot label using its metadata when available.
pub fn slot_label_text(meta: Option<&SaveStateMeta>, slot: usize, empty_word: &str) -> (label: String)
    requires
        slot < u64::MAX,
    ensures
        label@ == slot_label_spec(
            match meta {
                Some(m) => Some((m.name@, m.timestamp@)),
                None => None,
            },
            slot as nat,
            empty_word@,
        ),
{
    let mut label = String::new();
    push_decimal(&mut label, slot as u64 + 1);
    push_str(&mut label, " - ");
    match meta {
        Some(m) => {
            if m.name.as_str().unicode_len() == 0 {
                push_str(&mut label, "(");
                push_str(&mut label, empty_word);
                push_str(&mut label, ")");
            } else {
                push_str(&mut label, m.timestamp.as_str());
                push_str(&mut label, " - ");
                push_str(&mut label, m.name.as_str());
            }
        },
        None => {
            push_str(&mut label, "(");
            push_str(&mut label, empty_word);
            push_str(&mut label, ")");
        },
    }
    label
}

} // verus!
