//! Emulation session control: ROM and pause state, the save-state slots,
//! keyboard shortcut dispatch, keypad input merging, and the buzzer.

use vstd::prelude::*;
use vstd::string::*;
use crate::text::{push_char, str_eq, push_str, push_decimal, decimal};
use crate::keys::{
    KeyCode, PointerButtonCode, key_from_label, mouse_from_label, key_from_label_spec,
    button_of_word, normalized, to_lower, lowercased,
};
use crate::display::{Display, blank_pixels};
use crate::savestate::{
    CPU, EmuSnapshot, SaveStateMeta, PersistedSaveState, capture_snapshot, restore_snapshot,
    same_cpu, same_registers, accepts_persisted, install_accepts, rom_hash_hex, rom_hash_spec, SAVE_STATE_VERSION,
};

verus! {

/// A status message about a slot: `<word> <slot number>`.
pub open spec fn slot_status_spec(word: Seq<char>, slot: nat) -> Seq<char> {
    word + seq![' '] + decimal(slot + 1)
}

/// Builds a status message about a slot.
pub fn slot_status(word: &str, slot: usize) -> (s: String)
    requires
        slot < u64::MAX,
    ensures
        s@ == slot_status_spec(word@, slot as nat),
{
    let mut s = word.to_string();
    push_char(&mut s, ' ');
    push_decimal(&mut s, slot as u64 + 1);
    s
}

/// What the caller has to do after a save-state slot was loaded.
#[derive(PartialEq, Eq, Structural, Clone, Copy, Debug)]
pub enum SlotLoad {
    /// The slot number is out of range: nothing happened.
    Ignored,
    /// The slot holds no state: only the status changed.
    Empty,
    /// The state was restored; when its memory could not be copied back and
    /// a ROM is loaded, the ROM program must be loaded again.
    Restored { reload_program: bool },
}

/// What loading a save-state file did.
#[derive(PartialEq, Eq, Structural, Clone, Copy, Debug)]
pub enum StateFileLoad {
    /// The state belongs to another ROM than the loaded one: nothing changed.
    OtherRom,
    /// No ROM is loaded and the file brings none with its hash: the status
    /// says so.
    NoRom,
    /// The state was restored; the ROM program must be loaded again when the
    /// saved memory could not be copied back.
    Restored { reload_program: bool },
}

/// The emulation session: ROM, run state, status line, the CHIP-8 keypad
/// and the save-state slots.
pub struct Session {
    pub rom_chargee: bool,
    pub en_pause: bool,
    pub fullscreen: bool,
    pub rom_data: Vec<u8>,
    /// Path of the ROM being run, if any.
    pub rom_path: Option<String>,
    /// Path of the most recently loaded ROM, kept across stops.
    pub last_rom_path: Option<String>,
    pub status_message: String,
    /// The message shown over the screen for a short while.
    pub overlay_message: String,
    /// Until when (milliseconds of the front end's clock) the message shows.
    pub overlay_until_ms: u64,
    /// The CHIP-8 keys held down, as the interpreter reads them.
    pub keypad: [bool; 16],
    pub savestates: [Option<EmuSnapshot>; 3],
    pub savestate_meta: [Option<SaveStateMeta>; 3],
    pub confirm_overwrite_slot: Option<usize>,
}

/// Every key of a keypad is released.
pub open spec fn keypad_released(k: [bool; 16]) -> bool {
    forall|i: int| 0 <= i < 16 ==> !(#[trigger] k@[i])
}

/// The save-state slots and their metadata are the same in both sessions.
pub open spec fn slots_kept(a: Session, b: Session) -> bool {
    &&& b.savestates@ == a.savestates@
    &&& b.savestate_meta@ == a.savestate_meta@
}

/// The ROM (its data and paths) is the same in both sessions.
pub open spec fn rom_kept(a: Session, b: Session) -> bool {
    &&& b.rom_data@ == a.rom_data@
    &&& b.rom_path == a.rom_path
    &&& b.last_rom_path == a.last_rom_path
}

/// A screen with every pixel off and the buffer's length kept.
pub open spec fn screen_cleared(before: Display, after: Display) -> bool {
    after.pixels@ == blank_pixels(before.pixels@.len())
}

/// The ROM path recorded in a save state: the current ROM path, else the
/// last one, else empty.
pub open spec fn recorded_rom_path(s: Session) -> Seq<char> {
    match s.rom_path {
        Some(p) => p@,
        None => match s.last_rom_path {
            Some(p) => p@,
            None => Seq::empty(),
        },
    }
}

/// The ROM that a save-state file brings when none is loaded: the ROM
/// bytes stored in the file, else the bytes read from its recorded path.
pub open spec fn state_rom(p: PersistedSaveState, recorded: Option<Vec<u8>>) -> Option<Seq<u8>> {
    if p.rom_bytes@.len() > 0 {
        Some(p.rom_bytes@)
    } else {
        match recorded {
            Some(r) => Some(r@),
            None => None,
        }
    }
}

/// The ROM the file brings is there and has the state's hash.
pub open spec fn state_rom_matches(p: PersistedSaveState, recorded: Option<Vec<u8>>) -> bool {
    state_rom(p, recorded) matches Some(r) && p.rom_hash@ == rom_hash_spec(r)
}

/// When a message shown at `now_ms` disappears: one second later.
pub open spec fn overlay_deadline(now_ms: u64) -> u64 {
    if now_ms <= u64::MAX - 1000 {
        (now_ms + 1000) as u64
    } else {
        u64::MAX
    }
}

/// The status message is shown over the screen for one second from `now_ms`.
pub open spec fn overlay_shown(s: Session, now_ms: u64) -> bool {
    &&& s.overlay_message@ == s.status_message@
    &&& s.overlay_until_ms == overlay_deadline(now_ms)
}

/// The overlay is the same in both sessions.
pub open spec fn overlay_kept(a: Session, b: Session) -> bool {
    &&& b.overlay_message@ == a.overlay_message@
    &&& b.overlay_until_ms == a.overlay_until_ms
}

/// The text shown over the screen: the pause word while paused, otherwise
/// the last message until its time is up.
pub fn overlay_text(en_pause: bool, message: &str, now_ms: u64, until_ms: u64, paused_word: &str) -> (t: Option<String>)
    ensures
        (t is Some) == (en_pause || (message@.len() > 0 && now_ms < until_ms)),
        t matches Some(s) ==> s@ == (if en_pause {
            paused_word@
        } else {
            message@
        }),
{
    if en_pause {
        Some(paused_word.to_string())
    } else if message.unicode_len() > 0 && now_ms < until_ms {
        Some(message.to_string())
    } else {
        None
    }
}

impl Session {
    /// Shows the status message over the screen for one second from
    /// `now_ms`; nothing else changes.
    pub fn show_display_overlay(&mut self, now_ms: u64)
        ensures
            overlay_shown(*final(self), now_ms),
            *final(self) == (Session {
                overlay_message: final(self).overlay_message,
                overlay_until_ms: final(self).overlay_until_ms,
                ..*old(self)
            }),
    {
        self.overlay_message = self.status_message.clone();
        self.overlay_until_ms = if now_ms <= u64::MAX - 1000 {
            now_ms + 1000
        } else {
            u64::MAX
        };
    }

    /// Sets the status line and shows it over the screen for one second
    /// from `now_ms`; nothing else changes.
    pub fn report_status(&mut self, message: String, now_ms: u64)
        ensures
            final(self).status_message@ == message@,
            overlay_shown(*final(self), now_ms),
            *final(self) == (Session {
                status_message: final(self).status_message,
                overlay_message: final(self).overlay_message,
                overlay_until_ms: final(self).overlay_until_ms,
                ..*old(self)
            }),
    {
        self.status_message = message;
        self.show_display_overlay(now_ms);
    }

    /// No ROM, not paused, windowed, keypad released, empty slots.
    pub fn new() -> (s: Self)
        ensures
            !s.rom_chargee && !s.en_pause && !s.fullscreen,
            s.rom_data@.len() == 0,
            s.rom_path is None && s.last_rom_path is None,
            s.status_message@.len() == 0,
            s.overlay_message@.len() == 0,
            keypad_released(s.keypad),
            s.savestates@.len() == 3,
            forall|i: int| 0 <= i < 3 ==> s.savestates@[i] is None && s.savestate_meta@[i] is None,
            s.confirm_overwrite_slot is None,
    {
        Session {
            rom_chargee: false,
            en_pause: false,
            fullscreen: false,
            rom_data: Vec::new(),
            rom_path: None,
            last_rom_path: None,
            status_message: String::new(),
            overlay_message: String::new(),
            overlay_until_ms: 0,
            keypad: [false; 16],
            savestates: [None, None, None],
            savestate_meta: [None, None, None],
            confirm_overwrite_slot: None,
        }
    }

    /// True when a ROM-dependent input or action is allowed.
    pub fn can_interact_with_rom(&self) -> (ok: bool)
        ensures
            ok == self.rom_chargee,
    {
        self.rom_chargee
    }

    /// Whether the interpreter runs this frame.
    pub fn emulation_running(&self) -> (running: bool)
        ensures
            running == (self.rom_chargee && !self.en_pause),
    {
        self.rom_chargee && !self.en_pause
    }

    /// Start of a frame: without ROM data there is no loaded ROM.
    pub fn sync_rom_flag(&mut self)
        ensures
            final(self).rom_chargee == (old(self).rom_chargee && old(self).rom_data@.len() > 0),
            final(self).en_pause == old(self).en_pause,
            final(self).fullscreen == old(self).fullscreen,
            final(self).status_message@ == old(self).status_message@,
            final(self).keypad == old(self).keypad,
            rom_kept(*old(self), *final(self)),
            slots_kept(*old(self), *final(self)),
    {
        if self.rom_data.len() == 0 {
            self.rom_chargee = false;
        }
    }

    /// Toggles pause; the status shows the new state.
    pub fn toggle_pause(&mut self, paused_word: &str, resumed_word: &str, now_ms: u64)
        ensures
            overlay_shown(*final(self), now_ms),
            final(self).en_pause == !old(self).en_pause,
            final(self).status_message@ == if final(self).en_pause {
                paused_word@
            } else {
                resumed_word@
            },
            final(self).rom_chargee == old(self).rom_chargee,
            final(self).fullscreen == old(self).fullscreen,
            final(self).keypad == old(self).keypad,
            rom_kept(*old(self), *final(self)),
            slots_kept(*old(self), *final(self)),
    {
        self.en_pause = !self.en_pause;
        self.status_message = if self.en_pause {
            paused_word.to_string()
        } else {
            resumed_word.to_string()
        };
        self.show_display_overlay(now_ms);
    }

    /// Sets fullscreen; a change updates the status. Returns whether it
    /// changed.
    pub fn set_fullscreen(&mut self, fullscreen: bool, on_word: &str, off_word: &str, now_ms: u64) -> (changed: bool)
        ensures
            changed ==> overlay_shown(*final(self), now_ms),
            !changed ==> overlay_kept(*old(self), *final(self)),
            changed == (fullscreen != old(self).fullscreen),
            final(self).fullscreen == fullscreen,
            changed ==> final(self).status_message@ == if fullscreen {
                on_word@
            } else {
                off_word@
            },
            !changed ==> final(self).status_message@ == old(self).status_message@,
            final(self).en_pause == old(self).en_pause,
            final(self).rom_chargee == old(self).rom_chargee,
            final(self).keypad == old(self).keypad,
            rom_kept(*old(self), *final(self)),
            slots_kept(*old(self), *final(self)),
    {
        if self.fullscreen == fullscreen {
            return false;
        }
        self.fullscreen = fullscreen;
        self.status_message = if fullscreen {
            on_word.to_string()
        } else {
            off_word.to_string()
        };
        self.show_display_overlay(now_ms);
        true
    }

    /// Switches between fullscreen and windowed; the status shows the new
    /// mode.
    pub fn toggle_fullscreen(&mut self, on_word: &str, off_word: &str, now_ms: u64)
        ensures
            overlay_shown(*final(self), now_ms),
            final(self).fullscreen == !old(self).fullscreen,
            final(self).status_message@ == if final(self).fullscreen {
                on_word@
            } else {
                off_word@
            },
            final(self).en_pause == old(self).en_pause,
            final(self).rom_chargee == old(self).rom_chargee,
            final(self).keypad == old(self).keypad,
            rom_kept(*old(self), *final(self)),
            slots_kept(*old(self), *final(self)),
    {
        let target = !self.fullscreen;
        self.set_fullscreen(target, on_word, off_word, now_ms);
    }

    /// Takes a freshly read ROM: it becomes the ROM data, its path becomes
    /// the current and the last ROM path, it counts as loaded and runs
    /// unpaused; the screen is cleared, the keypad released, and the slots
    /// are emptied, for the save states found on disk for this ROM to be
    /// installed again. The caller resets the interpreter and loads the
    /// program.
    pub fn load_rom(&mut self, data: Vec<u8>, path: String, display: &mut Display)
        ensures
            final(self).rom_data@ == data@,
            final(self).rom_path == Some(path),
            final(self).last_rom_path == Some(path),
            final(self).rom_chargee && !final(self).en_pause,
            keypad_released(final(self).keypad),
            screen_cleared(*old(display), *final(display)),
            forall|i: int| 0 <= i < 3 ==> final(self).savestates@[i] is None
                && final(self).savestate_meta@[i] is None,
            final(self).fullscreen == old(self).fullscreen,
            final(self).status_message@ == old(self).status_message@,
    {
        self.rom_data = data;
        self.last_rom_path = Some(path.clone());
        self.rom_path = Some(path);
        display.clear();
        self.keypad = [false; 16];
        self.rom_chargee = true;
        self.en_pause = false;
        self.savestates = [None, None, None];
        self.savestate_meta = [None, None, None];
    }

    /// What is written to disk for a slot: `None` when the slot holds no
    /// state or no metadata; otherwise the slot's state and metadata with
    /// the ROM's name (from the metadata), hash and path (the current ROM
    /// path, else the last one, else empty), and no ROM bytes.
    pub fn persisted_payload(&self, slot: usize) -> (payload: Option<PersistedSaveState>)
        ensures
            payload is None <==> (slot >= 3 || self.savestates@[slot as int] is None
                || self.savestate_meta@[slot as int] is None),
            payload matches Some(p) ==> {
                &&& p.version == SAVE_STATE_VERSION
                &&& p.rom_name@ == self.savestate_meta@[slot as int]->0.name@
                &&& p.rom_hash@ == rom_hash_spec(self.rom_data@)
                &&& p.rom_bytes@.len() == 0
                &&& p.rom_path@ == recorded_rom_path(*self)
                &&& p.slot == slot
                &&& p.meta.name@ == self.savestate_meta@[slot as int]->0.name@
                &&& p.meta.timestamp@ == self.savestate_meta@[slot as int]->0.timestamp@
                &&& same_cpu(p.snapshot.cpu, self.savestates@[slot as int]->0.cpu)
                &&& p.snapshot.display.pixels@ == self.savestates@[slot as int]->0.display.pixels@
                &&& p.snapshot.memory@ == self.savestates@[slot as int]->0.memory@
            },
    {
        if slot >= 3 {
            return None;
        }
        let snapshot = match &self.savestates[slot] {
            Some(s) => s.duplicate(),
            None => {
                return None;
            },
        };
        let meta = match &self.savestate_meta[slot] {
            Some(m) => m.duplicate(),
            None => {
                return None;
            },
        };
        let rom_name = meta.name.clone();
        let path = match &self.rom_path {
            Some(p) => p.clone(),
            None => match &self.last_rom_path {
                Some(p) => p.clone(),
                None => String::new(),
            },
        };
        Some(PersistedSaveState {
            version: SAVE_STATE_VERSION,
            rom_name,
            rom_hash: rom_hash_hex(self.rom_data.as_slice()),
            rom_bytes: Vec::new(),
            rom_path: path,
            slot,
            meta,
            snapshot,
        })
    }

    /// The answer to the "overwrite this slot?" question: the question
    /// closes, and on "yes" the slot it was about is returned, to be saved
    /// now.
    pub fn answer_overwrite(&mut self, yes: bool) -> (slot: Option<usize>)
        ensures
            final(self).confirm_overwrite_slot is None,
            slot == if yes {
                old(self).confirm_overwrite_slot
            } else {
                None
            },
            final(self).savestates@ == old(self).savestates@,
            final(self).savestate_meta@ == old(self).savestate_meta@,
            final(self).status_message@ == old(self).status_message@,
    {
        let asked = self.confirm_overwrite_slot;
        self.confirm_overwrite_slot = None;
        if yes {
            asked
        } else {
            None
        }
    }

    /// The reset done on every start-up: no ROM and no current ROM path,
    /// not paused, screen cleared, keypad released. The caller also resets
    /// the interpreter.
    pub fn reset_runtime_on_startup(&mut self, display: &mut Display)
        ensures
            final(self).rom_data@.len() == 0,
            final(self).rom_path is None,
            final(self).last_rom_path == old(self).last_rom_path,
            !final(self).rom_chargee && !final(self).en_pause,
            keypad_released(final(self).keypad),
            screen_cleared(*old(display), *final(display)),
            final(self).fullscreen == old(self).fullscreen,
            slots_kept(*old(self), *final(self)),
            final(self).status_message@ == old(self).status_message@,
    {
        display.clear();
        self.keypad = [false; 16];
        self.rom_data = Vec::new();
        self.rom_path = None;
        self.rom_chargee = false;
        self.en_pause = false;
    }

    /// Stops emulation: no ROM and no current ROM path, not paused, screen
    /// cleared, keypad released, empty slots; the status says so. The last
    /// ROM path is kept. The caller also resets the interpreter.
    pub fn stop_emulation(&mut self, display: &mut Display, stopped_word: &str, now_ms: u64)
        ensures
            overlay_shown(*final(self), now_ms),
            !final(self).rom_chargee && !final(self).en_pause,
            final(self).rom_data@.len() == 0,
            final(self).rom_path is None,
            final(self).last_rom_path == old(self).last_rom_path,
            keypad_released(final(self).keypad),
            screen_cleared(*old(display), *final(display)),
            forall|i: int| 0 <= i < 3 ==> final(self).savestates@[i] is None
                && final(self).savestate_meta@[i] is None,
            final(self).status_message@ == stopped_word@,
            final(self).fullscreen == old(self).fullscreen,
    {
        display.clear();
        self.keypad = [false; 16];
        self.rom_data = Vec::new();
        self.rom_path = None;
        self.en_pause = false;
        self.rom_chargee = false;
        self.savestates = [None, None, None];
        self.savestate_meta = [None, None, None];
        self.status_message = stopped_word.to_string();
        self.show_display_overlay(now_ms);
    }

    /// Restarts the loaded ROM. Without ROM data the status says so, no ROM
    /// counts as loaded, nothing else changes, and the result is false.
    /// Otherwise the screen is cleared, the keypad released, the ROM runs
    /// again unpaused, the status reads `<reset word> (<loaded> <unit>)`
    /// and the result is true; `loaded` is the number of program bytes that
    /// the caller's reset interpreter took from the ROM data. The ROM and
    /// the save-state slots are kept either way.
    pub fn reset_rom(
        &mut self,
        display: &mut Display,
        no_rom_word: &str,
        reset_word: &str,
        loaded: usize,
        unit: &str,
        now_ms: u64,
    ) -> (restart: bool)
        requires
            loaded <= u64::MAX,
        ensures
            restart ==> overlay_shown(*final(self), now_ms),
            !restart ==> overlay_kept(*old(self), *final(self)),
            restart == (old(self).rom_data@.len() > 0),
            !restart ==> !final(self).rom_chargee && final(self).status_message@ == no_rom_word@
                && final(self).en_pause == old(self).en_pause && final(self).keypad == old(self).keypad
                && *final(display) == *old(display),
            restart ==> final(self).rom_chargee && !final(self).en_pause
                && keypad_released(final(self).keypad) && screen_cleared(*old(display), *final(display))
                && final(self).status_message@ == rom_reset_spec(reset_word@, loaded as nat, unit@),
            rom_kept(*old(self), *final(self)),
            slots_kept(*old(self), *final(self)),
            final(self).fullscreen == old(self).fullscreen,
    {
        if self.rom_data.len() == 0 {
            self.status_message = no_rom_word.to_string();
            self.rom_chargee = false;
            return false;
        }
        display.clear();
        self.keypad = [false; 16];
        self.en_pause = false;
        self.rom_chargee = true;
        self.status_message = rom_reset_message(reset_word, loaded, unit);
        self.show_display_overlay(now_ms);
        true
    }

    /// A save request: a manual save over a slot that already holds a state
    /// asks for confirmation first (and returns false); otherwise the save
    /// goes ahead (true).
    pub fn request_save(&mut self, slot: usize, manual: bool) -> (commit: bool)
        ensures
            commit == !(manual && slot < 3 && old(self).savestate_meta@[slot as int] is Some),
            !commit ==> final(self).confirm_overwrite_slot == Some(slot),
            commit ==> final(self).confirm_overwrite_slot == old(self).confirm_overwrite_slot,
            final(self).savestate_meta@ == old(self).savestate_meta@,
    {
        if manual && slot < 3 && self.savestate_meta[slot].is_some() {
            self.confirm_overwrite_slot = Some(slot);
            return false;
        }
        true
    }

    /// Saves a snapshot of the interpreter and the screen into a slot, with
    /// the ROM file name and the time. The status reads
    /// `<saved word> <n>`, followed for a manual save by ` - <time> - <rom>`.
    pub fn save_state_slot_commit(
        &mut self,
        slot: usize,
        manual: bool,
        cpu: &CPU,
        display: &Display,
        rom_name: &str,
        timestamp: &str,
        saved_word: &str,
        now_ms: u64,
    )
        ensures
            slot < 3 ==> overlay_shown(*final(self), now_ms),
            slot >= 3 ==> *final(self) == *old(self),
            slot < 3 ==> (final(self).savestates@[slot as int] matches Some(s) && same_cpu(s.cpu, *cpu)
                && s.display.pixels@ == display.pixels@ && s.memory@ == cpu.memory@),
            slot < 3 ==> (final(self).savestate_meta@[slot as int] matches Some(m) && m.name@ == rom_name@
                && m.timestamp@ == timestamp@),
            slot < 3 ==> forall|i: int| 0 <= i < 3 && i != slot ==> final(self).savestates@[i]
                == old(self).savestates@[i] && final(self).savestate_meta@[i]
                == old(self).savestate_meta@[i],
            slot < 3 && manual ==> final(self).status_message@ == slot_status_spec(saved_word@, slot as nat)
                + " - "@ + timestamp@ + " - "@ + rom_name@,
            slot < 3 && !manual ==> final(self).status_message@ == slot_status_spec(saved_word@, slot as nat),
            final(self).rom_chargee == old(self).rom_chargee,
            final(self).en_pause == old(self).en_pause,
            final(self).rom_data@ == old(self).rom_data@,
    {
        if slot >= 3 {
            return;
        }
        let snap = capture_snapshot(cpu, display);
        self.savestates[slot] = Some(snap);
        self.savestate_meta[slot] = Some(SaveStateMeta { name: rom_name.to_string(), timestamp: timestamp.to_string() });
        let mut msg = slot_status(saved_word, slot);
        if manual {
            push_str(&mut msg, " - ");
            push_str(&mut msg, timestamp);
            push_str(&mut msg, " - ");
            push_str(&mut msg, rom_name);
        }
        self.status_message = msg;
        self.show_display_overlay(now_ms);
    }

    /// Loads a slot into the interpreter and the screen. A restored state
    /// counts as a loaded, running ROM; the status names the slot.
    pub fn load_state_slot(
        &mut self,
        slot: usize,
        cpu: &mut CPU,
        display: &mut Display,
        loaded_word: &str,
        empty_word: &str,
        now_ms: u64,
    ) -> (outcome: SlotLoad)
        ensures
            slot < 3 ==> overlay_shown(*final(self), now_ms),
            slot >= 3 ==> outcome == SlotLoad::Ignored && *final(self) == *old(self) && *final(cpu)
                == *old(cpu) && *final(display) == *old(display),
            slot < 3 && old(self).savestates@[slot as int] is None ==> outcome == SlotLoad::Empty
                && final(self).status_message@ == slot_status_spec(empty_word@, slot as nat)
                && final(self).rom_chargee == old(self).rom_chargee && final(self).en_pause
                == old(self).en_pause && *final(cpu) == *old(cpu) && *final(display) == *old(display),
            slot < 3 ==> (old(self).savestates@[slot as int] matches Some(s) ==> {
                &&& same_registers(*final(cpu), s.cpu)
                &&& final(display).pixels@ == s.display.pixels@
                &&& (s.memory@.len() == s.cpu.memory@.len() ==> final(cpu).memory@ == s.memory@)
                &&& (s.memory@.len() != s.cpu.memory@.len() ==> final(cpu).memory@ == s.cpu.memory@)
                &&& outcome == SlotLoad::Restored {
                    reload_program: s.memory@.len() != s.cpu.memory@.len() && old(self).rom_data@.len() > 0,
                }
                &&& final(self).rom_chargee && !final(self).en_pause
                &&& final(self).status_message@ == slot_status_spec(loaded_word@, slot as nat)
            }),
            final(self).savestates@ == old(self).savestates@,
            final(self).savestate_meta@ == old(self).savestate_meta@,
            final(self).rom_data@ == old(self).rom_data@,
    {
        if slot >= 3 {
            return SlotLoad::Ignored;
        }
        match &self.savestates[slot] {
            Some(snapshot) => {
                let copied = restore_snapshot(snapshot, cpu, display);
                let reload = !copied && self.rom_data.len() > 0;
                self.rom_chargee = true;
                self.en_pause = false;
                self.status_message = slot_status(loaded_word, slot);
                self.show_display_overlay(now_ms);
                SlotLoad::Restored { reload_program: reload }
            },
            None => {
                self.status_message = slot_status(empty_word, slot);
                self.show_display_overlay(now_ms);
                SlotLoad::Empty
            },
        }
    }

    /// Takes a save state read from disk into one of the three slots when it
    /// belongs to the current ROM (same hash) and to that slot. Returns
    /// whether it did.
    pub fn install_persisted(&mut self, slot: usize, payload: PersistedSaveState, rom_hash: &str) -> (installed: bool)
        ensures
            installed == install_accepts(payload, rom_hash@, slot as int),
            installed ==> final(self).savestates@[slot as int] == Some(payload.snapshot)
                && final(self).savestate_meta@[slot as int] == Some(payload.meta),
            !installed ==> *final(self) == *old(self),
            forall|i: int| 0 <= i < 3 && i != slot ==> final(self).savestates@[i]
                == old(self).savestates@[i] && final(self).savestate_meta@[i]
                == old(self).savestate_meta@[i],
    {
        if slot >= 3 || !accepts_persisted(&payload, rom_hash, slot) {
            return false;
        }
        self.savestates[slot] = Some(payload.snapshot);
        self.savestate_meta[slot] = Some(payload.meta);
        true
    }

    /// Loads a save state read from a file (given on the command line or
    /// picked in a dialog).
    ///
    /// With a ROM loaded, a state made for another ROM (another hash) is
    /// left alone: nothing changes and the result is `OtherRom`.
    ///
    /// With no ROM loaded, the state brings its ROM: the ROM bytes stored
    /// in the file, else `recorded_rom`, the bytes the caller read from the
    /// ROM path the file records. When there are none, or they have another
    /// hash than the state's, the status reads `<no ROM word>: <file name>`
    /// (shown over the screen) and the result is `NoRom`. Otherwise those
    /// bytes become the ROM data, the recorded path the current and last
    /// ROM path, the keypad is released and the slots are emptied (for the
    /// caller to install the save states of that ROM).
    ///
    /// A restored state sets the interpreter and the screen from the
    /// snapshot; with a ROM loaded, ROM bytes stored in the file replace the
    /// ROM data. The ROM counts as loaded and running, the status reads
    /// `<loaded word>: <file name>` (shown over the screen), and the result
    /// tells whether the ROM program must be loaded again.
    pub fn load_state_file(
        &mut self,
        payload: PersistedSaveState,
        recorded_rom: Option<Vec<u8>>,
        cpu: &mut CPU,
        display: &mut Display,
        loaded_word: &str,
        no_rom_word: &str,
        file_name: &str,
        now_ms: u64,
    ) -> (outcome: StateFileLoad)
        ensures
            outcome == StateFileLoad::OtherRom <==> (old(self).rom_data@.len() > 0 && payload.rom_hash@
                != rom_hash_spec(old(self).rom_data@)),
            outcome == StateFileLoad::OtherRom ==> *final(self) == *old(self) && *final(cpu) == *old(cpu)
                && *final(display) == *old(display),
            outcome == StateFileLoad::NoRom <==> (old(self).rom_data@.len() == 0 && !state_rom_matches(
                payload,
                recorded_rom,
            )),
            outcome == StateFileLoad::NoRom ==> {
                &&& final(self).status_message@ == no_rom_word@ + ": "@ + file_name@
                &&& overlay_shown(*final(self), now_ms)
                &&& *final(self) == (Session {
                    status_message: final(self).status_message,
                    overlay_message: final(self).overlay_message,
                    overlay_until_ms: final(self).overlay_until_ms,
                    ..*old(self)
                })
                &&& *final(cpu) == *old(cpu)
                &&& *final(display) == *old(display)
            },
            outcome matches StateFileLoad::Restored { reload_program } ==> {
                &&& same_registers(*final(cpu), payload.snapshot.cpu)
                &&& final(display).pixels@ == payload.snapshot.display.pixels@
                &&& reload_program == (payload.snapshot.memory@.len() != payload.snapshot.cpu.memory@.len())
                &&& (payload.snapshot.memory@.len() == payload.snapshot.cpu.memory@.len()
                    ==> final(cpu).memory@ == payload.snapshot.memory@)
                &&& (payload.snapshot.memory@.len() != payload.snapshot.cpu.memory@.len()
                    ==> final(cpu).memory@ == payload.snapshot.cpu.memory@)
                &&& final(self).rom_chargee && !final(self).en_pause
                &&& final(self).status_message@ == loaded_word@ + ": "@ + file_name@
                &&& overlay_shown(*final(self), now_ms)
                &&& old(self).rom_data@.len() > 0 ==> {
                    &&& final(self).rom_data@ == if payload.rom_bytes@.len() > 0 {
                        payload.rom_bytes@
                    } else {
                        old(self).rom_data@
                    }
                    &&& final(self).rom_path == old(self).rom_path
                    &&& final(self).last_rom_path == old(self).last_rom_path
                    &&& slots_kept(*old(self), *final(self))
                }
                &&& old(self).rom_data@.len() == 0 ==> {
                    &&& Some(final(self).rom_data@) == state_rom(payload, recorded_rom)
                    &&& final(self).rom_path == Some(payload.rom_path)
                    &&& final(self).last_rom_path == Some(payload.rom_path)
                    &&& keypad_released(final(self).keypad)
                    &&& forall|i: int| 0 <= i < 3 ==> final(self).savestates@[i] is None
                        && final(self).savestate_meta@[i] is None
                }
            },
    {
        if self.rom_data.len() > 0 {
            let now_hash = rom_hash_hex(self.rom_data.as_slice());
            if !str_eq(payload.rom_hash.as_str(), now_hash.as_str()) {
                return StateFileLoad::OtherRom;
            }
            let copied = restore_snapshot(&payload.snapshot, cpu, display);
            if payload.rom_bytes.len() > 0 {
                self.rom_data = payload.rom_bytes;
            }
            self.finish_state_load(loaded_word, file_name, now_ms);
            return StateFileLoad::Restored { reload_program: !copied };
        }
        let candidate: Option<Vec<u8>> = if payload.rom_bytes.len() > 0 {
            Some(vstd::slice::slice_to_vec(payload.rom_bytes.as_slice()))
        } else {
            recorded_rom
        };
        let bytes = match candidate {
            Some(b) => b,
            None => {
                let mut msg = no_rom_word.to_string();
                push_str(&mut msg, ": ");
                push_str(&mut msg, file_name);
                self.report_status(msg, now_ms);
                return StateFileLoad::NoRom;
            },
        };
        let bytes_hash = rom_hash_hex(bytes.as_slice());
        if !str_eq(payload.rom_hash.as_str(), bytes_hash.as_str()) {
            let mut msg = no_rom_word.to_string();
            push_str(&mut msg, ": ");
            push_str(&mut msg, file_name);
            self.report_status(msg, now_ms);
            return StateFileLoad::NoRom;
        }
        let copied = restore_snapshot(&payload.snapshot, cpu, display);
        self.rom_data = bytes;
        self.rom_path = Some(payload.rom_path.clone());
        self.last_rom_path = Some(payload.rom_path);
        self.keypad = [false; 16];
        self.savestates = [None, None, None];
        self.savestate_meta = [None, None, None];
        self.finish_state_load(loaded_word, file_name, now_ms);
        StateFileLoad::Restored { reload_program: !copied }
    }

    fn finish_state_load(&mut self, loaded_word: &str, file_name: &str, now_ms: u64)
        ensures
            final(self).rom_chargee && !final(self).en_pause,
            final(self).status_message@ == loaded_word@ + ": "@ + file_name@,
            overlay_shown(*final(self), now_ms),
            rom_kept(*old(self), *final(self)),
            slots_kept(*old(self), *final(self)),
            final(self).keypad == old(self).keypad,
    {
        self.rom_chargee = true;
        self.en_pause = false;
        let mut msg = loaded_word.to_string();
        push_str(&mut msg, ": ");
        push_str(&mut msg, file_name);
        self.report_status(msg, now_ms);
    }
}

/// The status after a ROM was read: `<word>: <rom name> (<bytes> <unit>)`.
pub open spec fn rom_loaded_spec(word: Seq<char>, rom_name: Seq<char>, loaded: nat, unit: Seq<char>) -> Seq<char> {
    word + ": "@ + rom_name + " ("@ + decimal(loaded) + " "@ + unit + ")"@
}

/// Builds the status after a ROM was read, with the number of program
/// bytes loaded.
pub fn rom_loaded_message(word: &str, rom_name: &str, loaded: usize, unit: &str) -> (s: String)
    requires
        loaded <= u64::MAX,
    ensures
        s@ == rom_loaded_spec(word@, rom_name@, loaded as nat, unit@),
{
    let mut s = word.to_string();
    push_str(&mut s, ": ");
    push_str(&mut s, rom_name);
    push_str(&mut s, " (");
    push_decimal(&mut s, loaded as u64);
    push_char(&mut s, ' ');
    push_str(&mut s, unit);
    push_char(&mut s, ')');
    proof {
        reveal_strlit(" ");
        reveal_strlit(")");
    }
    assert(s@ =~= rom_loaded_spec(word@, rom_name@, loaded as nat, unit@));
    s
}

/// The status after the ROM was restarted: `<word> (<bytes> <unit>)`.
pub open spec fn rom_reset_spec(word: Seq<char>, loaded: nat, unit: Seq<char>) -> Seq<char> {
    word + " ("@ + decimal(loaded) + " "@ + unit + ")"@
}

/// Builds the status after the ROM was restarted, with the number of
/// program bytes loaded.
pub fn rom_reset_message(word: &str, loaded: usize, unit: &str) -> (s: String)
    requires
        loaded <= u64::MAX,
    ensures
        s@ == rom_reset_spec(word@, loaded as nat, unit@),
{
    let mut s = word.to_string();
    push_str(&mut s, " (");
    push_decimal(&mut s, loaded as u64);
    push_char(&mut s, ' ');
    push_str(&mut s, unit);
    push_char(&mut s, ')');
    proof {
        reveal_strlit(" ");
        reveal_strlit(")");
    }
    assert(s@ =~= rom_reset_spec(word@, loaded as nat, unit@));
    s
}

/// The status after a ROM could not be read: `<word>: <rom name> (<error>)`.
pub open spec fn rom_failed_spec(word: Seq<char>, rom_name: Seq<char>, err: Seq<char>) -> Seq<char> {
    word + ": "@ + rom_name + " ("@ + err + ")"@
}

/// Builds the status after a ROM could not be read.
pub fn rom_failed_message(word: &str, rom_name: &str, err: &str) -> (s: String)
    ensures
        s@ == rom_failed_spec(word@, rom_name@, err@),
{
    let mut s = word.to_string();
    push_str(&mut s, ": ");
    push_str(&mut s, rom_name);
    push_str(&mut s, " (");
    push_str(&mut s, err);
    push_char(&mut s, ')');
    proof {
        reveal_strlit(")");
    }
    assert(s@ =~= rom_failed_spec(word@, rom_name@, err@));
    s
}

/// Actions that keyboard shortcuts trigger.
#[derive(PartialEq, Eq, Structural, Clone, Copy, Debug)]
pub enum ShortcutAction {
    TogglePause,
    ResetRom,
    StopEmulation,
    LoadRomDialog,
    ToggleFullscreen,
    SaveSlot(usize),
    LoadSlot(usize),
    /// Flip the pause flag without a status message.
    FlipPause,
    /// Flip the fullscreen flag without a status message.
    FlipFullscreen,
}

/// The shortcuts pressed on a frame.
#[derive(PartialEq, Eq, Structural, Clone, Copy, Debug)]
pub struct ShortcutPresses {
    pub pause: bool,
    pub reset: bool,
    pub stop: bool,
    pub load_game: bool,
    pub fullscreen: bool,
    pub save_1: bool,
    pub save_2: bool,
    pub save_3: bool,
    pub load_1: bool,
    pub load_2: bool,
    pub load_3: bool,
    /// Alt+Enter, a fixed extra fullscreen shortcut.
    pub alt_enter: bool,
}

/// `[a]` when the condition holds, else nothing.
pub open spec fn when(c: bool, a: ShortcutAction) -> Seq<ShortcutAction> {
    if c {
        seq![a]
    } else {
        Seq::empty()
    }
}

/// The first batch of shortcut actions of a frame: pause, reset and stop
/// when a ROM is loaded, then load game and fullscreen. Nothing while a text
/// field takes the keyboard.
pub open spec fn first_batch(p: ShortcutPresses, typing: bool, rom: bool) -> Seq<ShortcutAction> {
    if typing {
        Seq::empty()
    } else {
        when(rom && p.pause, ShortcutAction::TogglePause) + when(rom && p.reset, ShortcutAction::ResetRom)
            + when(rom && p.stop, ShortcutAction::StopEmulation) + when(
            p.load_game,
            ShortcutAction::LoadRomDialog,
        ) + when(p.fullscreen, ShortcutAction::ToggleFullscreen)
    }
}

/// The second batch, run after the first: the save and load slots when a
/// ROM is loaded (checked again), then Alt+Enter.
pub open spec fn second_batch(p: ShortcutPresses, typing: bool, rom: bool) -> Seq<ShortcutAction> {
    if typing {
        Seq::empty()
    } else {
        when(rom && p.save_1, ShortcutAction::SaveSlot(0)) + when(rom && p.save_2, ShortcutAction::SaveSlot(1))
            + when(rom && p.save_3, ShortcutAction::SaveSlot(2)) + when(
            rom && p.load_1,
            ShortcutAction::LoadSlot(0),
        ) + when(rom && p.load_2, ShortcutAction::LoadSlot(1)) + when(
            rom && p.load_3,
            ShortcutAction::LoadSlot(2),
        ) + when(p.alt_enter, ShortcutAction::ToggleFullscreen)
    }
}

fn push_when(v: &mut Vec<ShortcutAction>, c: bool, a: ShortcutAction)
    ensures
        final(v)@ == old(v)@ + when(c, a),
{
    if c {
        v.push(a);
        assert(v@ =~= old(v)@ + when(c, a));
    } else {
        assert(v@ =~= old(v)@ + when(c, a));
    }
}

/// The first batch of global shortcut actions for this frame.
pub fn shortcut_actions_first(p: ShortcutPresses, typing: bool, rom_loaded: bool) -> (acts: Vec<ShortcutAction>)
    ensures
        acts@ == first_batch(p, typing, rom_loaded),
{
    let mut acts: Vec<ShortcutAction> = Vec::new();
    if typing {
        return acts;
    }
    push_when(&mut acts, rom_loaded && p.pause, ShortcutAction::TogglePause);
    push_when(&mut acts, rom_loaded && p.reset, ShortcutAction::ResetRom);
    push_when(&mut acts, rom_loaded && p.stop, ShortcutAction::StopEmulation);
    push_when(&mut acts, p.load_game, ShortcutAction::LoadRomDialog);
    push_when(&mut acts, p.fullscreen, ShortcutAction::ToggleFullscreen);
    assert(acts@ =~= first_batch(p, typing, rom_loaded));
    acts
}

/// The second batch of global shortcut actions for this frame.
pub fn shortcut_actions_second(p: ShortcutPresses, typing: bool, rom_loaded: bool) -> (acts: Vec<ShortcutAction>)
    ensures
        acts@ == second_batch(p, typing, rom_loaded),
{
    let mut acts: Vec<ShortcutAction> = Vec::new();
    if typing {
        return acts;
    }
    push_when(&mut acts, rom_loaded && p.save_1, ShortcutAction::SaveSlot(0));
    push_when(&mut acts, rom_loaded && p.save_2, ShortcutAction::SaveSlot(1));
    push_when(&mut acts, rom_loaded && p.save_3, ShortcutAction::SaveSlot(2));
    push_when(&mut acts, rom_loaded && p.load_1, ShortcutAction::LoadSlot(0));
    push_when(&mut acts, rom_loaded && p.load_2, ShortcutAction::LoadSlot(1));
    push_when(&mut acts, rom_loaded && p.load_3, ShortcutAction::LoadSlot(2));
    push_when(&mut acts, p.alt_enter, ShortcutAction::ToggleFullscreen);
    assert(acts@ =~= second_batch(p, typing, rom_loaded));
    acts
}

/// An action of the debug terminal's shortcuts, and whether it runs only
/// while a ROM is loaded (checked when it runs).
#[derive(PartialEq, Eq, Structural, Clone, Copy, Debug)]
pub struct GuardedAction {
    pub action: ShortcutAction,
    pub needs_rom: bool,
}

/// `[g]` when the condition holds, else nothing.
pub open spec fn when_g(c: bool, a: ShortcutAction, needs_rom: bool) -> Seq<GuardedAction> {
    if c {
        seq![GuardedAction { action: a, needs_rom: needs_rom }]
    } else {
        Seq::empty()
    }
}

/// The actions of the shortcuts pressed while the debug terminal has the
/// focus: the pause flag flips without a message, fullscreen (or Alt+Enter)
/// flips once.
pub open spec fn terminal_batch(p: ShortcutPresses, typing: bool) -> Seq<GuardedAction> {
    if typing {
        Seq::empty()
    } else {
        when_g(p.pause, ShortcutAction::FlipPause, true) + when_g(p.reset, ShortcutAction::ResetRom, true)
            + when_g(p.stop, ShortcutAction::StopEmulation, true) + when_g(
            p.load_game,
            ShortcutAction::LoadRomDialog,
            false,
        ) + when_g(p.fullscreen || p.alt_enter, ShortcutAction::FlipFullscreen, false) + when_g(
            p.save_1,
            ShortcutAction::SaveSlot(0),
            true,
        ) + when_g(p.save_2, ShortcutAction::SaveSlot(1), true) + when_g(
            p.save_3,
            ShortcutAction::SaveSlot(2),
            true,
        ) + when_g(p.load_1, ShortcutAction::LoadSlot(0), true) + when_g(
            p.load_2,
            ShortcutAction::LoadSlot(1),
            true,
        ) + when_g(p.load_3, ShortcutAction::LoadSlot(2), true)
    }
}

fn push_when_g(v: &mut Vec<GuardedAction>, c: bool, a: ShortcutAction, needs_rom: bool)
    ensures
        final(v)@ == old(v)@ + when_g(c, a, needs_rom),
{
    if c {
        v.push(GuardedAction { action: a, needs_rom });
        assert(v@ =~= old(v)@ + when_g(c, a, needs_rom));
    } else {
        assert(v@ =~= old(v)@ + when_g(c, a, needs_rom));
    }
}

/// The shortcut actions handled by the debug terminal window.
pub fn terminal_shortcut_actions(p: ShortcutPresses, typing: bool) -> (acts: Vec<GuardedAction>)
    ensures
        acts@ == terminal_batch(p, typing),
{
    let mut acts: Vec<GuardedAction> = Vec::new();
    if typing {
        return acts;
    }
    push_when_g(&mut acts, p.pause, ShortcutAction::FlipPause, true);
    push_when_g(&mut acts, p.reset, ShortcutAction::ResetRom, true);
    push_when_g(&mut acts, p.stop, ShortcutAction::StopEmulation, true);
    push_when_g(&mut acts, p.load_game, ShortcutAction::LoadRomDialog, false);
    push_when_g(&mut acts, p.fullscreen || p.alt_enter, ShortcutAction::FlipFullscreen, false);
    push_when_g(&mut acts, p.save_1, ShortcutAction::SaveSlot(0), true);
    push_when_g(&mut acts, p.save_2, ShortcutAction::SaveSlot(1), true);
    push_when_g(&mut acts, p.save_3, ShortcutAction::SaveSlot(2), true);
    push_when_g(&mut acts, p.load_1, ShortcutAction::LoadSlot(0), true);
    push_when_g(&mut acts, p.load_2, ShortcutAction::LoadSlot(1), true);
    push_when_g(&mut acts, p.load_3, ShortcutAction::LoadSlot(2), true);
    assert(acts@ =~= terminal_batch(p, typing));
    acts
}

/// Without a loaded ROM no shortcut touches the emulation state.
pub proof fn lemma_no_rom_no_emulation_action(p: ShortcutPresses, typing: bool)
    ensures
        forall|i: int| 0 <= i < first_batch(p, typing, false).len() ==> {
            let a = #[trigger] first_batch(p, typing, false)[i];
            a == ShortcutAction::LoadRomDialog || a == ShortcutAction::ToggleFullscreen
        },
        forall|i: int| 0 <= i < second_batch(p, typing, false).len() ==> #[trigger] second_batch(
            p,
            typing,
            false,
        )[i] == ShortcutAction::ToggleFullscreen,
{
    if !typing {
        assert(first_batch(p, typing, false) =~= when(p.load_game, ShortcutAction::LoadRomDialog)
            + when(p.fullscreen, ShortcutAction::ToggleFullscreen));
        assert(second_batch(p, typing, false) =~= when(p.alt_enter, ShortcutAction::ToggleFullscreen));
    }
}

proof fn lemma_contains_concat(a: Seq<ShortcutAction>, b: Seq<ShortcutAction>, x: ShortcutAction)
    ensures
        (a + b).contains(x) <==> (a.contains(x) || b.contains(x)),
{
    if (a + b).contains(x) {
        let i = choose|i: int| 0 <= i < (a + b).len() && (a + b)[i] == x;
        if i < a.len() {
            assert(a[i] == x);
        } else {
            assert(b[i - a.len()] == x);
        }
    }
    if a.contains(x) {
        let i = choose|i: int| 0 <= i < a.len() && a[i] == x;
        assert((a + b)[i] == x);
    }
    if b.contains(x) {
        let j = choose|j: int| 0 <= j < b.len() && b[j] == x;
        assert((a + b)[a.len() + j] == x);
    }
}

proof fn lemma_contains_when(c: bool, a: ShortcutAction, x: ShortcutAction)
    ensures
        (when(c, a)).contains(x) <==> (c && x == a),
        (when(c, a)).len() == (if c { 1int } else { 0int }),
{
    if c {
        assert(when(c, a)[0] == a);
    }
}

/// Every shortcut of the main window does what its name says: with no text
/// field taking the keyboard, the first batch holds pause, reset, stop
/// (each only with a ROM loaded), load game and fullscreen exactly when
/// that shortcut is pressed, holds no other action, and holds one action
/// per pressed shortcut.
pub proof fn lemma_first_batch_names_pressed(p: ShortcutPresses, typing: bool, rom: bool)
    ensures
        first_batch(p, typing, rom).contains(ShortcutAction::TogglePause) <==> (!typing && rom && p.pause),
        first_batch(p, typing, rom).contains(ShortcutAction::ResetRom) <==> (!typing && rom && p.reset),
        first_batch(p, typing, rom).contains(ShortcutAction::StopEmulation) <==> (!typing && rom && p.stop),
        first_batch(p, typing, rom).contains(ShortcutAction::LoadRomDialog) <==> (!typing && p.load_game),
        first_batch(p, typing, rom).contains(ShortcutAction::ToggleFullscreen) <==> (!typing
            && p.fullscreen),
        forall|x: ShortcutAction| #[trigger] first_batch(p, typing, rom).contains(x) ==> (x
            == ShortcutAction::TogglePause || x == ShortcutAction::ResetRom || x
            == ShortcutAction::StopEmulation || x == ShortcutAction::LoadRomDialog || x
            == ShortcutAction::ToggleFullscreen),
        first_batch(p, typing, rom).len() == (if typing {
            0int
        } else {
            (if rom && p.pause { 1int } else { 0int }) + (if rom && p.reset { 1int } else { 0int }) + (
            if rom && p.stop { 1int } else { 0int }) + (if p.load_game { 1int } else { 0int }) + (
            if p.fullscreen { 1int } else { 0int })
        }),
{
    let w1 = when(rom && p.pause, ShortcutAction::TogglePause);
    let w2 = when(rom && p.reset, ShortcutAction::ResetRom);
    let w3 = when(rom && p.stop, ShortcutAction::StopEmulation);
    let w4 = when(p.load_game, ShortcutAction::LoadRomDialog);
    let w5 = when(p.fullscreen, ShortcutAction::ToggleFullscreen);
    assert forall|x: ShortcutAction| #[trigger] first_batch(p, typing, rom).contains(x) <==> (!typing
        && ((rom && p.pause && x == ShortcutAction::TogglePause) || (rom && p.reset && x
        == ShortcutAction::ResetRom) || (rom && p.stop && x == ShortcutAction::StopEmulation) || (
        p.load_game && x == ShortcutAction::LoadRomDialog) || (p.fullscreen && x
        == ShortcutAction::ToggleFullscreen))) by {
        lemma_contains_when(rom && p.pause, ShortcutAction::TogglePause, x);
        lemma_contains_when(rom && p.reset, ShortcutAction::ResetRom, x);
        lemma_contains_when(rom && p.stop, ShortcutAction::StopEmulation, x);
        lemma_contains_when(p.load_game, ShortcutAction::LoadRomDialog, x);
        lemma_contains_when(p.fullscreen, ShortcutAction::ToggleFullscreen, x);
        lemma_contains_concat(w1, w2, x);
        lemma_contains_concat(w1 + w2, w3, x);
        lemma_contains_concat(w1 + w2 + w3, w4, x);
        lemma_contains_concat(w1 + w2 + w3 + w4, w5, x);
    }
    lemma_contains_when(rom && p.pause, ShortcutAction::TogglePause, ShortcutAction::TogglePause);
    lemma_contains_when(rom && p.reset, ShortcutAction::ResetRom, ShortcutAction::ResetRom);
    lemma_contains_when(rom && p.stop, ShortcutAction::StopEmulation, ShortcutAction::StopEmulation);
    lemma_contains_when(p.load_game, ShortcutAction::LoadRomDialog, ShortcutAction::LoadRomDialog);
    lemma_contains_when(p.fullscreen, ShortcutAction::ToggleFullscreen, ShortcutAction::ToggleFullscreen);
    assert(first_batch(p, typing, rom).contains(ShortcutAction::TogglePause) == (!typing && rom
        && p.pause));
    assert(first_batch(p, typing, rom).contains(ShortcutAction::ResetRom) == (!typing && rom
        && p.reset));
    assert(first_batch(p, typing, rom).contains(ShortcutAction::StopEmulation) == (!typing && rom
        && p.stop));
    assert(first_batch(p, typing, rom).contains(ShortcutAction::LoadRomDialog) == (!typing
        && p.load_game));
    assert(first_batch(p, typing, rom).contains(ShortcutAction::ToggleFullscreen) == (!typing
        && p.fullscreen));
}

/// The slot shortcuts of the main window: with no text field taking the
/// keyboard, the second batch saves to or loads from slot `k` exactly when
/// the save or load shortcut of slot `k` is pressed with a ROM loaded,
/// toggles fullscreen exactly on Alt+Enter, holds no other action, and holds
/// one action per pressed shortcut.
pub proof fn lemma_second_batch_names_pressed(p: ShortcutPresses, typing: bool, rom: bool)
    ensures
        second_batch(p, typing, rom).contains(ShortcutAction::SaveSlot(0)) <==> (!typing && rom && p.save_1),
        second_batch(p, typing, rom).contains(ShortcutAction::SaveSlot(1)) <==> (!typing && rom && p.save_2),
        second_batch(p, typing, rom).contains(ShortcutAction::SaveSlot(2)) <==> (!typing && rom && p.save_3),
        second_batch(p, typing, rom).contains(ShortcutAction::LoadSlot(0)) <==> (!typing && rom && p.load_1),
        second_batch(p, typing, rom).contains(ShortcutAction::LoadSlot(1)) <==> (!typing && rom && p.load_2),
        second_batch(p, typing, rom).contains(ShortcutAction::LoadSlot(2)) <==> (!typing && rom && p.load_3),
        second_batch(p, typing, rom).contains(ShortcutAction::ToggleFullscreen) <==> (!typing
            && p.alt_enter),
        forall|x: ShortcutAction| #[trigger] second_batch(p, typing, rom).contains(x) ==> (x
            == ShortcutAction::SaveSlot(0) || x == ShortcutAction::SaveSlot(1) || x
            == ShortcutAction::SaveSlot(2) || x == ShortcutAction::LoadSlot(0) || x
            == ShortcutAction::LoadSlot(1) || x == ShortcutAction::LoadSlot(2) || x
            == ShortcutAction::ToggleFullscreen),
        second_batch(p, typing, rom).len() == (if typing {
            0int
        } else {
            (if rom && p.save_1 { 1int } else { 0int }) + (if rom && p.save_2 { 1int } else { 0int }) + (
            if rom && p.save_3 { 1int } else { 0int }) + (if rom && p.load_1 { 1int } else { 0int }) + (
            if rom && p.load_2 { 1int } else { 0int }) + (if rom && p.load_3 { 1int } else { 0int }) + (
            if p.alt_enter { 1int } else { 0int })
        }),
{
    let w1 = when(rom && p.save_1, ShortcutAction::SaveSlot(0));
    let w2 = when(rom && p.save_2, ShortcutAction::SaveSlot(1));
    let w3 = when(rom && p.save_3, ShortcutAction::SaveSlot(2));
    let w4 = when(rom && p.load_1, ShortcutAction::LoadSlot(0));
    let w5 = when(rom && p.load_2, ShortcutAction::LoadSlot(1));
    let w6 = when(rom && p.load_3, ShortcutAction::LoadSlot(2));
    let w7 = when(p.alt_enter, ShortcutAction::ToggleFullscreen);
    assert forall|x: ShortcutAction| #[trigger] second_batch(p, typing, rom).contains(x) <==> (!typing
        && ((rom && p.save_1 && x == ShortcutAction::SaveSlot(0)) || (rom && p.save_2 && x
        == ShortcutAction::SaveSlot(1)) || (rom && p.save_3 && x == ShortcutAction::SaveSlot(2)) || (
        rom && p.load_1 && x == ShortcutAction::LoadSlot(0)) || (rom && p.load_2 && x
        == ShortcutAction::LoadSlot(1)) || (rom && p.load_3 && x == ShortcutAction::LoadSlot(2)) || (
        p.alt_enter && x == ShortcutAction::ToggleFullscreen))) by {
        lemma_contains_when(rom && p.save_1, ShortcutAction::SaveSlot(0), x);
        lemma_contains_when(rom && p.save_2, ShortcutAction::SaveSlot(1), x);
        lemma_contains_when(rom && p.save_3, ShortcutAction::SaveSlot(2), x);
        lemma_contains_when(rom && p.load_1, ShortcutAction::LoadSlot(0), x);
        lemma_contains_when(rom && p.load_2, ShortcutAction::LoadSlot(1), x);
        lemma_contains_when(rom && p.load_3, ShortcutAction::LoadSlot(2), x);
        lemma_contains_when(p.alt_enter, ShortcutAction::ToggleFullscreen, x);
        lemma_contains_concat(w1, w2, x);
        lemma_contains_concat(w1 + w2, w3, x);
        lemma_contains_concat(w1 + w2 + w3, w4, x);
        lemma_contains_concat(w1 + w2 + w3 + w4, w5, x);
        lemma_contains_concat(w1 + w2 + w3 + w4 + w5, w6, x);
        lemma_contains_concat(w1 + w2 + w3 + w4 + w5 + w6, w7, x);
    }
    lemma_contains_when(rom && p.save_1, ShortcutAction::SaveSlot(0), ShortcutAction::SaveSlot(0));
    lemma_contains_when(rom && p.save_2, ShortcutAction::SaveSlot(1), ShortcutAction::SaveSlot(1));
    lemma_contains_when(rom && p.save_3, ShortcutAction::SaveSlot(2), ShortcutAction::SaveSlot(2));
    lemma_contains_when(rom && p.load_1, ShortcutAction::LoadSlot(0), ShortcutAction::LoadSlot(0));
    lemma_contains_when(rom && p.load_2, ShortcutAction::LoadSlot(1), ShortcutAction::LoadSlot(1));
    lemma_contains_when(rom && p.load_3, ShortcutAction::LoadSlot(2), ShortcutAction::LoadSlot(2));
    lemma_contains_when(p.alt_enter, ShortcutAction::ToggleFullscreen, ShortcutAction::ToggleFullscreen);
    assert(second_batch(p, typing, rom).contains(ShortcutAction::SaveSlot(0)) == (!typing && rom && p.save_1));
    assert(second_batch(p, typing, rom).contains(ShortcutAction::SaveSlot(1)) == (!typing && rom && p.save_2));
    assert(second_batch(p, typing, rom).contains(ShortcutAction::SaveSlot(2)) == (!typing && rom && p.save_3));
    assert(second_batch(p, typing, rom).contains(ShortcutAction::LoadSlot(0)) == (!typing && rom && p.load_1));
    assert(second_batch(p, typing, rom).contains(ShortcutAction::LoadSlot(1)) == (!typing && rom && p.load_2));
    assert(second_batch(p, typing, rom).contains(ShortcutAction::LoadSlot(2)) == (!typing && rom && p.load_3));
    assert(second_batch(p, typing, rom).contains(ShortcutAction::ToggleFullscreen) == (!typing
        && p.alt_enter));
}

proof fn lemma_contains_concat_g(a: Seq<GuardedAction>, b: Seq<GuardedAction>, x: GuardedAction)
    ensures
        (a + b).contains(x) <==> (a.contains(x) || b.contains(x)),
{
    if (a + b).contains(x) {
        let i = choose|i: int| 0 <= i < (a + b).len() && (a + b)[i] == x;
        if i < a.len() {
            assert(a[i] == x);
        } else {
            assert(b[i - a.len()] == x);
        }
    }
    if a.contains(x) {
        let i = choose|i: int| 0 <= i < a.len() && a[i] == x;
        assert((a + b)[i] == x);
    }
    if b.contains(x) {
        let j = choose|j: int| 0 <= j < b.len() && b[j] == x;
        assert((a + b)[a.len() + j] == x);
    }
}

proof fn lemma_contains_when_g(c: bool, a: ShortcutAction, r: bool, x: GuardedAction)
    ensures
        when_g(c, a, r).contains(x) <==> (c && x == GuardedAction { action: a, needs_rom: r }),
{
    if c {
        assert(when_g(c, a, r)[0] == GuardedAction { action: a, needs_rom: r });
    }
}

/// The shortcuts of the debug terminal window do what their names say: with
/// no text field taking the keyboard, the batch flips pause, resets, stops,
/// saves to slot `k` or loads from slot `k` (each only once a ROM is found
/// loaded) exactly when that shortcut is pressed, opens the load dialog on
/// the load-game shortcut, flips fullscreen on the fullscreen shortcut or
/// Alt+Enter, and holds nothing else.
#[verifier::rlimit(60)]
#[verifier::spinoff_prover]
pub proof fn lemma_terminal_batch_names_pressed(p: ShortcutPresses, typing: bool)
    ensures
        forall|x: GuardedAction| #[trigger] terminal_batch(p, typing).contains(x) <==> (!typing && (
        (p.pause && x == GuardedAction { action: ShortcutAction::FlipPause, needs_rom: true }) || (
        p.reset && x == GuardedAction { action: ShortcutAction::ResetRom, needs_rom: true }) || (p.stop
            && x == GuardedAction { action: ShortcutAction::StopEmulation, needs_rom: true }) || (
        p.load_game && x == GuardedAction { action: ShortcutAction::LoadRomDialog, needs_rom: false })
            || ((p.fullscreen || p.alt_enter) && x == GuardedAction {
            action: ShortcutAction::FlipFullscreen,
            needs_rom: false,
        }) || (p.save_1 && x == GuardedAction { action: ShortcutAction::SaveSlot(0), needs_rom: true })
            || (p.save_2 && x == GuardedAction { action: ShortcutAction::SaveSlot(1), needs_rom: true })
            || (p.save_3 && x == GuardedAction { action: ShortcutAction::SaveSlot(2), needs_rom: true })
            || (p.load_1 && x == GuardedAction { action: ShortcutAction::LoadSlot(0), needs_rom: true })
            || (p.load_2 && x == GuardedAction { action: ShortcutAction::LoadSlot(1), needs_rom: true })
            || (p.load_3 && x == GuardedAction {
            action: ShortcutAction::LoadSlot(2),
            needs_rom: true,
        }))),
{
    let w1 = when_g(p.pause, ShortcutAction::FlipPause, true);
    let w2 = when_g(p.reset, ShortcutAction::ResetRom, true);
    let w3 = when_g(p.stop, ShortcutAction::StopEmulation, true);
    let w4 = when_g(p.load_game, ShortcutAction::LoadRomDialog, false);
    let w5 = when_g(p.fullscreen || p.alt_enter, ShortcutAction::FlipFullscreen, false);
    let w6 = when_g(p.save_1, ShortcutAction::SaveSlot(0), true);
    let w7 = when_g(p.save_2, ShortcutAction::SaveSlot(1), true);
    let w8 = when_g(p.save_3, ShortcutAction::SaveSlot(2), true);
    let w9 = when_g(p.load_1, ShortcutAction::LoadSlot(0), true);
    let w10 = when_g(p.load_2, ShortcutAction::LoadSlot(1), true);
    let w11 = when_g(p.load_3, ShortcutAction::LoadSlot(2), true);
    assert forall|x: GuardedAction| #[trigger] terminal_batch(p, typing).contains(x) <==> (!typing && (
    (p.pause && x == GuardedAction { action: ShortcutAction::FlipPause, needs_rom: true }) || (
    p.reset && x == GuardedAction { action: ShortcutAction::ResetRom, needs_rom: true }) || (p.stop
        && x == GuardedAction { action: ShortcutAction::StopEmulation, needs_rom: true }) || (
    p.load_game && x == GuardedAction { action: ShortcutAction::LoadRomDialog, needs_rom: false })
        || ((p.fullscreen || p.alt_enter) && x == GuardedAction {
        action: ShortcutAction::FlipFullscreen,
        needs_rom: false,
    }) || (p.save_1 && x == GuardedAction { action: ShortcutAction::SaveSlot(0), needs_rom: true })
        || (p.save_2 && x == GuardedAction { action: ShortcutAction::SaveSlot(1), needs_rom: true })
        || (p.save_3 && x == GuardedAction { action: ShortcutAction::SaveSlot(2), needs_rom: true })
        || (p.load_1 && x == GuardedAction { action: ShortcutAction::LoadSlot(0), needs_rom: true })
        || (p.load_2 && x == GuardedAction { action: ShortcutAction::LoadSlot(1), needs_rom: true })
        || (p.load_3 && x == GuardedAction {
        action: ShortcutAction::LoadSlot(2),
        needs_rom: true,
    }))) by {
        lemma_contains_when_g(p.pause, ShortcutAction::FlipPause, true, x);
        lemma_contains_when_g(p.reset, ShortcutAction::ResetRom, true, x);
        lemma_contains_when_g(p.stop, ShortcutAction::StopEmulation, true, x);
        lemma_contains_when_g(p.load_game, ShortcutAction::LoadRomDialog, false, x);
        lemma_contains_when_g(p.fullscreen || p.alt_enter, ShortcutAction::FlipFullscreen, false, x);
        lemma_contains_when_g(p.save_1, ShortcutAction::SaveSlot(0), true, x);
        lemma_contains_when_g(p.save_2, ShortcutAction::SaveSlot(1), true, x);
        lemma_contains_when_g(p.save_3, ShortcutAction::SaveSlot(2), true, x);
        lemma_contains_when_g(p.load_1, ShortcutAction::LoadSlot(0), true, x);
        lemma_contains_when_g(p.load_2, ShortcutAction::LoadSlot(1), true, x);
        lemma_contains_when_g(p.load_3, ShortcutAction::LoadSlot(2), true, x);
        lemma_contains_concat_g(w1, w2, x);
        lemma_contains_concat_g(w1 + w2, w3, x);
        lemma_contains_concat_g(w1 + w2 + w3, w4, x);
        lemma_contains_concat_g(w1 + w2 + w3 + w4, w5, x);
        lemma_contains_concat_g(w1 + w2 + w3 + w4 + w5, w6, x);
        lemma_contains_concat_g(w1 + w2 + w3 + w4 + w5 + w6, w7, x);
        lemma_contains_concat_g(w1 + w2 + w3 + w4 + w5 + w6 + w7, w8, x);
        lemma_contains_concat_g(w1 + w2 + w3 + w4 + w5 + w6 + w7 + w8, w9, x);
        lemma_contains_concat_g(w1 + w2 + w3 + w4 + w5 + w6 + w7 + w8 + w9, w10, x);
        lemma_contains_concat_g(w1 + w2 + w3 + w4 + w5 + w6 + w7 + w8 + w9 + w10, w11, x);
    }
}

/// What to do with a file given on the command line.
#[derive(PartialEq, Eq, Structural, Clone, Copy, Debug)]
pub enum OpenAction {
    LoadState,
    LoadRom,
    Ignore,
}

/// The action for a file extension (compared in lower case): `state` files
/// are save states, `ch8`, `rom` and `bin` files are ROMs.
pub open spec fn open_action_spec(ext: Seq<char>) -> OpenAction {
    let e = lowercased(ext);
    if e == "state"@ {
        OpenAction::LoadState
    } else if e == "ch8"@ || e == "rom"@ || e == "bin"@ {
        OpenAction::LoadRom
    } else {
        OpenAction::Ignore
    }
}

/// Chooses what to do with a file from its extension.
pub fn open_action_for_extension(ext: &str) -> (a: OpenAction)
    ensures
        a == open_action_spec(ext@),
{
    let e = to_lower(ext);
    let es = e.as_str();
    if str_eq(es, "state") {
        OpenAction::LoadState
    } else if str_eq(es, "ch8") || str_eq(es, "rom") || str_eq(es, "bin") {
        OpenAction::LoadRom
    } else {
        OpenAction::Ignore
    }
}

/// A file given on the command line is opened by its extension, in any
/// case: `ch8`, `rom` and `bin` load a ROM, `state` loads a save state, and
/// every other extension is ignored. Two extensions with the same lower-case
/// form are treated alike.
pub proof fn lemma_open_action_by_extension(ext: Seq<char>, other: Seq<char>)
    ensures
        lowercased(ext) == "ch8"@ ==> open_action_spec(ext) == OpenAction::LoadRom,
        lowercased(ext) == "rom"@ ==> open_action_spec(ext) == OpenAction::LoadRom,
        lowercased(ext) == "bin"@ ==> open_action_spec(ext) == OpenAction::LoadRom,
        lowercased(ext) == "state"@ ==> open_action_spec(ext) == OpenAction::LoadState,
        open_action_spec(ext) == OpenAction::Ignore <==> (lowercased(ext) != "ch8"@ && lowercased(ext)
            != "rom"@ && lowercased(ext) != "bin"@ && lowercased(ext) != "state"@),
        lowercased(ext) == lowercased(other) ==> open_action_spec(ext) == open_action_spec(other),
{
    reveal_strlit("ch8");
    reveal_strlit("rom");
    reveal_strlit("bin");
    reveal_strlit("state");
    assert("ch8"@.len() == 3);
    assert("rom"@.len() == 3);
    assert("state"@.len() == 5);
}

/// Whether a CHIP-8 key bound to `label` is held: the key the label names is
/// down, or the mouse button it names is down.
pub open spec fn key_held_spec(label: Seq<char>, keys_down: Seq<KeyCode>, buttons_down: Seq<PointerButtonCode>) -> bool {
    (key_from_label_spec(label) matches Some(k) && keys_down.contains(k)) || (button_of_word(
        normalized(label),
    ) matches Some(b) && buttons_down.contains(b))
}

fn contains_key(v: &Vec<KeyCode>, k: KeyCode) -> (yes: bool)
    ensures
        yes == v@.contains(k),
{
    let mut i: usize = 0;
    while i < v.len()
        invariant
            i <= v@.len(),
            forall|j: int| 0 <= j < i ==> v@[j] != k,
        decreases v@.len() - i,
    {
        if v[i] == k {
            assert(v@[i as int] == k);
            return true;
        }
        i = i + 1;
    }
    false
}

fn contains_button(v: &Vec<PointerButtonCode>, b: PointerButtonCode) -> (yes: bool)
    ensures
        yes == v@.contains(b),
{
    let mut i: usize = 0;
    while i < v.len()
        invariant
            i <= v@.len(),
            forall|j: int| 0 <= j < i ==> v@[j] != b,
        decreases v@.len() - i,
    {
        if v[i] == b {
            assert(v@[i as int] == b);
            return true;
        }
        i = i + 1;
    }
    false
}

/// Whether the CHIP-8 key bound to a label is held on the keyboard or mouse.
pub fn key_held(label: &str, keys_down: &Vec<KeyCode>, buttons_down: &Vec<PointerButtonCode>) -> (held: bool)
    ensures
        held == key_held_spec(label@, keys_down@, buttons_down@),
{
    let by_key = match key_from_label(label) {
        Some(k) => contains_key(keys_down, k),
        None => false,
    };
    let by_button = match mouse_from_label(label) {
        Some(b) => contains_button(buttons_down, b),
        None => false,
    };
    by_key || by_button
}

/// The CHIP-8 keypad state: with no loaded ROM every key is up; otherwise a
/// key is down when its binding is held, the debug terminal holds it, or
/// the gamepad holds it.
pub fn merge_keypad(
    rom_loaded: bool,
    touches: &[String; 16],
    keys_down: &Vec<KeyCode>,
    buttons_down: &Vec<PointerButtonCode>,
    terminal: &[bool; 16],
    gamepad: &[bool; 16],
) -> (states: [bool; 16])
    ensures
        forall|i: int| 0 <= i < 16 ==> #[trigger] states@[i] == (rom_loaded && (key_held_spec(
            touches@[i]@,
            keys_down@,
            buttons_down@,
        ) || terminal@[i] || gamepad@[i])),
{
    let mut states = [false; 16];
    if !rom_loaded {
        return states;
    }
    let mut k: usize = 0;
    while k < 16
        invariant
            rom_loaded,
            k <= 16,
            forall|i: int| 0 <= i < k ==> #[trigger] states@[i] == (key_held_spec(
                touches@[i]@,
                keys_down@,
                buttons_down@,
            ) || terminal@[i] || gamepad@[i]),
            forall|i: int| k <= i < 16 ==> #[trigger] states@[i] == false,
        decreases 16 - k,
    {
        let held = key_held(touches[k].as_str(), keys_down, buttons_down);
        states[k] = held || terminal[k] || gamepad[k];
        k = k + 1;
    }
    states
}

/// Whether the buzzer sounds: sound on, volume above zero, and the sound
/// timer running.
pub fn buzzer_active(son_active: bool, sound_volume: u8, sound_timer: u8) -> (on: bool)
    ensures
        on == (son_active && sound_volume > 0 && sound_timer > 0),
{
    son_active && sound_volume > 0 && sound_timer > 0
}

} // verus!
