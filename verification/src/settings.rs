//! The settings window as a state machine over three copies of the
//! user-configurable values: the live values the emulator uses, the
//! temporary values the window edits, and the snapshot taken when the window
//! opened. OK/Apply commit the temporary values, Cancel brings the snapshot
//! back, Default resets the current tab.

use vstd::prelude::*;
use crate::types::{
    AppTheme, Langue, OngletsSettings, QuirkPreset, CpuQuirks, Raccourcis, default_shortcuts,
    preset_of, preset_quirks,
};
use crate::keys::{default_touches, default_touches_spec, touches_view};

verus! {

/// Default CPU speed in instructions per second.
pub const DEFAULT_CYCLES_PER_SECOND: u16 = 700;

/// Default sound volume in percent.
pub const DEFAULT_SOUND_VOLUME: u8 = 100;

/// Default render scale.
pub const DEFAULT_VIDEO_SCALE: u8 = 2;

/// The sound volume used when a saved configuration has none.
pub fn default_sound_volume() -> (v: u8)
    ensures
        v == DEFAULT_SOUND_VOLUME,
{
    DEFAULT_SOUND_VOLUME
}

/// The render scale used when a saved configuration has none.
pub fn default_video_scale() -> (v: u8)
    ensures
        v == DEFAULT_VIDEO_SCALE,
{
    DEFAULT_VIDEO_SCALE
}

/// Whether the main window asks for keyboard focus on startup: it does.
pub fn default_focus_main() -> (focus: bool)
    ensures
        focus,
{
    true
}

/// Whether the settings window should be brought to the front this frame:
/// it is open, and the main window has just regained focus or was clicked.
pub fn focus_settings_on(settings_open: bool, main_focused: bool, last_main_focused: bool, pointer_pressed: bool) -> (focus: bool)
    ensures
        focus == (settings_open && ((main_focused && !last_main_focused) || pointer_pressed)),
{
    settings_open && ((main_focused && !last_main_focused) || pointer_pressed)
}

/// One copy of every user-configurable value.
pub struct SettingValues {
    pub theme: AppTheme,
    pub langue: Langue,
    pub vsync: bool,
    pub video_scale: u8,
    pub touches: [String; 16],
    pub raccourcis: Raccourcis,
    pub cycles_par_seconde: u16,
    pub son_active: bool,
    pub sound_volume: u8,
    pub quirks: CpuQuirks,
    pub quirks_preset: QuirkPreset,
    pub terminal_active: bool,
}

/// The mathematical value of a [`SettingValues`]: labels are character
/// sequences.
pub struct ValuesModel {
    pub theme: AppTheme,
    pub langue: Langue,
    pub vsync: bool,
    pub video_scale: u8,
    pub touches: Seq<Seq<char>>,
    pub raccourcis: Seq<Seq<char>>,
    pub cycles_par_seconde: u16,
    pub son_active: bool,
    pub sound_volume: u8,
    pub quirks: CpuQuirks,
    pub quirks_preset: QuirkPreset,
    pub terminal_active: bool,
}

impl View for SettingValues {
    type V = ValuesModel;

    open spec fn view(&self) -> ValuesModel {
        ValuesModel {
            theme: self.theme,
            langue: self.langue,
            vsync: self.vsync,
            video_scale: self.video_scale,
            touches: touches_view(self.touches),
            raccourcis: self.raccourcis@,
            cycles_par_seconde: self.cycles_par_seconde,
            son_active: self.son_active,
            sound_volume: self.sound_volume,
            quirks: self.quirks,
            quirks_preset: self.quirks_preset,
            terminal_active: self.terminal_active,
        }
    }
}

/// The values used on first launch and by the reset buttons.
pub open spec fn default_values() -> ValuesModel {
    ValuesModel {
        theme: AppTheme::Kiwano,
        langue: Langue::Francais,
        vsync: true,
        video_scale: 2,
        touches: default_touches_spec(),
        raccourcis: default_shortcuts(),
        cycles_par_seconde: 700,
        son_active: true,
        sound_volume: 100,
        quirks: preset_quirks(QuirkPreset::Chip8),
        quirks_preset: QuirkPreset::Chip8,
        terminal_active: false,
    }
}

/// A copy of a keypad mapping.
pub fn copy_touches(t: &[String; 16]) -> (c: [String; 16])
    ensures
        touches_view(c) == touches_view(*t),
{
    let c = [
        t[0].clone(), t[1].clone(), t[2].clone(), t[3].clone(),
        t[4].clone(), t[5].clone(), t[6].clone(), t[7].clone(),
        t[8].clone(), t[9].clone(), t[10].clone(), t[11].clone(),
        t[12].clone(), t[13].clone(), t[14].clone(), t[15].clone(),
    ];
    assert(touches_view(c) =~= touches_view(*t));
    c
}

/// Whether two keypad mappings hold the same labels.
pub fn same_touches(a: &[String; 16], b: &[String; 16]) -> (same: bool)
    ensures
        same == (touches_view(*a) == touches_view(*b)),
{
    let mut k: usize = 0;
    while k < 16
        invariant
            k <= 16,
            forall|j: int| 0 <= j < k ==> a@[j]@ == b@[j]@,
        decreases 16 - k,
    {
        if a[k] != b[k] {
            assert(touches_view(*a)[k as int] != touches_view(*b)[k as int]);
            return false;
        }
        k = k + 1;
    }
    assert(touches_view(*a) =~= touches_view(*b));
    true
}

impl SettingValues {
    /// The values used on first launch and by the reset buttons.
    pub fn defaults() -> (v: Self)
        ensures
            v@ == default_values(),
    {
        SettingValues {
            theme: AppTheme::Kiwano,
            langue: Langue::Francais,
            vsync: true,
            video_scale: DEFAULT_VIDEO_SCALE,
            touches: default_touches(),
            raccourcis: Raccourcis::default(),
            cycles_par_seconde: DEFAULT_CYCLES_PER_SECOND,
            son_active: true,
            sound_volume: DEFAULT_SOUND_VOLUME,
            quirks: QuirkPreset::Chip8.quirks(),
            quirks_preset: QuirkPreset::Chip8,
            terminal_active: false,
        }
    }

    /// A copy of the values.
    pub fn duplicate(&self) -> (v: Self)
        ensures
            v@ == self@,
    {
        SettingValues {
            theme: self.theme,
            langue: self.langue,
            vsync: self.vsync,
            video_scale: self.video_scale,
            touches: copy_touches(&self.touches),
            raccourcis: self.raccourcis.duplicate(),
            cycles_par_seconde: self.cycles_par_seconde,
            son_active: self.son_active,
            sound_volume: self.sound_volume,
            quirks: self.quirks,
            quirks_preset: self.quirks_preset,
            terminal_active: self.terminal_active,
        }
    }

    /// Whether both copies hold the same values.
    pub fn same_as(&self, other: &SettingValues) -> (same: bool)
        ensures
            same == (self@ == other@),
    {
        let same = self.theme == other.theme && self.langue == other.langue && self.vsync
            == other.vsync && self.video_scale == other.video_scale && self.cycles_par_seconde
            == other.cycles_par_seconde && self.son_active == other.son_active
            && self.sound_volume == other.sound_volume && self.quirks == other.quirks
            && self.quirks_preset == other.quirks_preset && self.terminal_active
            == other.terminal_active && same_touches(&self.touches, &other.touches)
            && self.raccourcis.same_as(&other.raccourcis);
        proof {
            if same {
                assert(self@ == other@);
            }
        }
        same
    }
}

/// Resets the values of one settings tab to their defaults.
pub fn reset_tab_values(v: &mut SettingValues, tab: OngletsSettings)
    ensures
        final(v)@ == tab_reset_values(old(v)@, tab),
{
    match tab {
        OngletsSettings::Emulateur => {
            v.theme = AppTheme::Kiwano;
            v.langue = Langue::Francais;
            v.cycles_par_seconde = DEFAULT_CYCLES_PER_SECOND;
        },
        OngletsSettings::Video => {
            v.vsync = true;
            v.video_scale = DEFAULT_VIDEO_SCALE;
        },
        OngletsSettings::Audio => {
            v.son_active = true;
            v.sound_volume = DEFAULT_SOUND_VOLUME;
        },
        OngletsSettings::Controles => {
            v.touches = default_touches();
        },
        OngletsSettings::Raccourcis => {
            v.raccourcis = Raccourcis::default();
        },
        OngletsSettings::Debug => {
            v.terminal_active = false;
            v.quirks = QuirkPreset::Chip8.quirks();
            v.quirks_preset = QuirkPreset::Chip8;
        },
    }
}

fn capture_emulateur(dst: &mut SettingValues, live: &SettingValues)
    ensures
        final(dst)@ == menu_capture(old(dst)@, live@, OngletsSettings::Emulateur),
{
    dst.theme = live.theme;
    dst.langue = live.langue;
    dst.cycles_par_seconde = live.cycles_par_seconde;
    dst.son_active = live.son_active;
    dst.sound_volume = live.sound_volume;
    dst.quirks = live.quirks;
    dst.quirks_preset = live.quirks_preset;
    dst.terminal_active = live.terminal_active;
}

fn capture_video(dst: &mut SettingValues, live: &SettingValues)
    ensures
        final(dst)@ == menu_capture(old(dst)@, live@, OngletsSettings::Video),
{
    dst.vsync = live.vsync;
    dst.video_scale = live.video_scale;
    dst.quirks = live.quirks;
    dst.quirks_preset = live.quirks_preset;
    dst.terminal_active = live.terminal_active;
    dst.sound_volume = live.sound_volume;
}

fn capture_controles(dst: &mut SettingValues, live: &SettingValues)
    ensures
        final(dst)@ == menu_capture(old(dst)@, live@, OngletsSettings::Controles),
{
    dst.touches = copy_touches(&live.touches);
    dst.raccourcis = live.raccourcis.duplicate();
    dst.quirks = live.quirks;
    dst.quirks_preset = live.quirks_preset;
    dst.terminal_active = live.terminal_active;
    dst.sound_volume = live.sound_volume;
}

fn capture_raccourcis(dst: &mut SettingValues, live: &SettingValues)
    ensures
        final(dst)@ == menu_capture(old(dst)@, live@, OngletsSettings::Raccourcis),
{
    dst.raccourcis = live.raccourcis.duplicate();
    dst.quirks = live.quirks;
    dst.quirks_preset = live.quirks_preset;
    dst.terminal_active = live.terminal_active;
    dst.sound_volume = live.sound_volume;
}

fn capture_debug(dst: &mut SettingValues, live: &SettingValues)
    ensures
        final(dst)@ == menu_capture(old(dst)@, live@, OngletsSettings::Debug),
{
    dst.terminal_active = live.terminal_active;
    dst.quirks = live.quirks;
    dst.quirks_preset = live.quirks_preset;
}

/// Copies into `dst` the live values that the menu entry of `tab` captures.
pub fn capture_from_live(dst: &mut SettingValues, live: &SettingValues, tab: OngletsSettings)
    ensures
        final(dst)@ == menu_capture(old(dst)@, live@, tab),
{
    match tab {
        OngletsSettings::Emulateur => capture_emulateur(dst, live),
        OngletsSettings::Video => capture_video(dst, live),
        OngletsSettings::Controles => capture_controles(dst, live),
        OngletsSettings::Raccourcis => capture_raccourcis(dst, live),
        OngletsSettings::Debug => capture_debug(dst, live),
        OngletsSettings::Audio => {},
    }
}

/// Sets the language of one copy of the values.
pub fn set_langue(v: &mut SettingValues, langue: Langue)
    ensures
        final(v)@ == (ValuesModel { langue: langue, ..old(v)@ }),
{
    v.langue = langue;
}

/// The state of the settings window.
pub struct Settings {
    /// The values the emulator runs with.
    pub live: SettingValues,
    /// The values being edited in the settings window.
    pub temp: SettingValues,
    /// The live values captured when the window opened.
    pub snapshot: SettingValues,
    /// The selected tab.
    pub onglet_settings: OngletsSettings,
    /// Whether the settings window is open.
    pub fenetre_settings: bool,
    /// Whether the window has been placed (false until its first frame).
    pub settings_position_initialized: bool,
    /// Whether the window should take the focus.
    pub focus_settings_requested: bool,
    /// Whether the debug terminal window should take the focus.
    pub focus_terminal_requested: bool,
    /// Whether the debug terminal window has been placed.
    pub terminal_position_initialized: bool,
    /// Whether the "reset everything" confirmation is shown.
    pub confirm_reset_all: bool,
}

/// The mathematical value of [`Settings`].
pub struct SettingsModel {
    pub live: ValuesModel,
    pub temp: ValuesModel,
    pub snapshot: ValuesModel,
    pub tab: OngletsSettings,
    pub window_open: bool,
    pub position_initialized: bool,
    pub focus_settings_requested: bool,
    pub focus_terminal_requested: bool,
    pub terminal_position_initialized: bool,
    pub confirm_reset_all: bool,
}

impl View for Settings {
    type V = SettingsModel;

    open spec fn view(&self) -> SettingsModel {
        SettingsModel {
            live: self.live@,
            temp: self.temp@,
            snapshot: self.snapshot@,
            tab: self.onglet_settings,
            window_open: self.fenetre_settings,
            position_initialized: self.settings_position_initialized,
            focus_settings_requested: self.focus_settings_requested,
            focus_terminal_requested: self.focus_terminal_requested,
            terminal_position_initialized: self.terminal_position_initialized,
            confirm_reset_all: self.confirm_reset_all,
        }
    }
}

/// The temporary values differ from the live ones (the window then shows
/// that changes are waiting to be applied).
pub open spec fn pending(m: SettingsModel) -> bool {
    m.temp != m.live
}

/// Apply: the temporary values, with their quirk preset recognised again
/// from their quirk set, become the live values. Turning the debug terminal
/// on asks for its window to be placed and focused.
pub open spec fn applied(m: SettingsModel) -> SettingsModel {
    let temp = ValuesModel { quirks_preset: preset_of(m.temp.quirks), ..m.temp };
    let opens_terminal = !m.live.terminal_active && temp.terminal_active;
    SettingsModel {
        live: temp,
        temp: temp,
        focus_terminal_requested: if opens_terminal { true } else { m.focus_terminal_requested },
        terminal_position_initialized: if opens_terminal {
            false
        } else {
            m.terminal_position_initialized
        },
        ..m
    }
}

/// Cancel: every live value comes back from the snapshot; the temporary
/// theme, scale, quirks and quirk preset come back too.
pub open spec fn restored(m: SettingsModel) -> SettingsModel {
    SettingsModel {
        live: m.snapshot,
        temp: ValuesModel {
            theme: m.snapshot.theme,
            video_scale: m.snapshot.video_scale,
            quirks: m.snapshot.quirks,
            quirks_preset: m.snapshot.quirks_preset,
            ..m.temp
        },
        ..m
    }
}

/// Default button: the temporary values of the selected tab take their
/// default.
pub open spec fn tab_reset_values(t: ValuesModel, tab: OngletsSettings) -> ValuesModel {
    let d = default_values();
    match tab {
        OngletsSettings::Emulateur => ValuesModel {
            theme: d.theme,
            langue: d.langue,
            cycles_par_seconde: d.cycles_par_seconde,
            ..t
        },
        OngletsSettings::Video => ValuesModel { vsync: d.vsync, video_scale: d.video_scale, ..t },
        OngletsSettings::Audio => ValuesModel {
            son_active: d.son_active,
            sound_volume: d.sound_volume,
            ..t
        },
        OngletsSettings::Controles => ValuesModel { touches: d.touches, ..t },
        OngletsSettings::Raccourcis => ValuesModel { raccourcis: d.raccourcis, ..t },
        OngletsSettings::Debug => ValuesModel {
            terminal_active: d.terminal_active,
            quirks: d.quirks,
            quirks_preset: d.quirks_preset,
            ..t
        },
    }
}

/// Default button on the selected tab.
pub open spec fn tab_reset(m: SettingsModel) -> SettingsModel {
    SettingsModel { temp: tab_reset_values(m.temp, m.tab), ..m }
}

/// Reset everything: all temporary values take their default.
pub open spec fn all_reset(m: SettingsModel) -> SettingsModel {
    SettingsModel { temp: default_values(), ..m }
}

/// First frame of the window: the snapshot and the temporary values are
/// both taken from the live values.
pub open spec fn synced(m: SettingsModel) -> SettingsModel {
    SettingsModel { snapshot: m.live, temp: m.live, ..m }
}

/// Picking a quirk preset in the Debug tab: a named preset also sets the
/// temporary quirk set.
pub open spec fn preset_chosen(m: SettingsModel, p: QuirkPreset) -> SettingsModel {
    SettingsModel {
        temp: ValuesModel {
            quirks_preset: p,
            quirks: if p != QuirkPreset::Custom { preset_quirks(p) } else { m.temp.quirks },
            ..m.temp
        },
        ..m
    }
}

/// The values each menu entry captures into both the snapshot and the
/// temporary values before opening the window on its tab.
pub open spec fn menu_capture(dst: ValuesModel, live: ValuesModel, tab: OngletsSettings) -> ValuesModel {
    match tab {
        OngletsSettings::Emulateur => ValuesModel {
            theme: live.theme,
            langue: live.langue,
            cycles_par_seconde: live.cycles_par_seconde,
            son_active: live.son_active,
            sound_volume: live.sound_volume,
            quirks: live.quirks,
            quirks_preset: live.quirks_preset,
            terminal_active: live.terminal_active,
            ..dst
        },
        OngletsSettings::Video => ValuesModel {
            vsync: live.vsync,
            video_scale: live.video_scale,
            quirks: live.quirks,
            quirks_preset: live.quirks_preset,
            terminal_active: live.terminal_active,
            sound_volume: live.sound_volume,
            ..dst
        },
        OngletsSettings::Controles => ValuesModel {
            touches: live.touches,
            raccourcis: live.raccourcis,
            quirks: live.quirks,
            quirks_preset: live.quirks_preset,
            terminal_active: live.terminal_active,
            sound_volume: live.sound_volume,
            ..dst
        },
        OngletsSettings::Raccourcis => ValuesModel {
            raccourcis: live.raccourcis,
            quirks: live.quirks,
            quirks_preset: live.quirks_preset,
            terminal_active: live.terminal_active,
            sound_volume: live.sound_volume,
            ..dst
        },
        OngletsSettings::Debug => ValuesModel {
            terminal_active: live.terminal_active,
            quirks: live.quirks,
            quirks_preset: live.quirks_preset,
            ..dst
        },
        OngletsSettings::Audio => dst,
    }
}

/// Opening the settings window from a menu entry.
pub open spec fn menu_opened(m: SettingsModel, tab: OngletsSettings) -> SettingsModel {
    SettingsModel {
        snapshot: menu_capture(m.snapshot, m.live, tab),
        temp: menu_capture(m.temp, m.live, tab),
        tab: tab,
        position_initialized: false,
        window_open: true,
        focus_settings_requested: true,
        ..m
    }
}

impl Settings {
    /// The state on first launch: every copy holds the defaults and the
    /// window is closed on the emulator tab.
    pub fn new() -> (s: Self)
        ensures
            s@.live == default_values(),
            s@.temp == default_values(),
            s@.snapshot == default_values(),
            s@.tab == OngletsSettings::Emulateur,
            !s@.window_open,
            !s@.position_initialized,
            !s@.focus_settings_requested,
            !s@.focus_terminal_requested,
            !s@.terminal_position_initialized,
            !s@.confirm_reset_all,
    {
        Settings {
            live: SettingValues::defaults(),
            temp: SettingValues::defaults(),
            snapshot: SettingValues::defaults(),
            onglet_settings: OngletsSettings::Emulateur,
            fenetre_settings: false,
            settings_position_initialized: false,
            focus_settings_requested: false,
            focus_terminal_requested: false,
            terminal_position_initialized: false,
            confirm_reset_all: false,
        }
    }

    /// The state written to storage on exit: the three copies of the values
    /// and the current tab, with the window closed and no pending request.
    pub fn for_save(&self) -> (saved: Settings)
        ensures
            saved@ == (SettingsModel {
                window_open: false,
                position_initialized: false,
                focus_settings_requested: false,
                focus_terminal_requested: false,
                terminal_position_initialized: false,
                confirm_reset_all: false,
                ..self@
            }),
    {
        Settings {
            live: self.live.duplicate(),
            temp: self.temp.duplicate(),
            snapshot: self.snapshot.duplicate(),
            onglet_settings: self.onglet_settings,
            fenetre_settings: false,
            settings_position_initialized: false,
            focus_settings_requested: false,
            focus_terminal_requested: false,
            terminal_position_initialized: false,
            confirm_reset_all: false,
        }
    }

    /// Applies the temporary settings values to the live state.
    pub fn apply_temp_values(&mut self)
        ensures
            final(self)@ == applied(old(self)@),
    {
        let terminal_was_active = self.live.terminal_active;
        self.temp.quirks_preset = QuirkPreset::from_quirks(self.temp.quirks);
        self.live = self.temp.duplicate();
        if !terminal_was_active && self.live.terminal_active {
            self.focus_terminal_requested = true;
            self.terminal_position_initialized = false;
        }
    }

    /// Restores the values captured before the window opened.
    pub fn restore_snapshots(&mut self)
        ensures
            final(self)@ == restored(old(self)@),
    {
        self.live = self.snapshot.duplicate();
        self.temp.theme = self.snapshot.theme;
        self.temp.video_scale = self.snapshot.video_scale;
        self.temp.quirks = self.snapshot.quirks;
        self.temp.quirks_preset = self.snapshot.quirks_preset;
    }

    /// Resets only the selected tab's temporary values to their defaults.
    pub fn reset_current_settings_tab_to_default(&mut self)
        ensures
            final(self)@ == tab_reset(old(self)@),
    {
        reset_tab_values(&mut self.temp, self.onglet_settings);
    }

    /// Resets every tab's temporary values to their defaults.
    pub fn reset_all_settings_to_default(&mut self)
        ensures
            final(self)@ == all_reset(old(self)@),
    {
        self.temp = SettingValues::defaults();
    }

    /// Applies a quirk preset to the temporary values.
    pub fn set_temp_quirks_preset(&mut self, preset: QuirkPreset)
        ensures
            final(self)@ == preset_chosen(old(self)@, preset),
    {
        self.temp.quirks_preset = preset;
        if preset != QuirkPreset::Custom {
            self.temp.quirks = preset.quirks();
        }
    }

    /// Recognises the temporary preset again from the temporary quirk set.
    pub fn sync_temp_quirks_preset_from_values(&mut self)
        ensures
            final(self)@ == (SettingsModel {
                temp: ValuesModel { quirks_preset: preset_of(old(self)@.temp.quirks), ..old(self)@.temp },
                ..old(self)@
            }),
    {
        self.temp.quirks_preset = QuirkPreset::from_quirks(self.temp.quirks);
    }

    /// Captures the live values when the window shows its first frame.
    pub fn sync_on_first_frame(&mut self)
        ensures
            final(self)@ == synced(old(self)@),
    {
        self.snapshot = self.live.duplicate();
        self.temp = self.live.duplicate();
    }

    /// Opens the settings window on a tab from a menu entry.
    pub fn open_from_menu(&mut self, tab: OngletsSettings)
        ensures
            final(self)@ == menu_opened(old(self)@, tab),
    {
        capture_from_live(&mut self.snapshot, &self.live, tab);
        capture_from_live(&mut self.temp, &self.live, tab);
        self.onglet_settings = tab;
        self.settings_position_initialized = false;
        self.fenetre_settings = true;
        self.focus_settings_requested = true;
    }

    /// Whether the temporary values differ from the live ones.
    pub fn has_pending_changes(&self) -> (p: bool)
        ensures
            p == pending(self@),
    {
        !self.temp.same_as(&self.live)
    }

    /// OK button: applies and closes the window.
    pub fn press_ok(&mut self)
        ensures
            final(self)@ == (SettingsModel {
                window_open: false,
                position_initialized: false,
                ..applied(old(self)@)
            }),
    {
        self.apply_temp_values();
        self.fenetre_settings = false;
        self.settings_position_initialized = false;
    }

    /// Cancel button: restores the snapshot and closes the window.
    pub fn press_cancel(&mut self)
        ensures
            final(self)@ == (SettingsModel {
                window_open: false,
                position_initialized: false,
                confirm_reset_all: false,
                ..restored(old(self)@)
            }),
    {
        self.restore_snapshots();
        self.fenetre_settings = false;
        self.settings_position_initialized = false;
        self.confirm_reset_all = false;
    }

    /// Confirmation of "reset everything": all defaults, applied at once.
    pub fn confirm_reset_everything(&mut self)
        ensures
            final(self)@ == (SettingsModel { confirm_reset_all: false, ..applied(all_reset(old(self)@)) }),
    {
        self.reset_all_settings_to_default();
        self.apply_temp_values();
        self.confirm_reset_all = false;
    }

    /// Picks a language in the Emulator tab; a new choice takes effect at
    /// once, before Apply.
    pub fn choose_temp_langue(&mut self, langue: Langue)
        ensures
            langue != old(self)@.temp.langue ==> final(self)@ == (SettingsModel {
                temp: ValuesModel { langue: langue, ..old(self)@.temp },
                live: ValuesModel { langue: langue, ..old(self)@.live },
                ..old(self)@
            }),
            langue == old(self)@.temp.langue ==> final(self)@ == old(self)@,
    {
        if langue != self.temp.langue {
            self.temp.langue = langue;
            self.live.langue = langue;
        }
    }

    /// End of a frame of the settings window: a close request closes it,
    /// otherwise it counts as placed.
    pub fn end_frame(&mut self, close_requested: bool)
        ensures
            close_requested ==> final(self)@ == (SettingsModel {
                window_open: false,
                position_initialized: false,
                confirm_reset_all: false,
                ..old(self)@
            }),
            !close_requested ==> final(self)@ == (SettingsModel {
                position_initialized: true,
                ..old(self)@
            }),
    {
        if close_requested {
            self.fenetre_settings = false;
            self.settings_position_initialized = false;
            self.confirm_reset_all = false;
        } else {
            self.settings_position_initialized = true;
        }
    }

    /// Closing the debug terminal window turns the terminal off, in the live
    /// and the temporary values, and releases the terminal's on-screen
    /// keypad.
    pub fn close_terminal(&mut self, terminal_keys: &mut [bool; 16])
        ensures
            final(self)@ == (SettingsModel {
                live: ValuesModel { terminal_active: false, ..old(self)@.live },
                temp: ValuesModel { terminal_active: false, ..old(self)@.temp },
                ..old(self)@
            }),
            forall|i: int| 0 <= i < 16 ==> !(#[trigger] final(terminal_keys)@[i]),
    {
        self.live.terminal_active = false;
        self.temp.terminal_active = false;
        *terminal_keys = [false; 16];
    }

    /// The theme button of the menu bar: switches the live theme to the next.
    pub fn cycle_theme(&mut self)
        ensures
            final(self)@ == (SettingsModel {
                live: ValuesModel { theme: crate::types::next_theme_spec(old(self)@.live.theme), ..old(self)@.live },
                ..old(self)@
            }),
    {
        self.live.theme = self.live.theme.next();
    }
}

/// After Apply the live values are the temporary ones, nothing is pending,
/// and the live quirk preset names the live quirk set.
pub proof fn lemma_apply_commits(m: SettingsModel)
    ensures
        applied(m).live == applied(m).temp,
        !pending(applied(m)),
        applied(m).live.quirks_preset == preset_of(applied(m).live.quirks),
        applied(m).snapshot == m.snapshot,
{
}

/// Applying twice is the same as applying once.
pub proof fn lemma_apply_idempotent(m: SettingsModel)
    ensures
        applied(applied(m)) == applied(m),
{
}

/// Right after the window's first frame nothing is pending.
pub proof fn lemma_sync_nothing_pending(m: SettingsModel)
    ensures
        !pending(synced(m)),
        synced(m).snapshot == m.live,
{
}

/// Cancel brings back the live values the window opened with, whatever was
/// edited in between, as long as the snapshot was left alone.
pub proof fn lemma_cancel_restores_opening_values(opened: SettingsModel, edited: SettingsModel)
    requires
        edited.snapshot == synced(opened).snapshot,
    ensures
        restored(edited).live == opened.live,
{
}

/// Cancel is idempotent.
pub proof fn lemma_restore_idempotent(m: SettingsModel)
    ensures
        restored(restored(m)) == restored(m),
{
}

/// Confirming "reset everything" makes every live value its default.
pub proof fn lemma_reset_everything_gives_defaults(m: SettingsModel)
    ensures
        applied(all_reset(m)).live == default_values(),
        !pending(applied(all_reset(m))),
{
    assert(preset_of(preset_quirks(QuirkPreset::Chip8)) == QuirkPreset::Chip8);
}

/// The Default button only touches the temporary values of the selected tab.
pub proof fn lemma_tab_reset_is_local(m: SettingsModel)
    ensures
        tab_reset(m).live == m.live,
        tab_reset(m).snapshot == m.snapshot,
        m.tab != OngletsSettings::Emulateur ==> tab_reset(m).temp.theme == m.temp.theme
            && tab_reset(m).temp.langue == m.temp.langue
            && tab_reset(m).temp.cycles_par_seconde == m.temp.cycles_par_seconde,
        m.tab != OngletsSettings::Video ==> tab_reset(m).temp.vsync == m.temp.vsync
            && tab_reset(m).temp.video_scale == m.temp.video_scale,
        m.tab != OngletsSettings::Audio ==> tab_reset(m).temp.son_active == m.temp.son_active
            && tab_reset(m).temp.sound_volume == m.temp.sound_volume,
        m.tab != OngletsSettings::Controles ==> tab_reset(m).temp.touches == m.temp.touches,
        m.tab != OngletsSettings::Raccourcis ==> tab_reset(m).temp.raccourcis == m.temp.raccourcis,
        m.tab != OngletsSettings::Debug ==> tab_reset(m).temp.terminal_active
            == m.temp.terminal_active && tab_reset(m).temp.quirks == m.temp.quirks
            && tab_reset(m).temp.quirks_preset == m.temp.quirks_preset,
{
}

/// Pressing Default on every tab resets every temporary value, like "reset
/// everything".
pub proof fn lemma_all_tabs_reset_is_reset_all(t: ValuesModel)
    ensures
        tab_reset_values(
            tab_reset_values(
                tab_reset_values(
                    tab_reset_values(
                        tab_reset_values(
                            tab_reset_values(t, OngletsSettings::Emulateur),
                            OngletsSettings::Video,
                        ),
                        OngletsSettings::Audio,
                    ),
                    OngletsSettings::Controles,
                ),
                OngletsSettings::Raccourcis,
            ),
            OngletsSettings::Debug,
        ) == default_values(),
{
}

} // verus!
