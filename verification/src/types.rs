//! Plain settings vocabulary: languages, themes, settings tabs, CPU quirk
//! profiles and the configurable keyboard shortcuts.

use vstd::prelude::*;

verus! {

/// Supported UI languages.
#[derive(PartialEq, Eq, Structural, Clone, Copy, Debug)]
pub enum Langue {
    Francais,
    Anglais,
    Espagnol,
    Italien,
    Allemand,
    Portugais,
    Russe,
    Chinois,
    Japonais,
    Coreen,
    Arabe,
    Hindi,
}

/// The languages in the order the menus list them.
pub open spec fn langue_order() -> Seq<Langue> {
    seq![
        Langue::Francais,
        Langue::Anglais,
        Langue::Espagnol,
        Langue::Italien,
        Langue::Allemand,
        Langue::Portugais,
        Langue::Russe,
        Langue::Chinois,
        Langue::Japonais,
        Langue::Coreen,
        Langue::Arabe,
        Langue::Hindi,
    ]
}

/// The name of each language written in that language.
pub open spec fn langue_label_spec(l: Langue) -> Seq<char> {
    match l {
        Langue::Francais => "Fran\u{00E7}ais"@,
        Langue::Anglais => "English"@,
        Langue::Espagnol => "Espa\u{00F1}ol"@,
        Langue::Italien => "Italiano"@,
        Langue::Allemand => "Deutsch"@,
        Langue::Portugais => "Portugu\u{00EA}s"@,
        Langue::Russe => "\u{0420}\u{0443}\u{0441}\u{0441}\u{043A}\u{0438}\u{0439}"@,
        Langue::Chinois => "\u{4E2D}\u{6587}"@,
        Langue::Japonais => "\u{65E5}\u{672C}\u{8A9E}"@,
        Langue::Coreen => "\u{D55C}\u{AD6D}\u{C5B4}"@,
        Langue::Arabe => "\u{0627}\u{0644}\u{0639}\u{0631}\u{0628}\u{064A}\u{0629}"@,
        Langue::Hindi => "\u{0939}\u{093F}\u{0928}\u{094D}\u{0926}\u{0940}"@,
    }
}

impl Langue {
    /// Ordered list used to populate language menus.
    pub fn all() -> (langs: [Langue; 12])
        ensures
            langs@ == langue_order(),
    {
        let langs = [
            Langue::Francais,
            Langue::Anglais,
            Langue::Espagnol,
            Langue::Italien,
            Langue::Allemand,
            Langue::Portugais,
            Langue::Russe,
            Langue::Chinois,
            Langue::Japonais,
            Langue::Coreen,
            Langue::Arabe,
            Langue::Hindi,
        ];
        assert(langs@ =~= langue_order());
        langs
    }

    /// Human-readable label shown in the UI.
    pub fn label(&self) -> (text: &'static str)
        ensures
            text@ == langue_label_spec(*self),
    {
        match self {
            Langue::Francais => "Fran\u{00E7}ais",
            Langue::Anglais => "English",
            Langue::Espagnol => "Espa\u{00F1}ol",
            Langue::Italien => "Italiano",
            Langue::Allemand => "Deutsch",
            Langue::Portugais => "Portugu\u{00EA}s",
            Langue::Russe => "\u{0420}\u{0443}\u{0441}\u{0441}\u{043A}\u{0438}\u{0439}",
            Langue::Chinois => "\u{4E2D}\u{6587}",
            Langue::Japonais => "\u{65E5}\u{672C}\u{8A9E}",
            Langue::Coreen => "\u{D55C}\u{AD6D}\u{C5B4}",
            Langue::Arabe => "\u{0627}\u{0644}\u{0639}\u{0631}\u{0628}\u{064A}\u{0629}",
            Langue::Hindi => "\u{0939}\u{093F}\u{0928}\u{094D}\u{0926}\u{0940}",
        }
    }
}

/// Default UI language (French).
pub fn default_langue_fr() -> (l: Langue)
    ensures
        l == Langue::Francais,
{
    Langue::Francais
}

/// Application themes available in the UI.
#[derive(PartialEq, Eq, Structural, Clone, Copy, Debug)]
pub enum AppTheme {
    Kiwano,
    Dark,
    Light,
}

/// The themes in the order the menus list them.
pub open spec fn theme_order() -> Seq<AppTheme> {
    seq![AppTheme::Kiwano, AppTheme::Dark, AppTheme::Light]
}

/// The theme that the title-bar theme button switches to.
pub open spec fn next_theme_spec(t: AppTheme) -> AppTheme {
    match t {
        AppTheme::Kiwano => AppTheme::Dark,
        AppTheme::Dark => AppTheme::Light,
        AppTheme::Light => AppTheme::Kiwano,
    }
}

impl AppTheme {
    /// Ordered list used to populate theme menus.
    pub fn all() -> (themes: [AppTheme; 3])
        ensures
            themes@ == theme_order(),
    {
        let themes = [AppTheme::Kiwano, AppTheme::Dark, AppTheme::Light];
        assert(themes@ =~= theme_order());
        themes
    }

    /// Theme selected by one click on the theme button:
    /// Kiwano, then Dark, then Light, then Kiwano again.
    pub fn next(self) -> (t: AppTheme)
        ensures
            t == next_theme_spec(self),
    {
        match self {
            AppTheme::Kiwano => AppTheme::Dark,
            AppTheme::Dark => AppTheme::Light,
            AppTheme::Light => AppTheme::Kiwano,
        }
    }

    /// Whether the theme uses light text on a dark background.
    pub fn is_dark(self) -> (dark: bool)
        ensures
            dark == (self == AppTheme::Kiwano || self == AppTheme::Dark),
    {
        self == AppTheme::Kiwano || self == AppTheme::Dark
    }
}

/// Three clicks on the theme button bring the starting theme back, and every
/// click changes the theme.
pub proof fn lemma_theme_cycle(t: AppTheme)
    ensures
        next_theme_spec(next_theme_spec(next_theme_spec(t))) == t,
        next_theme_spec(t) != t,
{
}

/// Default theme (Kiwano).
pub fn default_theme_kiwano() -> (t: AppTheme)
    ensures
        t == AppTheme::Kiwano,
{
    AppTheme::Kiwano
}

/// Tabs shown in the settings window.
#[derive(PartialEq, Eq, Structural, Clone, Copy, Debug)]
pub enum OngletsSettings {
    Emulateur,
    Video,
    Audio,
    Controles,
    Raccourcis,
    Debug,
}

/// CHIP-8 interpreter compatibility switches.
#[derive(PartialEq, Eq, Structural, Clone, Copy, Debug)]
pub struct CpuQuirks {
    pub shift_uses_vy: bool,
    pub jump_uses_vx: bool,
    pub draw_clips: bool,
    pub load_store_increment_i: bool,
    pub logic_clears_vf: bool,
}

/// The quirk set with every switch off.
pub open spec fn no_quirks() -> CpuQuirks {
    CpuQuirks {
        shift_uses_vy: false,
        jump_uses_vx: false,
        draw_clips: false,
        load_store_increment_i: false,
        logic_clears_vf: false,
    }
}

impl Default for CpuQuirks {
    /// Every switch off.
    fn default() -> (q: Self)
        ensures
            q == no_quirks(),
    {
        CpuQuirks {
            shift_uses_vy: false,
            jump_uses_vx: false,
            draw_clips: false,
            load_store_increment_i: false,
            logic_clears_vf: false,
        }
    }
}

/// Quirk presets used to quickly switch compatibility profiles.
#[derive(PartialEq, Eq, Structural, Clone, Copy, Debug)]
pub enum QuirkPreset {
    Chip8,
    Chip48,
    SuperChip,
    Custom,
}

/// The quirk set of each preset; `Custom` stands for the default set.
pub open spec fn preset_quirks(p: QuirkPreset) -> CpuQuirks {
    match p {
        QuirkPreset::Chip8 => no_quirks(),
        QuirkPreset::Chip48 => CpuQuirks {
            shift_uses_vy: true,
            jump_uses_vx: true,
            draw_clips: false,
            load_store_increment_i: false,
            logic_clears_vf: false,
        },
        QuirkPreset::SuperChip => CpuQuirks {
            shift_uses_vy: true,
            jump_uses_vx: true,
            draw_clips: true,
            load_store_increment_i: false,
            logic_clears_vf: false,
        },
        QuirkPreset::Custom => no_quirks(),
    }
}

/// The first named preset whose quirk set is `q`, else `Custom`.
pub open spec fn preset_of(q: CpuQuirks) -> QuirkPreset {
    if q == preset_quirks(QuirkPreset::Chip8) {
        QuirkPreset::Chip8
    } else if q == preset_quirks(QuirkPreset::Chip48) {
        QuirkPreset::Chip48
    } else if q == preset_quirks(QuirkPreset::SuperChip) {
        QuirkPreset::SuperChip
    } else {
        QuirkPreset::Custom
    }
}

impl Default for QuirkPreset {
    /// The CHIP-8 preset.
    fn default() -> (p: Self)
        ensures
            p == QuirkPreset::Chip8,
    {
        QuirkPreset::Chip8
    }
}

impl QuirkPreset {
    /// The quirk set of this preset.
    pub fn quirks(self) -> (q: CpuQuirks)
        ensures
            q == preset_quirks(self),
    {
        match self {
            QuirkPreset::Chip8 => CpuQuirks {
                shift_uses_vy: false,
                jump_uses_vx: false,
                draw_clips: false,
                load_store_increment_i: false,
                logic_clears_vf: false,
            },
            QuirkPreset::Chip48 => CpuQuirks {
                shift_uses_vy: true,
                jump_uses_vx: true,
                draw_clips: false,
                load_store_increment_i: false,
                logic_clears_vf: false,
            },
            QuirkPreset::SuperChip => CpuQuirks {
                shift_uses_vy: true,
                jump_uses_vx: true,
                draw_clips: true,
                load_store_increment_i: false,
                logic_clears_vf: false,
            },
            QuirkPreset::Custom => CpuQuirks::default(),
        }
    }

    /// Recognises a named preset from a quirk set.
    pub fn from_quirks(quirks: CpuQuirks) -> (p: QuirkPreset)
        ensures
            p == preset_of(quirks),
    {
        if quirks == QuirkPreset::Chip8.quirks() {
            QuirkPreset::Chip8
        } else if quirks == QuirkPreset::Chip48.quirks() {
            QuirkPreset::Chip48
        } else if quirks == QuirkPreset::SuperChip.quirks() {
            QuirkPreset::SuperChip
        } else {
            QuirkPreset::Custom
        }
    }
}

/// A named preset is recognised again from its own quirk set; `Custom`
/// is recognised as `Chip8`, since both stand for the same set.
pub proof fn lemma_preset_roundtrip(p: QuirkPreset)
    ensures
        p != QuirkPreset::Custom ==> preset_of(preset_quirks(p)) == p,
        p == QuirkPreset::Custom ==> preset_of(preset_quirks(p)) == QuirkPreset::Chip8,
{
}

/// A quirk set recognised as a named preset is exactly that preset's set.
pub proof fn lemma_recognised_preset_is_exact(q: CpuQuirks)
    ensures
        preset_of(q) != QuirkPreset::Custom ==> preset_quirks(preset_of(q)) == q,
{
}

/// User-configurable keyboard shortcuts.
pub struct Raccourcis {
    pub pause: String,
    pub reset: String,
    pub stop: String,
    pub charger_jeu: String,
    pub fullscreen: String,
    pub savestate_1: String,
    pub savestate_2: String,
    pub savestate_3: String,
    pub loadstate_1: String,
    pub loadstate_2: String,
    pub loadstate_3: String,
}

/// Number of configurable shortcuts.
pub const SHORTCUT_COUNT: usize = 11;

impl View for Raccourcis {
    type V = Seq<Seq<char>>;

    /// The shortcut labels in settings order: pause, reset, stop, load game,
    /// fullscreen, save slots 1-3, load slots 1-3.
    open spec fn view(&self) -> Seq<Seq<char>> {
        seq![
            self.pause@,
            self.reset@,
            self.stop@,
            self.charger_jeu@,
            self.fullscreen@,
            self.savestate_1@,
            self.savestate_2@,
            self.savestate_3@,
            self.loadstate_1@,
            self.loadstate_2@,
            self.loadstate_3@,
        ]
    }
}

/// Default key mapping used on first launch and on reset.
pub open spec fn default_shortcuts() -> Seq<Seq<char>> {
    seq![
        "P"@,
        "R"@,
        "Echap"@,
        "O"@,
        "F11"@,
        "F1"@,
        "F2"@,
        "F3"@,
        "F5"@,
        "F6"@,
        "F7"@,
    ]
}

impl Default for Raccourcis {
    /// Default key mapping used on first launch and on reset.
    fn default() -> (r: Self)
        ensures
            r@ == default_shortcuts(),
    {
        Raccourcis {
            pause: "P".to_string(),
            reset: "R".to_string(),
            stop: "Echap".to_string(),
            charger_jeu: "O".to_string(),
            fullscreen: "F11".to_string(),
            savestate_1: "F1".to_string(),
            savestate_2: "F2".to_string(),
            savestate_3: "F3".to_string(),
            loadstate_1: "F5".to_string(),
            loadstate_2: "F6".to_string(),
            loadstate_3: "F7".to_string(),
        }
    }
}

impl Raccourcis {
    /// A copy with the same labels.
    pub fn duplicate(&self) -> (r: Self)
        ensures
            r@ == self@,
    {
        Raccourcis {
            pause: self.pause.clone(),
            reset: self.reset.clone(),
            stop: self.stop.clone(),
            charger_jeu: self.charger_jeu.clone(),
            fullscreen: self.fullscreen.clone(),
            savestate_1: self.savestate_1.clone(),
            savestate_2: self.savestate_2.clone(),
            savestate_3: self.savestate_3.clone(),
            loadstate_1: self.loadstate_1.clone(),
            loadstate_2: self.loadstate_2.clone(),
            loadstate_3: self.loadstate_3.clone(),
        }
    }

    /// Whether both mappings hold the same labels.
    pub fn same_as(&self, other: &Raccourcis) -> (same: bool)
        ensures
            same == (self@ == other@),
    {
        let same = self.pause == other.pause && self.reset == other.reset && self.stop
            == other.stop && self.charger_jeu == other.charger_jeu && self.fullscreen
            == other.fullscreen && self.savestate_1 == other.savestate_1 && self.savestate_2
            == other.savestate_2 && self.savestate_3 == other.savestate_3 && self.loadstate_1
            == other.loadstate_1 && self.loadstate_2 == other.loadstate_2 && self.loadstate_3
            == other.loadstate_3;
        proof {
            if same {
                assert(self@ =~= other@);
            } else {
                if self@ == other@ {
                    assert(self@[0] == other@[0]);
                    assert(self@[1] == other@[1]);
                    assert(self@[2] == other@[2]);
                    assert(self@[3] == other@[3]);
                    assert(self@[4] == other@[4]);
                    assert(self@[5] == other@[5]);
                    assert(self@[6] == other@[6]);
                    assert(self@[7] == other@[7]);
                    assert(self@[8] == other@[8]);
                    assert(self@[9] == other@[9]);
                    assert(self@[10] == other@[10]);
                }
            }
        }
        same
    }
}

/// Maps a settings row index to the shortcut label it edits.
pub fn shortcut_value_mut<'a>(r: &'a mut Raccourcis, idx: usize) -> (slot: Option<&'a mut String>)
    ensures
        (slot is Some) == (idx < SHORTCUT_COUNT),
        idx < SHORTCUT_COUNT ==> (*slot->0)@ == old(r)@[idx as int],
        idx < SHORTCUT_COUNT ==> final(r)@ == old(r)@.update(idx as int, (*final(slot->0))@),
        idx >= SHORTCUT_COUNT ==> final(r)@ == old(r)@,
{
    match idx {
        0 => Some(&mut r.pause),
        1 => Some(&mut r.reset),
        2 => Some(&mut r.stop),
        3 => Some(&mut r.charger_jeu),
        4 => Some(&mut r.fullscreen),
        5 => Some(&mut r.savestate_1),
        6 => Some(&mut r.savestate_2),
        7 => Some(&mut r.savestate_3),
        8 => Some(&mut r.loadstate_1),
        9 => Some(&mut r.loadstate_2),
        10 => Some(&mut r.loadstate_3),
        _ => None,
    }
}

} // verus!
