//! The debug terminal's log: the line buffer and its text view, timestamps,
//! status and configuration-change logging, search, and the diagnostics
//! report.

use vstd::prelude::*;
use vstd::string::*;
use crate::text::{push_char, str_eq, chars_of, push_str, push_decimal_padded, decimal, zero_pad};
use crate::keys::{trim_str, trimmed, to_lower, lowercased, to_upper, uppercased};
use crate::types::{AppTheme, Langue, langue_label_spec};

verus! {

/// The text of a log after one more line: a newline separates it from a
/// non-empty text.
pub open spec fn appended_text(text: Seq<char>, line: Seq<char>) -> Seq<char> {
    if text.len() == 0 {
        line
    } else {
        text + seq!['\n'] + line
    }
}

/// The text that a sequence of pushed lines builds.
pub open spec fn fold_text(lines: Seq<Seq<char>>) -> Seq<char>
    decreases lines.len(),
{
    if lines.len() == 0 {
        Seq::empty()
    } else {
        appended_text(fold_text(lines.drop_last()), lines.last())
    }
}

/// The lines joined with newlines.
pub open spec fn join_lines(lines: Seq<Seq<char>>) -> Seq<char>
    decreases lines.len(),
{
    if lines.len() == 0 {
        Seq::empty()
    } else if lines.len() == 1 {
        lines[0]
    } else {
        join_lines(lines.drop_last()) + seq!['\n'] + lines.last()
    }
}

/// The lines without the empty lines they start with.
pub open spec fn strip_leading_empty(lines: Seq<Seq<char>>) -> Seq<Seq<char>>
    decreases lines.len(),
{
    if lines.len() > 0 && lines[0].len() == 0 {
        strip_leading_empty(lines.drop_first())
    } else {
        lines
    }
}

proof fn lemma_strip_push(lines: Seq<Seq<char>>, x: Seq<char>)
    ensures
        strip_leading_empty(lines).len() == 0 ==> strip_leading_empty(lines.push(x)) == (if x.len()
            == 0 {
            Seq::<Seq<char>>::empty()
        } else {
            seq![x]
        }),
        strip_leading_empty(lines).len() > 0 ==> strip_leading_empty(lines.push(x))
            == strip_leading_empty(lines).push(x),
        strip_leading_empty(lines).len() > 0 ==> strip_leading_empty(lines)[0].len() > 0,
    decreases lines.len(),
{
    if lines.len() > 0 && lines[0].len() == 0 {
        assert(lines.push(x).drop_first() =~= lines.drop_first().push(x));
        lemma_strip_push(lines.drop_first(), x);
    } else if lines.len() == 0 {
        assert(lines.push(x) =~= seq![x]);
        assert(seq![x][0] == x);
        if x.len() == 0 {
            assert(seq![x].drop_first() =~= Seq::<Seq<char>>::empty());
            assert(strip_leading_empty(Seq::<Seq<char>>::empty()) == Seq::<Seq<char>>::empty());
        }
    } else {
        assert(lines.push(x)[0] == lines[0]);
    }
}

proof fn lemma_join_nonempty(lines: Seq<Seq<char>>)
    requires
        lines.len() > 0,
        lines[0].len() > 0,
    ensures
        join_lines(lines).len() > 0,
    decreases lines.len(),
{
    if lines.len() > 1 {
        lemma_join_nonempty(lines.drop_last());
    }
}

/// The text of the log is the lines joined with newlines, once the empty
/// lines it started with are left out.
pub proof fn lemma_log_text_is_joined_lines(lines: Seq<Seq<char>>)
    ensures
        fold_text(lines) == join_lines(strip_leading_empty(lines)),
    decreases lines.len(),
{
    if lines.len() > 0 {
        let prev = lines.drop_last();
        let x = lines.last();
        lemma_log_text_is_joined_lines(prev);
        lemma_strip_push(prev, x);
        assert(prev.push(x) =~= lines);
        let sp = strip_leading_empty(prev);
        if sp.len() == 0 {
            if x.len() > 0 {
                assert(seq![x].len() == 1);
            }
        } else {
            lemma_join_nonempty(sp);
            assert(sp.push(x).drop_last() =~= sp);
        }
    }
}

/// The debug terminal's log: its lines and the text shown in the terminal.
pub struct TerminalLog {
    pub lines: Vec<String>,
    pub text: String,
}

/// The lines of a log as character sequences.
pub open spec fn lines_view(v: Seq<String>) -> Seq<Seq<char>> {
    v.map_values(|s: String| s@)
}

impl TerminalLog {
    /// The text is the one that the lines build.
    pub open spec fn wf(&self) -> bool {
        self.text@ == fold_text(lines_view(self.lines@))
    }

    /// An empty log.
    pub fn new() -> (log: Self)
        ensures
            log.wf(),
            log.lines@.len() == 0,
            log.text@.len() == 0,
    {
        let log = TerminalLog { lines: Vec::new(), text: String::new() };
        assert(lines_view(log.lines@) =~= Seq::<Seq<char>>::empty());
        log
    }

    /// Pushes one raw line without timestamp.
    pub fn push_plain_line(&mut self, message: String)
        ensures
            lines_view(final(self).lines@) == lines_view(old(self).lines@).push(message@),
            final(self).text@ == appended_text(old(self).text@, message@),
            old(self).wf() ==> final(self).wf(),
    {
        let ghost m = message@;
        let ghost before = self.lines@;
        if self.text.as_str().unicode_len() > 0 {
            push_char(&mut self.text, '\n');
        }
        push_str(&mut self.text, message.as_str());
        self.lines.push(message);
        assert(lines_view(self.lines@) =~= lines_view(before).push(m));
        assert(lines_view(self.lines@).drop_last() =~= lines_view(before));
        assert(self.text@ =~= appended_text(old(self).text@, m));
    }

    /// The text exported to a file: the text, or the joined lines when the
    /// text is empty while lines exist.
    pub fn export_text(&self) -> (out: String)
        ensures
            out@ == if self.text@.len() == 0 && self.lines@.len() > 0 {
                join_lines(lines_view(self.lines@))
            } else {
                self.text@
            },
    {
        if self.text.as_str().unicode_len() == 0 && self.lines.len() > 0 {
            join_with_newlines(&self.lines)
        } else {
            self.text.clone()
        }
    }
}

/// Joins strings with newlines.
pub fn join_with_newlines(lines: &Vec<String>) -> (out: String)
    ensures
        out@ == join_lines(lines_view(lines@)),
{
    let mut out = String::new();
    let mut k: usize = 0;
    while k < lines.len()
        invariant
            k <= lines@.len(),
            out@ == join_lines(lines_view(lines@.take(k as int))),
        decreases lines@.len() - k,
    {
        let ghost prev = lines_view(lines@.take(k as int));
        assert(lines_view(lines@.take(k + 1)).drop_last() =~= prev);
        if k > 0 {
            push_char(&mut out, '\n');
        }
        push_str(&mut out, lines[k].as_str());
        k = k + 1;
        proof {
            if k == 1 {
                assert(out@ =~= join_lines(lines_view(lines@.take(k as int))));
            } else {
                assert(out@ =~= join_lines(lines_view(lines@.take(k as int))));
            }
        }
    }
    assert(lines@.take(lines@.len() as int) =~= lines@);
    out
}

/// Uptime written as `HH:MM:SS.mmm` (hours may take more than two digits).
pub open spec fn uptime_spec(secs: nat, millis: nat) -> Seq<char> {
    zero_pad(decimal(secs / 3600), 2) + seq![':'] + zero_pad(decimal((secs % 3600) / 60), 2)
        + seq![':'] + zero_pad(decimal(secs % 60), 2) + seq!['.'] + zero_pad(decimal(millis), 3)
}

/// Formats the elapsed terminal uptime (whole seconds and the milliseconds
/// of the current second) as `HH:MM:SS.mmm`.
pub fn terminal_timestamp(elapsed_secs: u64, elapsed_millis: u32) -> (ts: String)
    ensures
        ts@ == uptime_spec(elapsed_secs as nat, elapsed_millis as nat),
{
    let h = elapsed_secs / 3600;
    let m = (elapsed_secs % 3600) / 60;
    let s = elapsed_secs % 60;
    let mut ts = String::new();
    push_decimal_padded(&mut ts, h, 2);
    push_char(&mut ts, ':');
    push_decimal_padded(&mut ts, m, 2);
    push_char(&mut ts, ':');
    push_decimal_padded(&mut ts, s, 2);
    push_char(&mut ts, '.');
    push_decimal_padded(&mut ts, elapsed_millis as u64, 3);
    assert(ts@ =~= uptime_spec(elapsed_secs as nat, elapsed_millis as nat));
    ts
}

/// A timestamped log line: `<timestamp> |<level>| <message>`.
pub open spec fn log_line_spec(timestamp: Seq<char>, level: Seq<char>, message: Seq<char>) -> Seq<char> {
    timestamp + " |"@ + level + "| "@ + message
}

/// Builds one timestamped terminal log line with its level marker.
pub fn log_line(timestamp: &str, level: &str, message: &str) -> (line: String)
    ensures
        line@ == log_line_spec(timestamp@, level@, message@),
{
    let mut line = timestamp.to_string();
    push_str(&mut line, " |");
    push_str(&mut line, level);
    push_str(&mut line, "| ");
    push_str(&mut line, message);
    line
}

/// One line for the terminal: either written as is, or written as an
/// information line behind the current timestamp (`<ts> |I| <message>`).
pub struct TerminalEntry {
    pub timestamped: bool,
    pub message: String,
}

/// The entries as (timestamped, text) pairs.
pub open spec fn entries_view(v: Seq<TerminalEntry>) -> Seq<(bool, Seq<char>)> {
    v.map_values(|e: TerminalEntry| (e.timestamped, e.message@))
}

/// Appends a plain (untimestamped) entry.
pub fn push_plain(entries: &mut Vec<TerminalEntry>, message: String)
    ensures
        entries_view(final(entries)@) == entries_view(old(entries)@).push((false, message@)),
{
    let ghost before = entries@;
    entries.push(TerminalEntry { timestamped: false, message });
    assert(entries_view(entries@) =~= entries_view(before).push((false, entries@.last().message@)));
}

/// Appends an information entry, written behind a timestamp.
pub fn push_info(entries: &mut Vec<TerminalEntry>, message: String)
    ensures
        entries_view(final(entries)@) == entries_view(old(entries)@).push((true, message@)),
{
    let ghost before = entries@;
    entries.push(TerminalEntry { timestamped: true, message });
    assert(entries_view(entries@) =~= entries_view(before).push((true, entries@.last().message@)));
}

/// Remembers the last status message written to the log.
pub struct StatusLogger {
    pub last_status_logged: String,
}

/// One step of status logging from the last logged status: whether the
/// status is logged (it is neither empty nor the last one), and the last
/// logged status afterwards.
pub open spec fn status_step(last: Seq<char>, status: Seq<char>) -> (bool, Seq<char>) {
    if status.len() == 0 || status == last {
        (false, last)
    } else {
        (true, status)
    }
}

impl StatusLogger {
    /// The line to log for the current status, if it is new: an empty
    /// status, or the same as last time, gives none.
    pub fn status_line(&mut self, status: &str, timestamp: &str) -> (line: Option<String>)
        ensures
            (line is Some) == status_step(old(self).last_status_logged@, status@).0,
            final(self).last_status_logged@ == status_step(old(self).last_status_logged@, status@).1,
            line matches Some(l) ==> l@ == log_line_spec(timestamp@, "I"@, status@),
    {
        if status.unicode_len() == 0 || str_eq(status, self.last_status_logged.as_str()) {
            return None;
        }
        let line = log_line(timestamp, "I", status);
        self.last_status_logged = status.to_string();
        Some(line)
    }
}

/// A status is logged once: right after a status went through, the same
/// status is not logged again.
pub proof fn lemma_status_logged_once(last: Seq<char>, status: Seq<char>)
    ensures
        !status_step(status_step(last, status).1, status).0,
{
}

/// Translated words used by the terminal's messages.
pub struct TerminalWords {
    pub terminal_theme: String,
    pub terminal_language: String,
    pub terminal_vsync: String,
    pub terminal_fps: String,
    pub terminal_unlimited: String,
    pub terminal_fullscreen: String,
    pub terminal_sound: String,
    pub terminal_enabled: String,
    pub terminal_disabled: String,
    pub terminal_kiwano: String,
    pub terminal_dark: String,
    pub terminal_light: String,
}

/// The word shown for an on/off value.
pub open spec fn state_word(w: TerminalWords, value: bool) -> Seq<char> {
    if value {
        w.terminal_enabled@
    } else {
        w.terminal_disabled@
    }
}

/// The word shown for a theme.
pub open spec fn theme_word(w: TerminalWords, theme: AppTheme) -> Seq<char> {
    match theme {
        AppTheme::Kiwano => w.terminal_kiwano@,
        AppTheme::Dark => w.terminal_dark@,
        AppTheme::Light => w.terminal_light@,
    }
}

/// The word with its first character in upper case (Unicode mapping, which
/// may give more than one character).
pub open spec fn capitalized(raw: Seq<char>) -> Seq<char> {
    if raw.len() == 0 {
        Seq::empty()
    } else {
        uppercased(seq![raw[0]]) + raw.drop_first()
    }
}

/// The theme's name in the settings: the capitalized theme word, followed
/// for the default theme by a space and the "default" suffix.
pub open spec fn theme_label_spec(w: TerminalWords, theme: AppTheme, default_suffix: Seq<char>) -> Seq<char> {
    if theme == AppTheme::Kiwano {
        capitalized(theme_word(w, theme)) + seq![' '] + default_suffix
    } else {
        capitalized(theme_word(w, theme))
    }
}

/// Builds the theme's name for the settings' theme picker.
pub fn theme_label(theme: AppTheme, t: &TerminalWords, default_suffix: &str) -> (label: String)
    ensures
        label@ == theme_label_spec(*t, theme, default_suffix@),
{
    let raw = t.theme_label(theme);
    let chars = chars_of(raw.as_str());
    let mut label = String::new();
    if chars.len() > 0 {
        let mut first = String::new();
        push_char(&mut first, chars[0]);
        label = to_upper(first.as_str());
        assert(first@ == seq![raw@[0]]);
        let mut i: usize = 1;
        while i < chars.len()
            invariant
                chars@ == raw@,
                1 <= i <= chars@.len(),
                label@ == uppercased(seq![raw@[0]]) + raw@.subrange(1, i as int),
            decreases chars@.len() - i,
        {
            push_char(&mut label, chars[i]);
            i = i + 1;
            assert(label@ =~= uppercased(seq![raw@[0]]) + raw@.subrange(1, i as int));
        }
        assert(raw@.subrange(1, raw@.len() as int) =~= raw@.drop_first());
    }
    if theme == AppTheme::Kiwano {
        push_char(&mut label, ' ');
        push_str(&mut label, default_suffix);
    }
    label
}

/// The frame-rate text: 60 with vertical sync, unlimited without.
pub open spec fn fps_word(w: TerminalWords, vsync: bool) -> Seq<char> {
    if vsync {
        "60"@
    } else {
        w.terminal_unlimited@
    }
}

impl TerminalWords {
    /// Returns the localized word for an on/off value.
    pub fn state_label(&self, value: bool) -> (s: String)
        ensures
            s@ == state_word(*self, value),
    {
        if value {
            self.terminal_enabled.clone()
        } else {
            self.terminal_disabled.clone()
        }
    }

    /// Returns the localized theme word.
    pub fn theme_label(&self, theme: AppTheme) -> (s: String)
        ensures
            s@ == theme_word(*self, theme),
    {
        match theme {
            AppTheme::Kiwano => self.terminal_kiwano.clone(),
            AppTheme::Dark => self.terminal_dark.clone(),
            AppTheme::Light => self.terminal_light.clone(),
        }
    }

    /// Returns the frame-rate text.
    pub fn fps_label(&self, vsync: bool) -> (s: String)
        ensures
            s@ == fps_word(*self, vsync),
    {
        if vsync {
            "60".to_string()
        } else {
            self.terminal_unlimited.clone()
        }
    }
}

pub(crate) fn labelled(label: &str, sep: &str, value: &str) -> (s: String)
    ensures
        s@ == label@ + sep@ + value@,
{
    let mut s = label.to_string();
    push_str(&mut s, sep);
    push_str(&mut s, value);
    s
}

/// The configuration values that the terminal reports.
#[derive(PartialEq, Eq, Structural, Clone, Copy, Debug)]
pub struct LoggedConfig {
    pub theme: AppTheme,
    pub langue: Langue,
    pub vsync: bool,
    pub fullscreen: bool,
    pub son_active: bool,
}

/// The messages logged when the configuration moves from `last` to `now`,
/// in order: theme, language, vertical sync (state, then frame rate),
/// fullscreen, sound.
pub open spec fn change_messages(w: TerminalWords, last: LoggedConfig, now: LoggedConfig) -> Seq<Seq<char>> {
    (if now.theme != last.theme {
        seq![w.terminal_theme@ + ": "@ + theme_word(w, now.theme)]
    } else {
        Seq::empty()
    }) + (if now.langue != last.langue {
        seq![w.terminal_language@ + ": "@ + langue_label_spec(now.langue)]
    } else {
        Seq::empty()
    }) + (if now.vsync != last.vsync {
        seq![
            w.terminal_vsync@ + ": "@ + state_word(w, now.vsync),
            w.terminal_fps@ + " : "@ + fps_word(w, now.vsync),
        ]
    } else {
        Seq::empty()
    }) + (if now.fullscreen != last.fullscreen {
        seq![w.terminal_fullscreen@ + ": "@ + state_word(w, now.fullscreen)]
    } else {
        Seq::empty()
    }) + (if now.son_active != last.son_active {
        seq![w.terminal_sound@ + ": "@ + state_word(w, now.son_active)]
    } else {
        Seq::empty()
    })
}

fn push_change(msgs: &mut Vec<String>, changed: bool, label: &str, sep: &str, value: &str)
    ensures
        lines_view(final(msgs)@) == lines_view(old(msgs)@) + (if changed {
            seq![label@ + sep@ + value@]
        } else {
            Seq::empty()
        }),
{
    let ghost before = lines_view(msgs@);
    if changed {
        let line = labelled(label, sep, value);
        msgs.push(line);
        assert(lines_view(msgs@) =~= before + seq![label@ + sep@ + value@]);
    } else {
        assert(lines_view(msgs@) =~= before + Seq::<Seq<char>>::empty());
    }
}

/// Computes the messages for configuration changes since the last logged
/// state, and records the current state as logged.
pub fn log_config_changes(last: &mut LoggedConfig, now: LoggedConfig, words: &TerminalWords) -> (msgs: Vec<String>)
    ensures
        lines_view(msgs@) == change_messages(*words, *old(last), now),
        *final(last) == now,
{
    let mut msgs: Vec<String> = Vec::new();
    let theme = words.theme_label(now.theme);
    push_change(&mut msgs, now.theme != last.theme, words.terminal_theme.as_str(), ": ", theme.as_str());
    let ghost m1 = lines_view(msgs@);
    push_change(&mut msgs, now.langue != last.langue, words.terminal_language.as_str(), ": ", now.langue.label());
    let ghost m2 = lines_view(msgs@);
    let vs = words.state_label(now.vsync);
    push_change(&mut msgs, now.vsync != last.vsync, words.terminal_vsync.as_str(), ": ", vs.as_str());
    let fps = words.fps_label(now.vsync);
    push_change(&mut msgs, now.vsync != last.vsync, words.terminal_fps.as_str(), " : ", fps.as_str());
    let ghost m3 = lines_view(msgs@);
    let fs = words.state_label(now.fullscreen);
    push_change(&mut msgs, now.fullscreen != last.fullscreen, words.terminal_fullscreen.as_str(), ": ", fs.as_str());
    let ghost m4 = lines_view(msgs@);
    let snd = words.state_label(now.son_active);
    push_change(&mut msgs, now.son_active != last.son_active, words.terminal_sound.as_str(), ": ", snd.as_str());
    assert(lines_view(msgs@) =~= change_messages(*words, *last, now));
    *last = now;
    msgs
}

/// Translated words of the terminal's start-up lines.
pub struct BootWords {
    pub legend: String,
    pub info_legend: String,
    pub platform: String,
    pub runtime_ready: String,
    pub core_init: String,
    pub display_init: String,
    pub input_init: String,
    pub audio_init: String,
}

/// The terminal's start-up lines: the two legends and a blank line, then,
/// behind timestamps, the version, the platform, the runtime, the current
/// configuration and the initialised subsystems.
pub open spec fn boot_entries_spec(
    w: TerminalWords,
    b: BootWords,
    version: Seq<char>,
    os: Seq<char>,
    arch: Seq<char>,
    c: LoggedConfig,
) -> Seq<(bool, Seq<char>)> {
    seq![
        (false, b.legend@),
        (false, b.info_legend@),
        (false, Seq::<char>::empty()),
        (true, "Oxide v"@ + version),
        (true, b.platform@ + ": "@ + os + " ("@ + arch + ")"@),
        (true, b.runtime_ready@),
        (true, w.terminal_theme@ + ": "@ + theme_word(w, c.theme)),
        (true, w.terminal_language@ + ": "@ + langue_label_spec(c.langue)),
        (true, w.terminal_fps@ + " : "@ + fps_word(w, c.vsync)),
        (true, w.terminal_vsync@ + ": "@ + state_word(w, c.vsync)),
        (true, w.terminal_fullscreen@ + ": "@ + state_word(w, c.fullscreen)),
        (true, w.terminal_sound@ + ": "@ + state_word(w, c.son_active)),
        (true, b.core_init@),
        (true, b.display_init@),
        (true, b.input_init@),
        (true, b.audio_init@ + " ("@ + state_word(w, c.son_active) + ")"@),
    ]
}

fn enclosed(label: &str, inner: &str) -> (s: String)
    ensures
        s@ == label@ + " ("@ + inner@ + ")"@,
{
    let mut s = labelled(label, " (", inner);
    push_char(&mut s, ')');
    proof {
        reveal_strlit(")");
    }
    assert(s@ =~= label@ + " ("@ + inner@ + ")"@);
    s
}

/// The start-up lines, written once per run: the first call gives them and
/// records the configuration as logged; later calls give nothing.
pub fn seed_terminal_boot_logs(
    seeded: &mut bool,
    last: &mut LoggedConfig,
    now: LoggedConfig,
    w: &TerminalWords,
    b: &BootWords,
    version: &str,
    os: &str,
    arch: &str,
) -> (entries: Vec<TerminalEntry>)
    ensures
        *old(seeded) ==> entries@.len() == 0 && *final(last) == *old(last),
        !*old(seeded) ==> entries_view(entries@) == boot_entries_spec(*w, *b, version@, os@, arch@, now)
            && *final(last) == now,
        *final(seeded),
{
    let mut entries: Vec<TerminalEntry> = Vec::new();
    if *seeded {
        return entries;
    }
    push_plain(&mut entries, b.legend.clone());
    push_plain(&mut entries, b.info_legend.clone());
    push_plain(&mut entries, String::new());
    push_info(&mut entries, labelled("Oxide v", "", version));
    push_info(&mut entries, enclosed(labelled(b.platform.as_str(), ": ", os).as_str(), arch));
    push_info(&mut entries, b.runtime_ready.clone());
    let theme = w.theme_label(now.theme);
    push_info(&mut entries, labelled(w.terminal_theme.as_str(), ": ", theme.as_str()));
    push_info(&mut entries, labelled(w.terminal_language.as_str(), ": ", now.langue.label()));
    let fps = w.fps_label(now.vsync);
    push_info(&mut entries, labelled(w.terminal_fps.as_str(), " : ", fps.as_str()));
    let vs = w.state_label(now.vsync);
    push_info(&mut entries, labelled(w.terminal_vsync.as_str(), ": ", vs.as_str()));
    let fs = w.state_label(now.fullscreen);
    push_info(&mut entries, labelled(w.terminal_fullscreen.as_str(), ": ", fs.as_str()));
    let snd = w.state_label(now.son_active);
    push_info(&mut entries, labelled(w.terminal_sound.as_str(), ": ", snd.as_str()));
    push_info(&mut entries, b.core_init.clone());
    push_info(&mut entries, b.display_init.clone());
    push_info(&mut entries, b.input_init.clone());
    push_info(&mut entries, enclosed(b.audio_init.as_str(), snd.as_str()));
    proof {
        reveal_strlit("");
        assert("Oxide v"@ + ""@ + version@ =~= "Oxide v"@ + version@);
    }
    assert(entries_view(entries@) =~= boot_entries_spec(*w, *b, version@, os@, arch@, now));
    *last = now;
    *seeded = true;
    entries
}

/// A change is logged once: once logged, the same configuration gives no
/// message.
pub proof fn lemma_config_logged_once(w: TerminalWords, c: LoggedConfig)
    ensures
        change_messages(w, c, c).len() == 0,
{
}

/// Whether `needle` occurs in `hay`.
pub open spec fn occurs_in(needle: Seq<char>, hay: Seq<char>) -> bool {
    exists|i: int| 0 <= i <= hay.len() - needle.len() && #[trigger] hay.subrange(i, i + needle.len()) == needle
}

/// Checks whether `needle` occurs in `hay`.
pub fn contains_text(hay: &str, needle: &str) -> (yes: bool)
    ensures
        yes == occurs_in(needle@, hay@),
{
    let h = chars_of(hay);
    let n = chars_of(needle);
    if n.len() == 0 {
        assert(hay@.subrange(0int, 0int + needle@.len()) =~= needle@);
        return true;
    }
    if n.len() > h.len() {
        return false;
    }
    let hl = h.len();
    let last = hl - n.len();
    let mut i: usize = 0;
    while i < last + 1
        invariant
            h@ == hay@,
            n@ == needle@,
            0 < n@.len() <= h@.len(),
            hl == h@.len(),
            last == h@.len() - n@.len(),
            i <= last + 1,
            forall|j: int| 0 <= j < i ==> #[trigger] hay@.subrange(j, j + needle@.len()) != needle@,
        decreases last + 1 - i,
    {
        let mut k: usize = 0;
        let mut same = true;
        while k < n.len()
            invariant
                h@ == hay@,
                n@ == needle@,
                0 < n@.len() <= h@.len(),
                hl == h@.len(),
                i <= last,
                last == h@.len() - n@.len(),
                k <= n@.len(),
                same == forall|m: int| 0 <= m < k ==> h@[i + m] == n@[m],
            decreases n@.len() - k,
        {
            same = same && h[i + k] == n[k];
            k = k + 1;
        }
        if same {
            assert(hay@.subrange(i as int, i + needle@.len()) =~= needle@);
            return true;
        }
        assert(hay@.subrange(i as int, i + needle@.len()) != needle@) by {
            let m = choose|m: int| 0 <= m < n@.len() && h@[i + m] != n@[m];
            assert(hay@.subrange(i as int, i + needle@.len())[m] != needle@[m]);
        }
        i = i + 1;
    }
    false
}

/// The lines shown for a search: the lines whose lower-case form contains
/// the trimmed, lower-case query.
pub open spec fn matching_lines(lines: Seq<Seq<char>>, query: Seq<char>) -> Seq<Seq<char>> {
    lines.filter(|l: Seq<char>| occurs_in(lowercased(trimmed(query)), lowercased(l)))
}

/// `piece` stands somewhere in `text`: there is text before and after it.
pub open spec fn has_piece(text: Seq<char>, piece: Seq<char>) -> bool {
    exists|before: Seq<char>, after: Seq<char>| #[trigger] (before + piece + after) == text
}

proof fn lemma_occurs_iff_piece(needle: Seq<char>, hay: Seq<char>)
    ensures
        occurs_in(needle, hay) <==> has_piece(hay, needle),
{
    if occurs_in(needle, hay) {
        let i = choose|i: int| 0 <= i <= hay.len() - needle.len() && #[trigger] hay.subrange(i, i + needle.len()) == needle;
        let before = hay.subrange(0, i);
        let after = hay.subrange(i + needle.len(), hay.len() as int);
        assert(before + needle + after =~= hay);
    }
    if has_piece(hay, needle) {
        let (before, after) = choose|before: Seq<char>, after: Seq<char>| #[trigger] (before + needle
            + after) == hay;
        let i = before.len() as int;
        assert(hay.subrange(i, i + needle.len()) =~= needle);
    }
}

/// The search of the terminal keeps a line exactly when the trimmed query,
/// in lower case, stands anywhere in the line's lower-case form, and keeps
/// the kept lines in their order: searching a log with one more line gives
/// the earlier result, followed by that line when it matches.
pub proof fn lemma_search_keeps_lines_containing_query(
    lines: Seq<Seq<char>>,
    line: Seq<char>,
    query: Seq<char>,
)
    ensures
        matching_lines(Seq::empty(), query) == Seq::<Seq<char>>::empty(),
        matching_lines(lines.push(line), query) == (if has_piece(
            lowercased(line),
            lowercased(trimmed(query)),
        ) {
            matching_lines(lines, query).push(line)
        } else {
            matching_lines(lines, query)
        }),
        matching_lines(lines, query).contains(line) <==> (lines.contains(line) && has_piece(
            lowercased(line),
            lowercased(trimmed(query)),
        )),
{
    reveal(Seq::filter);
    let q = lowercased(trimmed(query));
    lemma_occurs_iff_piece(q, lowercased(line));
    assert(lines.push(line).drop_last() =~= lines);
    assert(Seq::<Seq<char>>::empty().filter(|l: Seq<char>| occurs_in(q, lowercased(l)))
        =~= Seq::<Seq<char>>::empty());
    let pred = |l: Seq<char>| occurs_in(q, lowercased(l));
    assert(matching_lines(lines, query) == lines.filter(pred));
    let f = lines.filter(pred);
    if f.contains(line) {
        lines.lemma_filter_contains_rev(pred, line);
        let j = choose|j: int| 0 <= j < f.len() && f[j] == line;
        lines.lemma_filter_pred(pred, j);
    }
    if lines.contains(line) && pred(line) {
        let i = choose|i: int| 0 <= i < lines.len() && lines[i] == line;
        lines.lemma_filter_contains(pred, i);
    }
}

/// The text shown in the terminal: the whole log when the trimmed query is
/// empty, otherwise the matching lines joined with newlines.
pub fn displayed_text(log: &TerminalLog, query: &str) -> (shown: String)
    ensures
        lowercased(trimmed(query@)).len() == 0 ==> shown@ == log.text@,
        lowercased(trimmed(query@)).len() > 0 ==> shown@ == join_lines(
            matching_lines(lines_view(log.lines@), query@),
        ),
{
    let q = to_lower(trim_str(query));
    if q.as_str().unicode_len() == 0 {
        return log.text.clone();
    }
    let mut kept: Vec<String> = Vec::new();
    let mut k: usize = 0;
    proof {
        reveal(Seq::filter);
        assert(lines_view(log.lines@.take(0)) =~= Seq::<Seq<char>>::empty());
        assert(lines_view(kept@) =~= Seq::<Seq<char>>::empty());
    }
    while k < log.lines.len()
        invariant
            q@ == lowercased(trimmed(query@)),
            k <= log.lines@.len(),
            lines_view(kept@) == matching_lines(lines_view(log.lines@.take(k as int)), query@),
        decreases log.lines@.len() - k,
    {
        let ghost before = lines_view(kept@);
        let line_lower = to_lower(log.lines[k].as_str());
        assert(lines_view(log.lines@.take(k + 1)).drop_last() =~= lines_view(log.lines@.take(k as int)));
        if contains_text(line_lower.as_str(), q.as_str()) {
            kept.push(log.lines[k].clone());
            assert(lines_view(kept@) =~= before.push(log.lines@[k as int]@));
        } else {
            assert(lines_view(kept@) =~= before);
        }
        k = k + 1;
        proof {
            reveal(Seq::filter);
            assert(lines_view(log.lines@.take(k as int)).last() == log.lines@[k - 1]@);
        }
        assert(lines_view(kept@) =~= matching_lines(lines_view(log.lines@.take(k as int)), query@));
    }
    assert(log.lines@.take(log.lines@.len() as int) =~= log.lines@);
    join_with_newlines(&kept)
}

} // verus!
