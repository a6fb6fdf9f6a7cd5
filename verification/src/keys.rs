//! Key and mouse-button labels: parsing the labels stored in the settings
//! into keys, parsing shortcut labels such as `Ctrl+Shift+F1`, and building
//! labels back from captured input.

use vstd::prelude::*;
use vstd::string::*;
use crate::text::{push_char, str_eq, chars_of, push_str, string_of};

verus! {

/// Keyboard keys that labels can name.
#[derive(PartialEq, Eq, Structural, Clone, Copy, Debug)]
pub enum KeyCode {
    Num0, Num1, Num2, Num3, Num4, Num5, Num6, Num7, Num8, Num9,
    A, B, C, D, E, F, G, H, I, J, K, L, M, N, O, P, Q, R, S, T, U, V, W, X, Y, Z,
    F1, F2, F3, F4, F5, F6, F7, F8, F9, F10, F11, F12,
    Escape, Enter, Space, Tab, Plus, Equals, Minus,
    ArrowLeft, ArrowRight, ArrowUp, ArrowDown,
    Backspace, Insert, Delete, Home, End, PageUp, PageDown,
    /// Any other key of the keyboard.
    Other,
}

/// Mouse buttons that labels can name.
#[derive(PartialEq, Eq, Structural, Clone, Copy, Debug)]
pub enum PointerButtonCode {
    Primary,
    Secondary,
    Middle,
    Extra1,
    Extra2,
}

/// The characters with the Unicode `White_Space` property, the ones that
/// `char::is_whitespace` accepts and `str::trim` removes.
pub open spec fn is_white_space(c: char) -> bool {
    ||| ('\u{9}' <= c && c <= '\u{d}')
    ||| c == ' '
    ||| c == '\u{85}'
    ||| c == '\u{a0}'
    ||| c == '\u{1680}'
    ||| ('\u{2000}' <= c && c <= '\u{200a}')
    ||| c == '\u{2028}'
    ||| c == '\u{2029}'
    ||| c == '\u{202f}'
    ||| c == '\u{205f}'
    ||| c == '\u{3000}'
}

/// The text without its leading white space.
pub open spec fn trim_start_spec(s: Seq<char>) -> Seq<char>
    decreases s.len(),
{
    if s.len() > 0 && is_white_space(s[0]) {
        trim_start_spec(s.drop_first())
    } else {
        s
    }
}

/// The text without its trailing white space.
pub open spec fn trim_end_spec(s: Seq<char>) -> Seq<char>
    decreases s.len(),
{
    if s.len() > 0 && is_white_space(s.last()) {
        trim_end_spec(s.drop_last())
    } else {
        s
    }
}

/// The text without leading and trailing white space, as `str::trim`
/// gives it.
pub open spec fn trimmed(s: Seq<char>) -> Seq<char> {
    trim_end_spec(trim_start_spec(s))
}

fn is_white_space_exec(c: char) -> (b: bool)
    ensures
        b == is_white_space(c),
{
    ('\u{9}' <= c && c <= '\u{d}') || c == ' ' || c == '\u{85}' || c == '\u{a0}' || c == '\u{1680}'
        || ('\u{2000}' <= c && c <= '\u{200a}') || c == '\u{2028}' || c == '\u{2029}' || c
        == '\u{202f}' || c == '\u{205f}' || c == '\u{3000}'
}

/// The text without leading and trailing white space (what `str::trim`
/// gives).
pub(crate) fn trim_str(s: &str) -> (t: &str)
    ensures
        t@ == trimmed(s@),
{
    let n = s.unicode_len();
    let mut start: usize = 0;
    assert(s@.skip(0) =~= s@);
    while start < n && is_white_space_exec(s.get_char(start))
        invariant
            n == s@.len(),
            start <= n,
            trim_start_spec(s@) == trim_start_spec(s@.skip(start as int)),
        decreases n - start,
    {
        assert(s@.skip(start as int).drop_first() =~= s@.skip(start + 1));
        start = start + 1;
    }
    assert(trim_start_spec(s@.skip(start as int)) == s@.skip(start as int));
    let mut end: usize = n;
    assert(s@.subrange(start as int, n as int) =~= s@.skip(start as int));
    while end > start && is_white_space_exec(s.get_char(end - 1))
        invariant
            n == s@.len(),
            start <= end <= n,
            trim_end_spec(s@.skip(start as int)) == trim_end_spec(s@.subrange(start as int, end as int)),
        decreases end - start,
    {
        assert(s@.subrange(start as int, end as int).drop_last() =~= s@.subrange(start as int, end - 1));
        end = end - 1;
    }
    assert(trim_end_spec(s@.subrange(start as int, end as int)) == s@.subrange(start as int, end as int));
    s.substring_char(start, end)
}

/// Every character is ASCII.
pub open spec fn is_ascii_text(s: Seq<char>) -> bool {
    forall|i: int| 0 <= i < s.len() ==> (s[i] as u32) < 128
}

/// The ASCII upper case of a character: `a`-`z` become `A`-`Z`.
pub open spec fn ascii_upper_char(c: char) -> char {
    if 'a' <= c && c <= 'z' {
        ((c as u32) - 32) as char
    } else {
        c
    }
}

/// The ASCII lower case of a character: `A`-`Z` become `a`-`z`.
pub open spec fn ascii_lower_char(c: char) -> char {
    if 'A' <= c && c <= 'Z' {
        ((c as u32) + 32) as char
    } else {
        c
    }
}

/// The text with `a`-`z` in upper case.
pub open spec fn ascii_upper(s: Seq<char>) -> Seq<char> {
    s.map_values(|c: char| ascii_upper_char(c))
}

/// The text with `A`-`Z` in lower case.
pub open spec fn ascii_lower(s: Seq<char>) -> Seq<char> {
    s.map_values(|c: char| ascii_lower_char(c))
}

/// Result of `str::to_uppercase` (std) on a text that is not all ASCII:
/// the Unicode upper-case mapping.
pub uninterp spec fn unicode_uppercased(s: Seq<char>) -> Seq<char>;

/// Result of `str::to_lowercase` (std) on a text that is not all ASCII:
/// the Unicode lower-case mapping.
pub uninterp spec fn unicode_lowercased(s: Seq<char>) -> Seq<char>;

/// The upper case of a text, as `str::to_uppercase` gives it: on ASCII text
/// the ASCII mapping, otherwise the Unicode mapping by name.
pub open spec fn uppercased(s: Seq<char>) -> Seq<char> {
    if is_ascii_text(s) {
        ascii_upper(s)
    } else {
        unicode_uppercased(s)
    }
}

/// The lower case of a text, as `str::to_lowercase` gives it: on ASCII text
/// the ASCII mapping, otherwise the Unicode mapping by name.
pub open spec fn lowercased(s: Seq<char>) -> Seq<char> {
    if is_ascii_text(s) {
        ascii_lower(s)
    } else {
        unicode_lowercased(s)
    }
}

/// Calls `str::to_uppercase` (std). On ASCII text Unicode's upper-case
/// mapping turns `a`-`z` into `A`-`Z` and keeps every other character; the
/// full mapping of other text is named by `unicode_uppercased`.
#[verifier::external_body]
pub(crate) fn to_upper(s: &str) -> (u: String)
    ensures
        u@ == if is_ascii_text(s@) {
            ascii_upper(s@)
        } else {
            unicode_uppercased(s@)
        },
{
    s.to_uppercase()
}

/// Calls `str::to_lowercase` (std). On ASCII text Unicode's lower-case
/// mapping turns `A`-`Z` into `a`-`z` and keeps every other character; the
/// full mapping of other text is named by `unicode_lowercased`.
#[verifier::external_body]
pub(crate) fn to_lower(s: &str) -> (l: String)
    ensures
        l@ == if is_ascii_text(s@) {
            ascii_lower(s@)
        } else {
            unicode_lowercased(s@)
        },
{
    s.to_lowercase()
}

/// The normalised form in which labels are compared: trimmed, then upper case.
pub open spec fn normalized(s: Seq<char>) -> Seq<char> {
    uppercased(trimmed(s))
}

/// Trims a label and puts it in upper case.
pub fn normalize(s: &str) -> (n: String)
    ensures
        n@ == normalized(s@),
{
    to_upper(trim_str(s))
}

pub open spec fn is_digit(c: char) -> bool {
    '0' <= c && c <= '9'
}

/// The key of a decimal digit character.
pub open spec fn digit_key(c: char) -> KeyCode {
    if c == '0' { KeyCode::Num0 }
    else if c == '1' { KeyCode::Num1 }
    else if c == '2' { KeyCode::Num2 }
    else if c == '3' { KeyCode::Num3 }
    else if c == '4' { KeyCode::Num4 }
    else if c == '5' { KeyCode::Num5 }
    else if c == '6' { KeyCode::Num6 }
    else if c == '7' { KeyCode::Num7 }
    else if c == '8' { KeyCode::Num8 }
    else { KeyCode::Num9 }
}

/// The key of an upper-case ASCII letter.
pub open spec fn letter_key(c: char) -> KeyCode {
    if c == 'A' { KeyCode::A }
    else if c == 'B' { KeyCode::B }
    else if c == 'C' { KeyCode::C }
    else if c == 'D' { KeyCode::D }
    else if c == 'E' { KeyCode::E }
    else if c == 'F' { KeyCode::F }
    else if c == 'G' { KeyCode::G }
    else if c == 'H' { KeyCode::H }
    else if c == 'I' { KeyCode::I }
    else if c == 'J' { KeyCode::J }
    else if c == 'K' { KeyCode::K }
    else if c == 'L' { KeyCode::L }
    else if c == 'M' { KeyCode::M }
    else if c == 'N' { KeyCode::N }
    else if c == 'O' { KeyCode::O }
    else if c == 'P' { KeyCode::P }
    else if c == 'Q' { KeyCode::Q }
    else if c == 'R' { KeyCode::R }
    else if c == 'S' { KeyCode::S }
    else if c == 'T' { KeyCode::T }
    else if c == 'U' { KeyCode::U }
    else if c == 'V' { KeyCode::V }
    else if c == 'W' { KeyCode::W }
    else if c == 'X' { KeyCode::X }
    else if c == 'Y' { KeyCode::Y }
    else { KeyCode::Z }
}

/// The function key F1..F12 of a number 1..12.
pub open spec fn function_key(n: int) -> KeyCode {
    if n == 1 { KeyCode::F1 }
    else if n == 2 { KeyCode::F2 }
    else if n == 3 { KeyCode::F3 }
    else if n == 4 { KeyCode::F4 }
    else if n == 5 { KeyCode::F5 }
    else if n == 6 { KeyCode::F6 }
    else if n == 7 { KeyCode::F7 }
    else if n == 8 { KeyCode::F8 }
    else if n == 9 { KeyCode::F9 }
    else if n == 10 { KeyCode::F10 }
    else if n == 11 { KeyCode::F11 }
    else { KeyCode::F12 }
}

/// The key that a normalised (trimmed, upper-case) word names:
/// `0`-`9` and `NUM0`-`NUM9`, the letters, `F1`-`F12`, `ESC`/`ECHAP`/`ESCAPE`,
/// `ENTER`, `SPACE`, `TAB`, `PLUS`/`+`/`PLUS_EQUALS`, `EQUALS`/`=`,
/// `MINUS`/`-` and the four arrows `LEFT`, `RIGHT`, `UP`, `DOWN`.
pub open spec fn key_of_word(w: Seq<char>) -> Option<KeyCode> {
    if w.len() == 1 && is_digit(w[0]) {
        Some(digit_key(w[0]))
    } else if w.len() == 4 && w[0] == 'N' && w[1] == 'U' && w[2] == 'M' && is_digit(w[3]) {
        Some(digit_key(w[3]))
    } else if w.len() == 1 && 'A' <= w[0] && w[0] <= 'Z' {
        Some(letter_key(w[0]))
    } else if w.len() == 2 && w[0] == 'F' && '1' <= w[1] && w[1] <= '9' {
        Some(function_key(w[1] as int - '0' as int))
    } else if w.len() == 3 && w[0] == 'F' && w[1] == '1' && '0' <= w[2] && w[2] <= '2' {
        Some(function_key(10 + (w[2] as int - '0' as int)))
    } else if w == "ESC"@ || w == "ECHAP"@ || w == "ESCAPE"@ {
        Some(KeyCode::Escape)
    } else if w == "ENTER"@ {
        Some(KeyCode::Enter)
    } else if w == "SPACE"@ {
        Some(KeyCode::Space)
    } else if w == "TAB"@ {
        Some(KeyCode::Tab)
    } else if w == "PLUS"@ || w == "+"@ || w == "PLUS_EQUALS"@ {
        Some(KeyCode::Plus)
    } else if w == "EQUALS"@ || w == "="@ {
        Some(KeyCode::Equals)
    } else if w == "MINUS"@ || w == "-"@ {
        Some(KeyCode::Minus)
    } else if w == "LEFT"@ {
        Some(KeyCode::ArrowLeft)
    } else if w == "RIGHT"@ {
        Some(KeyCode::ArrowRight)
    } else if w == "UP"@ {
        Some(KeyCode::ArrowUp)
    } else if w == "DOWN"@ {
        Some(KeyCode::ArrowDown)
    } else {
        None
    }
}

/// The key named by a user-facing label.
pub open spec fn key_from_label_spec(label: Seq<char>) -> Option<KeyCode> {
    key_of_word(normalized(label))
}

fn digit_key_exec(c: char) -> (k: KeyCode)
    ensures
        k == digit_key(c),
{
    if c == '0' { KeyCode::Num0 }
    else if c == '1' { KeyCode::Num1 }
    else if c == '2' { KeyCode::Num2 }
    else if c == '3' { KeyCode::Num3 }
    else if c == '4' { KeyCode::Num4 }
    else if c == '5' { KeyCode::Num5 }
    else if c == '6' { KeyCode::Num6 }
    else if c == '7' { KeyCode::Num7 }
    else if c == '8' { KeyCode::Num8 }
    else { KeyCode::Num9 }
}

fn letter_key_exec(c: char) -> (k: KeyCode)
    ensures
        k == letter_key(c),
{
    if c == 'A' { KeyCode::A }
    else if c == 'B' { KeyCode::B }
    else if c == 'C' { KeyCode::C }
    else if c == 'D' { KeyCode::D }
    else if c == 'E' { KeyCode::E }
    else if c == 'F' { KeyCode::F }
    else if c == 'G' { KeyCode::G }
    else if c == 'H' { KeyCode::H }
    else if c == 'I' { KeyCode::I }
    else if c == 'J' { KeyCode::J }
    else if c == 'K' { KeyCode::K }
    else if c == 'L' { KeyCode::L }
    else if c == 'M' { KeyCode::M }
    else if c == 'N' { KeyCode::N }
    else if c == 'O' { KeyCode::O }
    else if c == 'P' { KeyCode::P }
    else if c == 'Q' { KeyCode::Q }
    else if c == 'R' { KeyCode::R }
    else if c == 'S' { KeyCode::S }
    else if c == 'T' { KeyCode::T }
    else if c == 'U' { KeyCode::U }
    else if c == 'V' { KeyCode::V }
    else if c == 'W' { KeyCode::W }
    else if c == 'X' { KeyCode::X }
    else if c == 'Y' { KeyCode::Y }
    else { KeyCode::Z }
}

fn function_key_exec(n: u32) -> (k: KeyCode)
    ensures
        k == function_key(n as int),
{
    if n == 1 { KeyCode::F1 }
    else if n == 2 { KeyCode::F2 }
    else if n == 3 { KeyCode::F3 }
    else if n == 4 { KeyCode::F4 }
    else if n == 5 { KeyCode::F5 }
    else if n == 6 { KeyCode::F6 }
    else if n == 7 { KeyCode::F7 }
    else if n == 8 { KeyCode::F8 }
    else if n == 9 { KeyCode::F9 }
    else if n == 10 { KeyCode::F10 }
    else if n == 11 { KeyCode::F11 }
    else { KeyCode::F12 }
}

/// Looks up the key named by a normalised word.
pub fn key_of_word_exec(word: &str) -> (k: Option<KeyCode>)
    ensures
        k == key_of_word(word@),
{
    let w = chars_of(word);
    let n = w.len();
    if n == 1 && '0' <= w[0] && w[0] <= '9' {
        Some(digit_key_exec(w[0]))
    } else if n == 4 && w[0] == 'N' && w[1] == 'U' && w[2] == 'M' && '0' <= w[3] && w[3] <= '9' {
        Some(digit_key_exec(w[3]))
    } else if n == 1 && 'A' <= w[0] && w[0] <= 'Z' {
        Some(letter_key_exec(w[0]))
    } else if n == 2 && w[0] == 'F' && '1' <= w[1] && w[1] <= '9' {
        Some(function_key_exec(w[1] as u32 - '0' as u32))
    } else if n == 3 && w[0] == 'F' && w[1] == '1' && '0' <= w[2] && w[2] <= '2' {
        Some(function_key_exec(10 + (w[2] as u32 - '0' as u32)))
    } else if str_eq(word, "ESC") || str_eq(word, "ECHAP") || str_eq(word, "ESCAPE") {
        Some(KeyCode::Escape)
    } else if str_eq(word, "ENTER") {
        Some(KeyCode::Enter)
    } else if str_eq(word, "SPACE") {
        Some(KeyCode::Space)
    } else if str_eq(word, "TAB") {
        Some(KeyCode::Tab)
    } else if str_eq(word, "PLUS") || str_eq(word, "+") || str_eq(word, "PLUS_EQUALS") {
        Some(KeyCode::Plus)
    } else if str_eq(word, "EQUALS") || str_eq(word, "=") {
        Some(KeyCode::Equals)
    } else if str_eq(word, "MINUS") || str_eq(word, "-") {
        Some(KeyCode::Minus)
    } else if str_eq(word, "LEFT") {
        Some(KeyCode::ArrowLeft)
    } else if str_eq(word, "RIGHT") {
        Some(KeyCode::ArrowRight)
    } else if str_eq(word, "UP") {
        Some(KeyCode::ArrowUp)
    } else if str_eq(word, "DOWN") {
        Some(KeyCode::ArrowDown)
    } else {
        None
    }
}

/// Converts a user-facing key label (any case, surrounding spaces allowed)
/// into a key.
pub fn key_from_label(label: &str) -> (k: Option<KeyCode>)
    ensures
        k == key_from_label_spec(label@),
{
    let word = normalize(label);
    key_of_word_exec(word.as_str())
}

/// The mouse button that a normalised word names.
pub open spec fn button_of_word(w: Seq<char>) -> Option<PointerButtonCode> {
    if w == "MOUSELEFT"@ || w == "MOUSEGAUCHE"@ {
        Some(PointerButtonCode::Primary)
    } else if w == "MOUSERIGHT"@ || w == "MOUSEDROIT"@ {
        Some(PointerButtonCode::Secondary)
    } else if w == "MOUSEMIDDLE"@ || w == "MOUSEMILIEU"@ {
        Some(PointerButtonCode::Middle)
    } else if w == "MOUSEEXTRA1"@ {
        Some(PointerButtonCode::Extra1)
    } else if w == "MOUSEEXTRA2"@ {
        Some(PointerButtonCode::Extra2)
    } else {
        None
    }
}

/// Converts a mouse button label into a button.
pub fn mouse_from_label(label: &str) -> (b: Option<PointerButtonCode>)
    ensures
        b == button_of_word(normalized(label@)),
{
    let w = normalize(label);
    let word = w.as_str();
    if str_eq(word, "MOUSELEFT") || str_eq(word, "MOUSEGAUCHE") {
        Some(PointerButtonCode::Primary)
    } else if str_eq(word, "MOUSERIGHT") || str_eq(word, "MOUSEDROIT") {
        Some(PointerButtonCode::Secondary)
    } else if str_eq(word, "MOUSEMIDDLE") || str_eq(word, "MOUSEMILIEU") {
        Some(PointerButtonCode::Middle)
    } else if str_eq(word, "MOUSEEXTRA1") {
        Some(PointerButtonCode::Extra1)
    } else if str_eq(word, "MOUSEEXTRA2") {
        Some(PointerButtonCode::Extra2)
    } else {
        None
    }
}

/// Default CHIP-8 keypad mapping on the keyboard, indexed by CHIP-8 key.
pub open spec fn default_touches_spec() -> Seq<Seq<char>> {
    seq![
        "X"@, "1"@, "2"@, "3"@,
        "Q"@, "W"@, "E"@, "A"@,
        "S"@, "D"@, "Z"@, "C"@,
        "4"@, "R"@, "F"@, "V"@,
    ]
}

/// The labels of a keypad mapping.
pub open spec fn touches_view(t: [String; 16]) -> Seq<Seq<char>> {
    t@.map_values(|s: String| s@)
}

/// Default CHIP-8 keypad mapping on the keyboard.
pub fn default_touches() -> (t: [String; 16])
    ensures
        touches_view(t) == default_touches_spec(),
{
    let t = [
        "X".to_string(), "1".to_string(), "2".to_string(), "3".to_string(),
        "Q".to_string(), "W".to_string(), "E".to_string(), "A".to_string(),
        "S".to_string(), "D".to_string(), "Z".to_string(), "C".to_string(),
        "4".to_string(), "R".to_string(), "F".to_string(), "V".to_string(),
    ];
    assert(touches_view(t) =~= default_touches_spec());
    t
}

/// The pieces of `s` between the occurrences of `sep` (like `str::split`
/// with a character): there is always at least one piece.
pub open spec fn split_on(s: Seq<char>, sep: char) -> Seq<Seq<char>>
    decreases s.len(),
{
    if s.len() == 0 {
        seq![Seq::<char>::empty()]
    } else {
        let rest = split_on(s.drop_last(), sep);
        if s.last() == sep {
            rest.push(Seq::<char>::empty())
        } else {
            rest.update(rest.len() - 1, rest.last().push(s.last()))
        }
    }
}

proof fn lemma_split_nonempty(s: Seq<char>, sep: char)
    ensures
        split_on(s, sep).len() >= 1,
    decreases s.len(),
{
    if s.len() > 0 {
        lemma_split_nonempty(s.drop_last(), sep);
    }
}

/// Splits a string at every occurrence of a separator character.
pub fn split_char(s: &str, sep: char) -> (parts: Vec<String>)
    ensures
        parts@.map_values(|p: String| p@) == split_on(s@, sep),
{
    let chars = chars_of(s);
    let mut parts: Vec<String> = Vec::new();
    let mut current: Vec<char> = Vec::new();
    let mut k: usize = 0;
    while k < chars.len()
        invariant
            chars@ == s@,
            k <= chars@.len(),
            parts@.map_values(|p: String| p@).push(current@) == split_on(s@.take(k as int), sep),
        decreases chars@.len() - k,
    {
        let c = chars[k];
        let ghost before = parts@.map_values(|p: String| p@);
        proof {
            assert(s@.take(k + 1).drop_last() =~= s@.take(k as int));
            lemma_split_nonempty(s@.take(k as int), sep);
        }
        if c == sep {
            let piece = string_of(&current);
            parts.push(piece);
            current = Vec::new();
            assert(parts@.map_values(|p: String| p@) =~= before.push(piece@));
            assert(parts@.map_values(|p: String| p@).push(current@) =~= split_on(
                s@.take(k + 1),
                sep,
            ));
        } else {
            current.push(c);
            assert(parts@.map_values(|p: String| p@) =~= before);
            assert(parts@.map_values(|p: String| p@).push(current@) =~= split_on(
                s@.take(k + 1),
                sep,
            ));
        }
        k = k + 1;
    }
    let piece = string_of(&current);
    let ghost before = parts@.map_values(|p: String| p@);
    parts.push(piece);
    assert(parts@.map_values(|p: String| p@) =~= before.push(piece@));
    assert(s@.take(s@.len() as int) =~= s@);
    parts
}

/// Whether `s` holds two consecutive `+` characters.
pub open spec fn has_double_plus(s: Seq<char>) -> bool {
    exists|i: int| 0 <= i && i + 1 < s.len() && s[i] == '+' && #[trigger] s[i + 1] == '+'
}

/// Checks whether a string holds `++`.
pub fn contains_double_plus(s: &str) -> (yes: bool)
    ensures
        yes == has_double_plus(s@),
{
    let chars = chars_of(s);
    let mut k: usize = 0;
    while k < chars.len() && k + 1 < chars.len()
        invariant
            chars@ == s@,
            k <= chars@.len(),
            forall|i: int| 0 <= i < k && i + 1 < s@.len() ==> !(s@[i] == '+' && #[trigger] s@[i
                + 1] == '+'),
        decreases chars@.len() - k,
    {
        if chars[k] == '+' && chars[k + 1] == '+' {
            return true;
        }
        k = k + 1;
    }
    false
}

/// Parsed shortcut with its modifiers.
#[derive(PartialEq, Eq, Structural, Clone, Copy, Debug)]
pub struct ShortcutSpec {
    pub ctrl: bool,
    pub shift: bool,
    pub alt: bool,
    pub key: KeyCode,
}

/// What the pieces of a shortcut label set: the three modifiers and the last
/// word that is not a modifier.
pub struct ShortcutScan {
    pub ctrl: bool,
    pub shift: bool,
    pub alt: bool,
    pub key_word: Option<Seq<char>>,
}

/// Reads the normalised pieces of a shortcut label from the first to the
/// last: `CTRL`/`CONTROL`, `SHIFT`, `ALT` set their modifier, an empty piece
/// is skipped, and any other piece becomes the key word.
pub open spec fn scan_pieces(pieces: Seq<Seq<char>>) -> ShortcutScan
    decreases pieces.len(),
{
    if pieces.len() == 0 {
        ShortcutScan { ctrl: false, shift: false, alt: false, key_word: None }
    } else {
        let prev = scan_pieces(pieces.drop_last());
        let w = normalized(pieces.last());
        if w == "CTRL"@ || w == "CONTROL"@ {
            ShortcutScan { ctrl: true, ..prev }
        } else if w == "SHIFT"@ {
            ShortcutScan { shift: true, ..prev }
        } else if w == "ALT"@ {
            ShortcutScan { alt: true, ..prev }
        } else if w.len() == 0 {
            prev
        } else {
            ShortcutScan { key_word: Some(w), ..prev }
        }
    }
}

/// The shortcut that a label such as `Ctrl+Shift+F1` stands for. A label made
/// only of `+` signs and modifiers names the `+` key when it is `+` itself or
/// holds `++`.
pub open spec fn parse_shortcut_spec(label: Seq<char>) -> Option<ShortcutSpec> {
    let scan = scan_pieces(split_on(label, '+'));
    let word = match scan.key_word {
        Some(w) => Some(w),
        None => if trimmed(label) == "+"@ || has_double_plus(label) {
            Some("+"@)
        } else {
            None
        },
    };
    match word {
        Some(w) => match key_from_label_spec(w) {
            Some(k) => Some(ShortcutSpec { ctrl: scan.ctrl, shift: scan.shift, alt: scan.alt, key: k }),
            None => None,
        },
        None => None,
    }
}

/// Parses a shortcut label like `Ctrl+Shift+F1`.
pub fn parse_shortcut(label: &str) -> (spec: Option<ShortcutSpec>)
    ensures
        spec == parse_shortcut_spec(label@),
{
    let pieces = split_char(label, '+');
    let ghost pv = pieces@.map_values(|p: String| p@);
    let mut ctrl = false;
    let mut shift = false;
    let mut alt = false;
    let mut key_word: Option<String> = None;
    let mut k: usize = 0;
    while k < pieces.len()
        invariant
            pv == pieces@.map_values(|p: String| p@),
            k <= pieces@.len(),
            ({
                let scan = scan_pieces(pv.take(k as int));
                &&& scan.ctrl == ctrl
                &&& scan.shift == shift
                &&& scan.alt == alt
                &&& scan.key_word == match key_word {
                    Some(w) => Some(w@),
                    None => None,
                }
            }),
        decreases pieces@.len() - k,
    {
        assert(pv.take(k + 1).drop_last() =~= pv.take(k as int));
        assert(pv.take(k + 1).last() == pieces@[k as int]@);
        let w = normalize(pieces[k].as_str());
        let ws = w.as_str();
        if str_eq(ws, "CTRL") || str_eq(ws, "CONTROL") {
            ctrl = true;
        } else if str_eq(ws, "SHIFT") {
            shift = true;
        } else if str_eq(ws, "ALT") {
            alt = true;
        } else if ws.unicode_len() == 0 {
        } else {
            key_word = Some(w);
        }
        k = k + 1;
    }
    assert(pv.take(pieces@.len() as int) =~= pv);
    let word: Option<String> = match key_word {
        Some(w) => Some(w),
        None => {
            if str_eq(trim_str(label), "+") || contains_double_plus(label) {
                Some("+".to_string())
            } else {
                None
            }
        },
    };
    match word {
        Some(w) => match key_from_label(w.as_str()) {
            Some(key) => Some(ShortcutSpec { ctrl, shift, alt, key }),
            None => None,
        },
        None => None,
    }
}

/// Whether a shortcut label is triggered on this frame, given the modifier
/// state (`ctrl` stands for Ctrl or Command) and the keys pressed this frame.
pub open spec fn shortcut_pressed_spec(label: Seq<char>, ctrl: bool, shift: bool, alt: bool, pressed: Seq<KeyCode>) -> bool {
    match parse_shortcut_spec(label) {
        Some(s) => s.ctrl == ctrl && s.shift == shift && s.alt == alt && pressed.contains(s.key),
        None => false,
    }
}

/// Checks whether the input of this frame matches a shortcut label,
/// modifiers included.
pub fn shortcut_pressed(label: &str, ctrl: bool, shift: bool, alt: bool, pressed: &Vec<KeyCode>) -> (hit: bool)
    ensures
        hit == shortcut_pressed_spec(label@, ctrl, shift, alt, pressed@),
{
    let parsed = parse_shortcut(label);
    if parsed.is_none() {
        return false;
    }
    let spec = parsed.unwrap();
    assert(parse_shortcut_spec(label@) == Some(spec));
    if ctrl != spec.ctrl || shift != spec.shift || alt != spec.alt {
        return false;
    }
    let mut k: usize = 0;
    while k < pressed.len()
        invariant
            parse_shortcut_spec(label@) == Some(spec),
            ctrl == spec.ctrl && shift == spec.shift && alt == spec.alt,
            k <= pressed@.len(),
            forall|j: int| 0 <= j < k ==> pressed@[j] != spec.key,
        decreases pressed@.len() - k,
    {
        if pressed[k] == spec.key {
            assert(pressed@[k as int] == spec.key);
            assert(pressed@.contains(spec.key));
            return true;
        }
        k = k + 1;
    }
    false
}

/// The label written for a key when a shortcut is recorded.
pub open spec fn shortcut_key_label_spec(k: KeyCode) -> Seq<char> {
    match k {
        KeyCode::ArrowUp => "Up"@,
        KeyCode::ArrowDown => "Down"@,
        KeyCode::ArrowLeft => "Left"@,
        KeyCode::ArrowRight => "Right"@,
        KeyCode::Escape => "Esc"@,
        KeyCode::Enter => "Enter"@,
        KeyCode::Tab => "Tab"@,
        KeyCode::Space => "Space"@,
        KeyCode::Backspace => "Backspace"@,
        KeyCode::Insert => "Insert"@,
        KeyCode::Delete => "Delete"@,
        KeyCode::Home => "Home"@,
        KeyCode::End => "End"@,
        KeyCode::PageUp => "PageUp"@,
        KeyCode::PageDown => "PageDown"@,
        KeyCode::Minus => "-"@,
        KeyCode::Plus => "+"@,
        KeyCode::Equals => "="@,
        KeyCode::A => "A"@,
        KeyCode::B => "B"@,
        KeyCode::C => "C"@,
        KeyCode::D => "D"@,
        KeyCode::E => "E"@,
        KeyCode::F => "F"@,
        KeyCode::G => "G"@,
        KeyCode::H => "H"@,
        KeyCode::I => "I"@,
        KeyCode::J => "J"@,
        KeyCode::K => "K"@,
        KeyCode::L => "L"@,
        KeyCode::M => "M"@,
        KeyCode::N => "N"@,
        KeyCode::O => "O"@,
        KeyCode::P => "P"@,
        KeyCode::Q => "Q"@,
        KeyCode::R => "R"@,
        KeyCode::S => "S"@,
        KeyCode::T => "T"@,
        KeyCode::U => "U"@,
        KeyCode::V => "V"@,
        KeyCode::W => "W"@,
        KeyCode::X => "X"@,
        KeyCode::Y => "Y"@,
        KeyCode::Z => "Z"@,
        KeyCode::Num0 => "0"@,
        KeyCode::Num1 => "1"@,
        KeyCode::Num2 => "2"@,
        KeyCode::Num3 => "3"@,
        KeyCode::Num4 => "4"@,
        KeyCode::Num5 => "5"@,
        KeyCode::Num6 => "6"@,
        KeyCode::Num7 => "7"@,
        KeyCode::Num8 => "8"@,
        KeyCode::Num9 => "9"@,
        KeyCode::F1 => "F1"@,
        KeyCode::F2 => "F2"@,
        KeyCode::F3 => "F3"@,
        KeyCode::F4 => "F4"@,
        KeyCode::F5 => "F5"@,
        KeyCode::F6 => "F6"@,
        KeyCode::F7 => "F7"@,
        KeyCode::F8 => "F8"@,
        KeyCode::F9 => "F9"@,
        KeyCode::F10 => "F10"@,
        KeyCode::F11 => "F11"@,
        KeyCode::F12 => "F12"@,
        KeyCode::Other => "?"@,
    }
}

/// Converts a key into a human-readable label.
pub fn shortcut_key_label(k: KeyCode) -> (label: &'static str)
    ensures
        label@ == shortcut_key_label_spec(k),
{
    match k {
        KeyCode::ArrowUp => "Up",
        KeyCode::ArrowDown => "Down",
        KeyCode::ArrowLeft => "Left",
        KeyCode::ArrowRight => "Right",
        KeyCode::Escape => "Esc",
        KeyCode::Enter => "Enter",
        KeyCode::Tab => "Tab",
        KeyCode::Space => "Space",
        KeyCode::Backspace => "Backspace",
        KeyCode::Insert => "Insert",
        KeyCode::Delete => "Delete",
        KeyCode::Home => "Home",
        KeyCode::End => "End",
        KeyCode::PageUp => "PageUp",
        KeyCode::PageDown => "PageDown",
        KeyCode::Minus => "-",
        KeyCode::Plus => "+",
        KeyCode::Equals => "=",
        KeyCode::A => "A",
        KeyCode::B => "B",
        KeyCode::C => "C",
        KeyCode::D => "D",
        KeyCode::E => "E",
        KeyCode::F => "F",
        KeyCode::G => "G",
        KeyCode::H => "H",
        KeyCode::I => "I",
        KeyCode::J => "J",
        KeyCode::K => "K",
        KeyCode::L => "L",
        KeyCode::M => "M",
        KeyCode::N => "N",
        KeyCode::O => "O",
        KeyCode::P => "P",
        KeyCode::Q => "Q",
        KeyCode::R => "R",
        KeyCode::S => "S",
        KeyCode::T => "T",
        KeyCode::U => "U",
        KeyCode::V => "V",
        KeyCode::W => "W",
        KeyCode::X => "X",
        KeyCode::Y => "Y",
        KeyCode::Z => "Z",
        KeyCode::Num0 => "0",
        KeyCode::Num1 => "1",
        KeyCode::Num2 => "2",
        KeyCode::Num3 => "3",
        KeyCode::Num4 => "4",
        KeyCode::Num5 => "5",
        KeyCode::Num6 => "6",
        KeyCode::Num7 => "7",
        KeyCode::Num8 => "8",
        KeyCode::Num9 => "9",
        KeyCode::F1 => "F1",
        KeyCode::F2 => "F2",
        KeyCode::F3 => "F3",
        KeyCode::F4 => "F4",
        KeyCode::F5 => "F5",
        KeyCode::F6 => "F6",
        KeyCode::F7 => "F7",
        KeyCode::F8 => "F8",
        KeyCode::F9 => "F9",
        KeyCode::F10 => "F10",
        KeyCode::F11 => "F11",
        KeyCode::F12 => "F12",
        KeyCode::Other => "?",
    }
}

/// The shortcut label recorded for a key press: the held modifiers among
/// Ctrl, Shift and Alt, then the key, joined by `+`.
pub open spec fn format_shortcut_spec(ctrl: bool, shift: bool, alt: bool, k: KeyCode) -> Seq<char> {
    (if ctrl { "Ctrl+"@ } else { Seq::empty() }) + (if shift { "Shift+"@ } else { Seq::empty() })
        + (if alt { "Alt+"@ } else { Seq::empty() }) + shortcut_key_label_spec(k)
}

/// Builds a standardized shortcut label from modifiers and a key.
pub fn format_shortcut(ctrl: bool, shift: bool, alt: bool, k: KeyCode) -> (label: String)
    ensures
        label@ == format_shortcut_spec(ctrl, shift, alt, k),
{
    let mut label = String::new();
    if ctrl {
        push_str(&mut label, "Ctrl+");
    }
    if shift {
        push_str(&mut label, "Shift+");
    }
    if alt {
        push_str(&mut label, "Alt+");
    }
    push_str(&mut label, shortcut_key_label(k));
    assert(label@ =~= format_shortcut_spec(ctrl, shift, alt, k));
    label
}

/// The label stored when a key is bound to a CHIP-8 key: the key's debug
/// name, with a leading `Num` removed.
pub open spec fn binding_label_spec(debug_name: Seq<char>) -> Seq<char> {
    if "Num"@.is_prefix_of(debug_name) {
        debug_name.skip(3)
    } else {
        debug_name
    }
}

/// Builds the binding label of a key from its debug name (`Num1` gives `1`).
pub fn binding_label(debug_name: &str) -> (label: String)
    ensures
        label@ == binding_label_spec(debug_name@),
{
    proof {
        reveal_strlit("Num");
    }
    let chars = chars_of(debug_name);
    let n = chars.len();
    if n >= 3 && chars[0] == 'N' && chars[1] == 'u' && chars[2] == 'm' {
        let mut out = String::new();
        let mut k: usize = 3;
        while k < n
            invariant
                chars@ == debug_name@,
                n == chars@.len(),
                3 <= k <= n,
                out@ == debug_name@.subrange(3, k as int),
            decreases n - k,
        {
            push_char(&mut out, chars[k]);
            k = k + 1;
            assert(out@ =~= debug_name@.subrange(3, k as int));
        }
        assert("Num"@.is_prefix_of(debug_name@));
        out
    } else {
        proof {
            if "Num"@.is_prefix_of(debug_name@) {
                assert(debug_name@[0] == "Num"@[0]);
                assert(debug_name@[1] == "Num"@[1]);
                assert(debug_name@[2] == "Num"@[2]);
            }
        }
        debug_name.to_string()
    }
}

/// The label stored when a mouse button is bound to a CHIP-8 key.
pub open spec fn mouse_binding_label_spec(b: PointerButtonCode) -> Seq<char> {
    match b {
        PointerButtonCode::Primary => "MouseLeft"@,
        PointerButtonCode::Secondary => "MouseRight"@,
        PointerButtonCode::Middle => "MouseMiddle"@,
        PointerButtonCode::Extra1 => "MouseExtra1"@,
        PointerButtonCode::Extra2 => "MouseExtra2"@,
    }
}

/// Builds the binding label of a mouse button.
pub fn mouse_binding_label(b: PointerButtonCode) -> (label: &'static str)
    ensures
        label@ == mouse_binding_label_spec(b),
{
    match b {
        PointerButtonCode::Primary => "MouseLeft",
        PointerButtonCode::Secondary => "MouseRight",
        PointerButtonCode::Middle => "MouseMiddle",
        PointerButtonCode::Extra1 => "MouseExtra1",
        PointerButtonCode::Extra2 => "MouseExtra2",
    }
}

/// Every mouse binding label reads back as its button: the label the
/// Controls tab stores for a button, in any case, names that button again.
pub proof fn lemma_mouse_label_round_trip(b: PointerButtonCode)
    ensures
        button_of_word(normalized(mouse_binding_label_spec(b))) == Some(b),
        button_of_word(normalized(ascii_lower(mouse_binding_label_spec(b)))) == Some(b),
        button_of_word(normalized(ascii_upper(mouse_binding_label_spec(b)))) == Some(b),
{
    reveal_strlit("MOUSELEFT");
    reveal_strlit("MOUSEGAUCHE");
    reveal_strlit("MOUSERIGHT");
    reveal_strlit("MOUSEDROIT");
    reveal_strlit("MOUSEMIDDLE");
    reveal_strlit("MOUSEMILIEU");
    reveal_strlit("MOUSEEXTRA1");
    reveal_strlit("MOUSEEXTRA2");
    reveal_strlit("MouseLeft");
    reveal_strlit("MouseRight");
    reveal_strlit("MouseMiddle");
    reveal_strlit("MouseExtra1");
    reveal_strlit("MouseExtra2");
    let l = mouse_binding_label_spec(b);
    lemma_ascii_label(l);
    lemma_upper_of_lower(l);
    let lo = ascii_lower(l);
    let up = ascii_upper(l);
    assert(plain_label(lo)) by {
        assert forall|i: int| 0 <= i < lo.len() implies (lo[i] as u32) < 128 by {
            assert((l[i] as u32) < 128);
        }
    }
    lemma_ascii_label(lo);
    lemma_ascii_label(up);
    match b {
        PointerButtonCode::Primary => {
            assert(up =~= "MOUSELEFT"@);
            assert(normalized(l) == up);
            assert(normalized(lo) == up);
            assert(normalized(up) == up);
            assert(button_of_word(up) == Some(PointerButtonCode::Primary));
        },
        PointerButtonCode::Secondary => {
            assert(up =~= "MOUSERIGHT"@);
            assert(normalized(l) == up);
            assert(normalized(lo) == up);
            assert(normalized(up) == up);
            assert(button_of_word(up) == Some(PointerButtonCode::Secondary));
        },
        PointerButtonCode::Middle => {
            assert(up =~= "MOUSEMIDDLE"@);
            assert(normalized(l) == up);
            assert(normalized(lo) == up);
            assert(normalized(up) == up);
            assert(up[5] != "MOUSEGAUCHE"@[5]);
            assert(button_of_word(up) == Some(PointerButtonCode::Middle));
        },
        PointerButtonCode::Extra1 => {
            assert(up =~= "MOUSEEXTRA1"@);
            assert(normalized(l) == up);
            assert(normalized(lo) == up);
            assert(normalized(up) == up);
            assert(button_of_word(up) == Some(PointerButtonCode::Extra1));
        },
        PointerButtonCode::Extra2 => {
            assert(up =~= "MOUSEEXTRA2"@);
            assert(normalized(l) == up);
            assert(normalized(lo) == up);
            assert(normalized(up) == up);
            assert(button_of_word(up) == Some(PointerButtonCode::Extra2));
        },
    }
}

/// The keys whose shortcut label the key parser reads back: all but
/// Backspace, Insert, Delete, Home, End, PageUp, PageDown and unnamed keys.
pub open spec fn readable_key(k: KeyCode) -> bool {
    !(k is Backspace || k is Insert || k is Delete || k is Home || k is End || k is PageUp
        || k is PageDown || k is Other)
}

/// The letter keys.
pub open spec fn letter_code(k: KeyCode) -> bool {
    k is A || k is B || k is C || k is D || k is E || k is F || k is G || k is H || k is I || k is J || k is K || k is L || k is M || k is N || k is O || k is P || k is Q || k is R || k is S || k is T || k is U || k is V || k is W || k is X || k is Y || k is Z
}

/// The digit keys.
pub open spec fn digit_code(k: KeyCode) -> bool {
    k is Num0 || k is Num1 || k is Num2 || k is Num3 || k is Num4 || k is Num5 || k is Num6 || k is Num7 || k is Num8 || k is Num9
}

/// The function keys.
pub open spec fn function_code(k: KeyCode) -> bool {
    k is F1 || k is F2 || k is F3 || k is F4 || k is F5 || k is F6 || k is F7 || k is F8 || k is F9 || k is F10 || k is F11 || k is F12
}

/// An ASCII label, not empty, without white space at its ends.
pub open spec fn plain_label(l: Seq<char>) -> bool {
    &&& is_ascii_text(l)
    &&& l.len() > 0
    &&& !is_white_space(l[0])
    &&& !is_white_space(l.last())
}

/// The label holds no `+`.
pub open spec fn no_plus(l: Seq<char>) -> bool {
    forall|i: int| 0 <= i < l.len() ==> l[i] != '+'
}

proof fn lemma_upper_of_lower(l: Seq<char>)
    ensures
        ascii_upper(ascii_lower(l)) == ascii_upper(l),
        ascii_upper(ascii_upper(l)) == ascii_upper(l),
{
    assert forall|i: int| 0 <= i < l.len() implies ascii_upper_char(ascii_lower_char(l[i]))
        == ascii_upper_char(l[i]) by {
        let c = l[i];
        if 'A' <= c && c <= 'Z' {
            assert((((c as u32) + 32) as char) as u32 == (c as u32) + 32);
        }
    }
    assert forall|i: int| 0 <= i < l.len() implies ascii_upper_char(ascii_upper_char(l[i]))
        == ascii_upper_char(l[i]) by {
        let c = l[i];
        if 'a' <= c && c <= 'z' {
            assert((((c as u32) - 32) as char) as u32 == (c as u32) - 32);
        }
    }
    assert(ascii_upper(ascii_lower(l)) =~= ascii_upper(l));
    assert(ascii_upper(ascii_upper(l)) =~= ascii_upper(l));
}

/// An ASCII label without white space at its ends is normalised to its
/// ASCII upper case, and so is its lower-case form; both are read as the key
/// that upper case names.
proof fn lemma_ascii_label(l: Seq<char>)
    requires
        plain_label(l),
    ensures
        normalized(l) == ascii_upper(l),
        key_from_label_spec(l) == key_of_word(ascii_upper(l)),
        key_from_label_spec(ascii_lower(l)) == key_of_word(ascii_upper(l)),
        plain_label(ascii_upper(l)),
        ascii_upper(ascii_upper(l)) == ascii_upper(l),
{
    assert(trim_start_spec(l) == l);
    assert(trim_end_spec(l) == l);
    let lo = ascii_lower(l);
    assert(is_ascii_text(lo)) by {
        assert forall|i: int| 0 <= i < lo.len() implies (lo[i] as u32) < 128 by {
            assert((l[i] as u32) < 128);
        }
    }
    assert(!is_white_space(lo[0]));
    assert(!is_white_space(lo.last()));
    assert(trim_start_spec(lo) == lo);
    assert(trim_end_spec(lo) == lo);
    let up = ascii_upper(l);
    assert(is_ascii_text(up)) by {
        assert forall|i: int| 0 <= i < up.len() implies (up[i] as u32) < 128 by {
            assert((l[i] as u32) < 128);
        }
    }
    assert(!is_white_space(up[0]));
    assert(!is_white_space(up.last()));
    lemma_upper_of_lower(l);
}

proof fn lemma_special_key_label(k: KeyCode)
    requires
        k is ArrowUp || k is ArrowDown || k is ArrowLeft || k is ArrowRight || k is Escape
            || k is Enter || k is Tab || k is Space || k is Minus || k is Plus || k is Equals,
    ensures
        plain_label(shortcut_key_label_spec(k)),
        k != KeyCode::Plus ==> no_plus(shortcut_key_label_spec(k)),
        key_from_label_spec(shortcut_key_label_spec(k)) == Some(k),
        key_from_label_spec(ascii_lower(shortcut_key_label_spec(k))) == Some(k),
{

    reveal_strlit("ESC");
    reveal_strlit("ECHAP");
    reveal_strlit("ESCAPE");
    reveal_strlit("ENTER");
    reveal_strlit("SPACE");
    reveal_strlit("TAB");
    reveal_strlit("PLUS");
    reveal_strlit("+");
    reveal_strlit("PLUS_EQUALS");
    reveal_strlit("EQUALS");
    reveal_strlit("=");
    reveal_strlit("MINUS");
    reveal_strlit("-");
    reveal_strlit("LEFT");
    reveal_strlit("RIGHT");
    reveal_strlit("UP");
    reveal_strlit("DOWN");
    match k {
        KeyCode::ArrowUp => {
            reveal_strlit("Up");
            lemma_ascii_label("Up"@);
            assert(ascii_upper("Up"@) =~= "UP"@);
        },
        KeyCode::ArrowDown => {
            reveal_strlit("Down");
            lemma_ascii_label("Down"@);
            assert(ascii_upper("Down"@) =~= "DOWN"@);
        },
        KeyCode::ArrowLeft => {
            reveal_strlit("Left");
            lemma_ascii_label("Left"@);
            assert(ascii_upper("Left"@) =~= "LEFT"@);
        },
        KeyCode::ArrowRight => {
            reveal_strlit("Right");
            lemma_ascii_label("Right"@);
            assert(ascii_upper("Right"@) =~= "RIGHT"@);
        },
        KeyCode::Escape => {
            reveal_strlit("Esc");
            lemma_ascii_label("Esc"@);
            assert(ascii_upper("Esc"@) =~= "ESC"@);
        },
        KeyCode::Enter => {
            reveal_strlit("Enter");
            lemma_ascii_label("Enter"@);
            assert(ascii_upper("Enter"@) =~= "ENTER"@);
        },
        KeyCode::Tab => {
            reveal_strlit("Tab");
            lemma_ascii_label("Tab"@);
            assert(ascii_upper("Tab"@) =~= "TAB"@);
        },
        KeyCode::Space => {
            reveal_strlit("Space");
            lemma_ascii_label("Space"@);
            assert(ascii_upper("Space"@) =~= "SPACE"@);
        },
        KeyCode::Minus => {
            reveal_strlit("-");
            lemma_ascii_label("-"@);
            assert(ascii_upper("-"@) =~= "-"@);
        },
        KeyCode::Plus => {
            reveal_strlit("+");
            lemma_ascii_label("+"@);
            assert(ascii_upper("+"@) =~= "+"@);
        },
        KeyCode::Equals => {
            reveal_strlit("=");
            lemma_ascii_label("="@);
            assert(ascii_upper("="@) =~= "="@);
        },
        _ => {},
    }
}

proof fn lemma_letter_key_label(k: KeyCode)
    requires
        letter_code(k),
    ensures
        plain_label(shortcut_key_label_spec(k)),
        k != KeyCode::Plus ==> no_plus(shortcut_key_label_spec(k)),
        key_from_label_spec(shortcut_key_label_spec(k)) == Some(k),
        key_from_label_spec(ascii_lower(shortcut_key_label_spec(k))) == Some(k),
{
    match k {
        KeyCode::A => {
            reveal_strlit("A");
            lemma_ascii_label("A"@);
        },
        KeyCode::B => {
            reveal_strlit("B");
            lemma_ascii_label("B"@);
        },
        KeyCode::C => {
            reveal_strlit("C");
            lemma_ascii_label("C"@);
        },
        KeyCode::D => {
            reveal_strlit("D");
            lemma_ascii_label("D"@);
        },
        KeyCode::E => {
            reveal_strlit("E");
            lemma_ascii_label("E"@);
        },
        KeyCode::F => {
            reveal_strlit("F");
            lemma_ascii_label("F"@);
        },
        KeyCode::G => {
            reveal_strlit("G");
            lemma_ascii_label("G"@);
        },
        KeyCode::H => {
            reveal_strlit("H");
            lemma_ascii_label("H"@);
        },
        KeyCode::I => {
            reveal_strlit("I");
            lemma_ascii_label("I"@);
        },
        KeyCode::J => {
            reveal_strlit("J");
            lemma_ascii_label("J"@);
        },
        KeyCode::K => {
            reveal_strlit("K");
            lemma_ascii_label("K"@);
        },
        KeyCode::L => {
            reveal_strlit("L");
            lemma_ascii_label("L"@);
        },
        KeyCode::M => {
            reveal_strlit("M");
            lemma_ascii_label("M"@);
        },
        KeyCode::N => {
            reveal_strlit("N");
            lemma_ascii_label("N"@);
        },
        KeyCode::O => {
            reveal_strlit("O");
            lemma_ascii_label("O"@);
        },
        KeyCode::P => {
            reveal_strlit("P");
            lemma_ascii_label("P"@);
        },
        KeyCode::Q => {
            reveal_strlit("Q");
            lemma_ascii_label("Q"@);
        },
        KeyCode::R => {
            reveal_strlit("R");
            lemma_ascii_label("R"@);
        },
        KeyCode::S => {
            reveal_strlit("S");
            lemma_ascii_label("S"@);
        },
        KeyCode::T => {
            reveal_strlit("T");
            lemma_ascii_label("T"@);
        },
        KeyCode::U => {
            reveal_strlit("U");
            lemma_ascii_label("U"@);
        },
        KeyCode::V => {
            reveal_strlit("V");
            lemma_ascii_label("V"@);
        },
        KeyCode::W => {
            reveal_strlit("W");
            lemma_ascii_label("W"@);
        },
        KeyCode::X => {
            reveal_strlit("X");
            lemma_ascii_label("X"@);
        },
        KeyCode::Y => {
            reveal_strlit("Y");
            lemma_ascii_label("Y"@);
        },
        KeyCode::Z => {
            reveal_strlit("Z");
            lemma_ascii_label("Z"@);
        },
        _ => {},
    }
}

proof fn lemma_digit_key_label(k: KeyCode)
    requires
        digit_code(k),
    ensures
        plain_label(shortcut_key_label_spec(k)),
        k != KeyCode::Plus ==> no_plus(shortcut_key_label_spec(k)),
        key_from_label_spec(shortcut_key_label_spec(k)) == Some(k),
        key_from_label_spec(ascii_lower(shortcut_key_label_spec(k))) == Some(k),
{
    match k {
        KeyCode::Num0 => {
            reveal_strlit("0");
            lemma_ascii_label("0"@);
        },
        KeyCode::Num1 => {
            reveal_strlit("1");
            lemma_ascii_label("1"@);
        },
        KeyCode::Num2 => {
            reveal_strlit("2");
            lemma_ascii_label("2"@);
        },
        KeyCode::Num3 => {
            reveal_strlit("3");
            lemma_ascii_label("3"@);
        },
        KeyCode::Num4 => {
            reveal_strlit("4");
            lemma_ascii_label("4"@);
        },
        KeyCode::Num5 => {
            reveal_strlit("5");
            lemma_ascii_label("5"@);
        },
        KeyCode::Num6 => {
            reveal_strlit("6");
            lemma_ascii_label("6"@);
        },
        KeyCode::Num7 => {
            reveal_strlit("7");
            lemma_ascii_label("7"@);
        },
        KeyCode::Num8 => {
            reveal_strlit("8");
            lemma_ascii_label("8"@);
        },
        KeyCode::Num9 => {
            reveal_strlit("9");
            lemma_ascii_label("9"@);
        },
        _ => {},
    }
}

proof fn lemma_function_key_label(k: KeyCode)
    requires
        function_code(k),
    ensures
        plain_label(shortcut_key_label_spec(k)),
        k != KeyCode::Plus ==> no_plus(shortcut_key_label_spec(k)),
        key_from_label_spec(shortcut_key_label_spec(k)) == Some(k),
        key_from_label_spec(ascii_lower(shortcut_key_label_spec(k))) == Some(k),
{
    match k {
        KeyCode::F1 => {
            reveal_strlit("F1");
            lemma_ascii_label("F1"@);
        },
        KeyCode::F2 => {
            reveal_strlit("F2");
            lemma_ascii_label("F2"@);
        },
        KeyCode::F3 => {
            reveal_strlit("F3");
            lemma_ascii_label("F3"@);
        },
        KeyCode::F4 => {
            reveal_strlit("F4");
            lemma_ascii_label("F4"@);
        },
        KeyCode::F5 => {
            reveal_strlit("F5");
            lemma_ascii_label("F5"@);
        },
        KeyCode::F6 => {
            reveal_strlit("F6");
            lemma_ascii_label("F6"@);
        },
        KeyCode::F7 => {
            reveal_strlit("F7");
            lemma_ascii_label("F7"@);
        },
        KeyCode::F8 => {
            reveal_strlit("F8");
            lemma_ascii_label("F8"@);
        },
        KeyCode::F9 => {
            reveal_strlit("F9");
            lemma_ascii_label("F9"@);
        },
        KeyCode::F10 => {
            reveal_strlit("F10");
            lemma_ascii_label("F10"@);
        },
        KeyCode::F11 => {
            reveal_strlit("F11");
            lemma_ascii_label("F11"@);
        },
        KeyCode::F12 => {
            reveal_strlit("F12");
            lemma_ascii_label("F12"@);
        },
        _ => {},
    }
}

proof fn lemma_key_label_facts(k: KeyCode)
    requires
        readable_key(k),
    ensures
        plain_label(shortcut_key_label_spec(k)),
        k != KeyCode::Plus ==> no_plus(shortcut_key_label_spec(k)),
        key_from_label_spec(shortcut_key_label_spec(k)) == Some(k),
        key_from_label_spec(ascii_lower(shortcut_key_label_spec(k))) == Some(k),
{
    if letter_code(k) {
        lemma_letter_key_label(k);
    } else if digit_code(k) {
        lemma_digit_key_label(k);
    } else if function_code(k) {
        lemma_function_key_label(k);
    } else {
        lemma_special_key_label(k);
    }
}

/// A key label written by the shortcut editor reads back as the same key,
/// in any letter case, for every key the parser knows.
pub proof fn lemma_key_label_round_trip(k: KeyCode)
    requires
        readable_key(k),
    ensures
        key_from_label_spec(shortcut_key_label_spec(k)) == Some(k),
        key_from_label_spec(ascii_lower(shortcut_key_label_spec(k))) == Some(k),
{
    lemma_key_label_facts(k);
}

proof fn lemma_split_single(a: Seq<char>, sep: char)
    requires
        forall|i: int| 0 <= i < a.len() ==> a[i] != sep,
    ensures
        split_on(a, sep) == seq![a],
    decreases a.len(),
{
    if a.len() > 0 {
        lemma_split_single(a.drop_last(), sep);
        assert(a.drop_last().push(a.last()) =~= a);
        assert(seq![a.drop_last()].update(0, a.drop_last().push(a.last())) =~= seq![a]);
    } else {
        assert(a =~= Seq::<char>::empty());
    }
}

proof fn lemma_split_concat(a: Seq<char>, b: Seq<char>, sep: char)
    ensures
        split_on(a + seq![sep] + b, sep) == split_on(a, sep) + split_on(b, sep),
    decreases b.len(),
{
    let s = a + seq![sep] + b;
    lemma_split_nonempty(a, sep);
    if b.len() == 0 {
        assert(s.drop_last() =~= a);
        assert(split_on(a, sep).push(Seq::<char>::empty()) =~= split_on(a, sep) + split_on(b, sep));
    } else {
        let bd = b.drop_last();
        lemma_split_concat(a, bd, sep);
        assert(s.drop_last() =~= a + seq![sep] + bd);
        lemma_split_nonempty(bd, sep);
        let ra = split_on(a, sep);
        let rb = split_on(bd, sep);
        if b.last() == sep {
            assert((ra + rb).push(Seq::<char>::empty()) =~= ra + rb.push(Seq::<char>::empty()));
        } else {
            let c = b.last();
            assert((ra + rb).update((ra + rb).len() - 1, (ra + rb).last().push(c)) =~= ra + rb.update(
                rb.len() - 1,
                rb.last().push(c),
            ));
        }
    }
}

/// The modifier words that a recorded shortcut starts with.
pub open spec fn modifier_pieces(ctrl: bool, shift: bool, alt: bool) -> Seq<Seq<char>> {
    (if ctrl { seq!["Ctrl"@] } else { Seq::empty() }) + (if shift { seq!["Shift"@] } else { Seq::empty() })
        + (if alt { seq!["Alt"@] } else { Seq::empty() })
}

proof fn lemma_split_modifier(on: bool, word: Seq<char>, text: Seq<char>, rest: Seq<char>)
    requires
        no_plus(word),
        text == word + seq!['+'],
    ensures
        split_on((if on { text } else { Seq::empty() }) + rest, '+') == (if on { seq![word] } else {
            Seq::empty()
        }) + split_on(rest, '+'),
{
    if on {
        assert(text + rest =~= word + seq!['+'] + rest);
        lemma_split_concat(word, rest, '+');
        lemma_split_single(word, '+');
    } else {
        assert(Seq::<char>::empty() + rest =~= rest);
        assert(Seq::<Seq<char>>::empty() + split_on(rest, '+') =~= split_on(rest, '+'));
    }
}

proof fn lemma_split_format(ctrl: bool, shift: bool, alt: bool, l: Seq<char>)
    ensures
        split_on(format_label(ctrl, shift, alt, l), '+') == modifier_pieces(ctrl, shift, alt) + split_on(l, '+'),
{
    reveal_strlit("Ctrl+");
    reveal_strlit("Ctrl");
    reveal_strlit("Shift+");
    reveal_strlit("Shift");
    reveal_strlit("Alt+");
    reveal_strlit("Alt");
    let c = if ctrl { "Ctrl+"@ } else { Seq::<char>::empty() };
    let s = if shift { "Shift+"@ } else { Seq::<char>::empty() };
    let a = if alt { "Alt+"@ } else { Seq::<char>::empty() };
    assert("Ctrl+"@ =~= "Ctrl"@ + seq!['+']);
    assert("Shift+"@ =~= "Shift"@ + seq!['+']);
    assert("Alt+"@ =~= "Alt"@ + seq!['+']);
    lemma_split_modifier(alt, "Alt"@, "Alt+"@, l);
    lemma_split_modifier(shift, "Shift"@, "Shift+"@, a + l);
    lemma_split_modifier(ctrl, "Ctrl"@, "Ctrl+"@, s + (a + l));
    assert(format_label(ctrl, shift, alt, l) =~= c + (s + (a + l)));
    let mc = if ctrl { seq!["Ctrl"@] } else { Seq::<Seq<char>>::empty() };
    let ms = if shift { seq!["Shift"@] } else { Seq::<Seq<char>>::empty() };
    let ma = if alt { seq!["Alt"@] } else { Seq::<Seq<char>>::empty() };
    assert(mc + (ms + (ma + split_on(l, '+'))) =~= modifier_pieces(ctrl, shift, alt) + split_on(l, '+'));
}

/// A recorded shortcut label: the held modifiers, then the key label.
pub open spec fn format_label(ctrl: bool, shift: bool, alt: bool, l: Seq<char>) -> Seq<char> {
    (if ctrl { "Ctrl+"@ } else { Seq::empty() }) + (if shift { "Shift+"@ } else { Seq::empty() })
        + (if alt { "Alt+"@ } else { Seq::empty() }) + l
}

proof fn lemma_modifier_words()
    ensures
        normalized("Ctrl"@) == "CTRL"@,
        normalized("Shift"@) == "SHIFT"@,
        normalized("Alt"@) == "ALT"@,
        "CTRL"@ != "CONTROL"@,
        "SHIFT"@ != "CTRL"@ && "SHIFT"@ != "CONTROL"@,
        "ALT"@ != "CTRL"@ && "ALT"@ != "CONTROL"@ && "ALT"@ != "SHIFT"@,
        "CTRL"@.len() > 0 && "CONTROL"@.len() > 0 && "SHIFT"@.len() > 0 && "ALT"@.len() > 0,
        key_of_word("CTRL"@) is None,
        key_of_word("CONTROL"@) is None,
        key_of_word("SHIFT"@) is None,
        key_of_word("ALT"@) is None,
{
    reveal_strlit("Ctrl");
    reveal_strlit("Shift");
    reveal_strlit("Alt");
    reveal_strlit("CTRL");
    reveal_strlit("CONTROL");
    reveal_strlit("SHIFT");
    reveal_strlit("ALT");
    reveal_strlit("ESC");
    reveal_strlit("ECHAP");
    reveal_strlit("ESCAPE");
    reveal_strlit("ENTER");
    reveal_strlit("SPACE");
    reveal_strlit("TAB");
    reveal_strlit("PLUS");
    reveal_strlit("+");
    reveal_strlit("PLUS_EQUALS");
    reveal_strlit("EQUALS");
    reveal_strlit("=");
    reveal_strlit("MINUS");
    reveal_strlit("-");
    reveal_strlit("LEFT");
    reveal_strlit("RIGHT");
    reveal_strlit("UP");
    reveal_strlit("DOWN");
    lemma_ascii_label("Ctrl"@);
    lemma_ascii_label("Shift"@);
    lemma_ascii_label("Alt"@);
    assert(ascii_upper("Ctrl"@) =~= "CTRL"@);
    assert(ascii_upper("Shift"@) =~= "SHIFT"@);
    assert(ascii_upper("Alt"@) =~= "ALT"@);
    assert("CTRL"@[0] != "CONTROL"@[1]);
    assert("SHIFT"@[0] != "CTRL"@[0]);
}

proof fn lemma_scan_modifiers(ctrl: bool, shift: bool, alt: bool)
    ensures
        scan_pieces(modifier_pieces(ctrl, shift, alt)) == (ShortcutScan {
            ctrl: ctrl,
            shift: shift,
            alt: alt,
            key_word: None,
        }),
{
    lemma_modifier_words();
    let e = Seq::<Seq<char>>::empty();
    let m1 = if ctrl { e.push("Ctrl"@) } else { e };
    let m2 = if shift { m1.push("Shift"@) } else { m1 };
    let m3 = if alt { m2.push("Alt"@) } else { m2 };
    assert(modifier_pieces(ctrl, shift, alt) =~= m3);
    assert(scan_pieces(e) == ShortcutScan { ctrl: false, shift: false, alt: false, key_word: None });
    if ctrl {
        assert(m1.drop_last() =~= e);
        assert(m1.last() == "Ctrl"@);
    }
    assert(scan_pieces(m1) == ShortcutScan { ctrl: ctrl, shift: false, alt: false, key_word: None });
    if shift {
        assert(m2.drop_last() =~= m1);
        assert(m2.last() == "Shift"@);
    }
    assert(scan_pieces(m2) == ShortcutScan { ctrl: ctrl, shift: shift, alt: false, key_word: None });
    if alt {
        assert(m3.drop_last() =~= m2);
        assert(m3.last() == "Alt"@);
    }
}

proof fn lemma_round_trip_plain(ctrl: bool, shift: bool, alt: bool, k: KeyCode)
    requires
        readable_key(k),
        k != KeyCode::Plus,
    ensures
        parse_shortcut_spec(format_shortcut_spec(ctrl, shift, alt, k)) == Some(
            ShortcutSpec { ctrl: ctrl, shift: shift, alt: alt, key: k },
        ),
{
    let l = shortcut_key_label_spec(k);
    lemma_key_label_facts(k);
    let label = format_shortcut_spec(ctrl, shift, alt, k);
    assert(label == format_label(ctrl, shift, alt, l));
    lemma_split_format(ctrl, shift, alt, l);
    let p = modifier_pieces(ctrl, shift, alt);
    lemma_scan_modifiers(ctrl, shift, alt);
    lemma_modifier_words();
    lemma_ascii_label(l);
    lemma_split_single(l, '+');
    let pieces = p + seq![l];
    assert(pieces.drop_last() =~= p);
    assert(pieces.last() == l);
    let w = ascii_upper(l);
    lemma_ascii_label(w);
    assert(scan_pieces(pieces) == ShortcutScan { ctrl: ctrl, shift: shift, alt: alt, key_word: Some(w) });
}

proof fn lemma_round_trip_plus(ctrl: bool, shift: bool, alt: bool)
    ensures
        parse_shortcut_spec(format_shortcut_spec(ctrl, shift, alt, KeyCode::Plus)) == Some(
            ShortcutSpec { ctrl: ctrl, shift: shift, alt: alt, key: KeyCode::Plus },
        ),
{
    let k = KeyCode::Plus;
    let l = shortcut_key_label_spec(k);
    lemma_key_label_facts(k);
    let label = format_shortcut_spec(ctrl, shift, alt, k);
    assert(label == format_label(ctrl, shift, alt, l));
    lemma_split_format(ctrl, shift, alt, l);
    let p = modifier_pieces(ctrl, shift, alt);
    lemma_scan_modifiers(ctrl, shift, alt);
    lemma_modifier_words();
    reveal_strlit("+");
    let e = Seq::<char>::empty();
    assert(l =~= seq!['+']);
    assert(l.drop_last() =~= e);
    assert(split_on(e, '+') == seq![e]);
    assert(split_on(l, '+') =~= seq![e, e]);
    let pieces = p + seq![e, e];
    assert(pieces.drop_last() =~= p.push(e));
    assert(p.push(e).drop_last() =~= p);
    assert(trim_start_spec(e) == e);
    assert(trim_end_spec(e) == e);
    assert(normalized(e) =~= e);
    assert(scan_pieces(p.push(e)) == scan_pieces(p));
    assert(scan_pieces(pieces) == scan_pieces(p));
    reveal_strlit("Ctrl+");
    reveal_strlit("Shift+");
    reveal_strlit("Alt+");
    let c = if ctrl { "Ctrl+"@ } else { e };
    let s = if shift { "Shift+"@ } else { e };
    let a = if alt { "Alt+"@ } else { e };
    let m = c + s + a;
    assert(label =~= m + seq!['+']);
    if ctrl || shift || alt {
        if alt {
            assert(m.last() == '+');
        } else if shift {
            assert(m =~= c + s);
            assert(m.last() == '+');
        } else {
            assert(m =~= c);
            assert(m.last() == '+');
        }
        let n = label.len() as int;
        assert(label[n - 1] == '+');
        assert(label[n - 2] == '+' && label[(n - 2) + 1] == '+');
        assert(has_double_plus(label));
    } else {
        assert(label =~= l);
        assert(trim_start_spec(l) == l);
        assert(trim_end_spec(l) == l);
        assert(trimmed(label) == "+"@);
    }
}

/// A shortcut recorded in the Shortcuts tab reads back as the same
/// modifiers and key, for every key the parser knows (`Ctrl+Plus`, written
/// `Ctrl++`, included).
pub proof fn lemma_shortcut_round_trip(ctrl: bool, shift: bool, alt: bool, k: KeyCode)
    requires
        readable_key(k),
    ensures
        parse_shortcut_spec(format_shortcut_spec(ctrl, shift, alt, k)) == Some(
            ShortcutSpec { ctrl: ctrl, shift: shift, alt: alt, key: k },
        ),
{
    if k == KeyCode::Plus {
        lemma_round_trip_plus(ctrl, shift, alt);
    } else {
        lemma_round_trip_plain(ctrl, shift, alt, k);
    }
}

} // verus!
