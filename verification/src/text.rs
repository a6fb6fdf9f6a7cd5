//! Small text utilities: character-level building of strings, number
//! formatting, and the label helpers of the menu bar.

use vstd::prelude::*;
use vstd::string::*;

verus! {

/// Appends one character to a string (std `String::push`).
#[verifier::external_body]
pub(crate) fn push_char(s: &mut String, c: char)
    ensures
        final(s)@ == old(s)@.push(c),
{
    s.push(c);
}

/// Whether two string slices hold the same characters.
pub(crate) fn str_eq(a: &str, b: &str) -> (same: bool)
    ensures
        same == (a@ == b@),
{
    let n = a.unicode_len();
    if n != b.unicode_len() {
        return false;
    }
    let mut i: usize = 0;
    while i < n
        invariant
            n == a@.len(),
            n == b@.len(),
            i <= n,
            forall|j: int| 0 <= j < i ==> a@[j] == b@[j],
        decreases n - i,
    {
        if a.get_char(i) != b.get_char(i) {
            return false;
        }
        i = i + 1;
    }
    assert(a@ =~= b@);
    true
}

/// The characters of a string slice.
pub fn chars_of(s: &str) -> (v: Vec<char>)
    ensures
        v@ == s@,
{
    let n = s.unicode_len();
    let mut v: Vec<char> = Vec::new();
    let mut i: usize = 0;
    while i < n
        invariant
            n == s@.len(),
            i <= n,
            v@ == s@.take(i as int),
        decreases n - i,
    {
        let c = s.get_char(i);
        v.push(c);
        i = i + 1;
        assert(v@ =~= s@.take(i as int));
    }
    assert(s@.take(n as int) =~= s@);
    v
}

/// Appends characters to a string.
pub fn push_chars(s: &mut String, chars: &Vec<char>)
    ensures
        final(s)@ == old(s)@ + chars@,
{
    let mut i: usize = 0;
    while i < chars.len()
        invariant
            i <= chars@.len(),
            s@ == old(s)@ + chars@.take(i as int),
        decreases chars@.len() - i,
    {
        push_char(s, chars[i]);
        i = i + 1;
        assert(s@ =~= old(s)@ + chars@.take(i as int));
    }
    assert(chars@.take(chars@.len() as int) =~= chars@);
}

/// A string holding the given characters.
pub fn string_of(chars: &Vec<char>) -> (s: String)
    ensures
        s@ == chars@,
{
    let mut s = String::new();
    push_chars(&mut s, chars);
    assert(s@ =~= chars@);
    s
}

/// Appends a string slice to a string.
pub fn push_str(s: &mut String, tail: &str)
    ensures
        final(s)@ == old(s)@ + tail@,
{
    s.append(tail);
}

/// The text with each regular space replaced by a non-breaking space.
pub open spec fn nbsp_spaces(s: Seq<char>) -> Seq<char> {
    s.map_values(|c: char| if c == ' ' { '\u{00A0}' } else { c })
}

/// Replaces regular spaces with non-breaking spaces so that menu labels do
/// not wrap.
pub fn nw(text: &str) -> (out: String)
    ensures
        out@ == nbsp_spaces(text@),
{
    let chars = chars_of(text);
    let mut out = String::new();
    let mut i: usize = 0;
    while i < chars.len()
        invariant
            chars@ == text@,
            i <= chars@.len(),
            out@ == nbsp_spaces(text@.take(i as int)),
        decreases chars@.len() - i,
    {
        let c = chars[i];
        if c == ' ' {
            push_char(&mut out, '\u{00A0}');
        } else {
            push_char(&mut out, c);
        }
        i = i + 1;
        assert(out@ =~= nbsp_spaces(text@.take(i as int)));
    }
    assert(text@.take(text@.len() as int) =~= text@);
    out
}

/// A menu label followed by its shortcut in parentheses, when there is one.
pub open spec fn with_shortcut_spec(label: Seq<char>, shortcut: Seq<char>) -> Seq<char> {
    if shortcut.len() == 0 {
        label
    } else {
        label + " ("@ + shortcut + ")"@
    }
}

/// Builds a label with an optional shortcut hint: `label (shortcut)`.
pub fn with_shortcut(label: &str, shortcut: &str) -> (out: String)
    ensures
        out@ == with_shortcut_spec(label@, shortcut@),
{
    let mut out = label.to_string();
    if shortcut.unicode_len() == 0 {
        out
    } else {
        push_str(&mut out, " (");
        push_str(&mut out, shortcut);
        push_str(&mut out, ")");
        out
    }
}

/// The probe label used to size the save-state menus: the slot text and the
/// shortcut separated by two spaces.
pub open spec fn slot_width_label_spec(left: Seq<char>, right: Seq<char>) -> Seq<char> {
    if right.len() == 0 {
        left
    } else {
        left + "  "@ + right
    }
}

/// Builds a width probe label for menu sizing.
pub fn slot_width_label(left: &str, right: &str) -> (out: String)
    ensures
        out@ == slot_width_label_spec(left@, right@),
{
    let mut out = left.to_string();
    if right.unicode_len() == 0 {
        out
    } else {
        push_str(&mut out, "  ");
        push_str(&mut out, right);
        out
    }
}

/// The character of a digit in base 16 (`d < 16`), in lower or upper case.
pub open spec fn digit_char(d: nat, upper: bool) -> char {
    if d < 10 {
        ((48 + d) as u8) as char
    } else if upper {
        ((55 + d) as u8) as char
    } else {
        ((87 + d) as u8) as char
    }
}

/// The decimal writing of `n`, without leading zeros.
pub open spec fn decimal(n: nat) -> Seq<char>
    decreases n,
{
    if n < 10 {
        seq![digit_char(n, false)]
    } else {
        decimal(n / 10).push(digit_char(n % 10, false))
    }
}

/// `s` with zeros added on its left up to `width` characters.
pub open spec fn zero_pad(s: Seq<char>, width: nat) -> Seq<char> {
    if s.len() >= width {
        s
    } else {
        Seq::new((width - s.len()) as nat, |i: int| '0') + s
    }
}

/// The last `width` base-16 digits of `n`, most significant first.
pub open spec fn hex_fixed(n: nat, width: nat, upper: bool) -> Seq<char>
    decreases width,
{
    if width == 0 {
        Seq::empty()
    } else {
        hex_fixed(n / 16, (width - 1) as nat, upper).push(digit_char(n % 16, upper))
    }
}

/// The base-16 writing of `n`, without leading zeros.
pub open spec fn hex(n: nat, upper: bool) -> Seq<char>
    decreases n,
{
    if n < 16 {
        seq![digit_char(n, upper)]
    } else {
        hex(n / 16, upper).push(digit_char(n % 16, upper))
    }
}

fn digit(d: u64, upper: bool) -> (c: char)
    requires
        d < 16,
    ensures
        c == digit_char(d as nat, upper),
{
    if d < 10 {
        ((48 + d) as u8) as char
    } else if upper {
        ((55 + d) as u8) as char
    } else {
        ((87 + d) as u8) as char
    }
}

/// Appends the decimal writing of `n`.
pub fn push_decimal(s: &mut String, n: u64)
    ensures
        final(s)@ == old(s)@ + decimal(n as nat),
    decreases n,
{
    if n < 10 {
        push_char(s, digit(n, false));
        assert(s@ =~= old(s)@ + decimal(n as nat));
    } else {
        push_decimal(s, n / 10);
        push_char(s, digit(n % 10, false));
        assert(s@ =~= old(s)@ + decimal(n as nat));
    }
}

/// Appends the decimal writing of `n`, zero-padded to `width` characters.
pub fn push_decimal_padded(s: &mut String, n: u64, width: usize)
    ensures
        final(s)@ == old(s)@ + zero_pad(decimal(n as nat), width as nat),
{
    let mut digits = String::new();
    push_decimal(&mut digits, n);
    assert(digits@ == decimal(n as nat));
    let len = digits.as_str().unicode_len();
    let mut k: usize = len;
    let ghost start = s@;
    while k < width
        invariant
            len == decimal(n as nat).len(),
            len <= k <= width || (len > width && k == len),
            s@ == start + Seq::new((k - len) as nat, |i: int| '0'),
        decreases width - k,
    {
        push_char(s, '0');
        k = k + 1;
        assert(s@ =~= start + Seq::new((k - len) as nat, |i: int| '0'));
    }
    push_str(s, digits.as_str());
    assert(s@ =~= old(s)@ + zero_pad(decimal(n as nat), width as nat));
}

/// Appends the last `width` base-16 digits of `n`.
pub fn push_hex_fixed(s: &mut String, n: u64, width: usize, upper: bool)
    ensures
        final(s)@ == old(s)@ + hex_fixed(n as nat, width as nat, upper),
    decreases width,
{
    if width > 0 {
        push_hex_fixed(s, n / 16, width - 1, upper);
        push_char(s, digit(n % 16, upper));
        assert(s@ =~= old(s)@ + hex_fixed(n as nat, width as nat, upper));
    } else {
        assert(s@ =~= old(s)@ + hex_fixed(n as nat, width as nat, upper));
    }
}

/// Appends the base-16 writing of `n`, without leading zeros.
pub fn push_hex(s: &mut String, n: u64, upper: bool)
    ensures
        final(s)@ == old(s)@ + hex(n as nat, upper),
    decreases n,
{
    if n < 16 {
        push_char(s, digit(n, upper));
        assert(s@ =~= old(s)@ + hex(n as nat, upper));
    } else {
        push_hex(s, n / 16, upper);
        push_char(s, digit(n % 16, upper));
        assert(s@ =~= old(s)@ + hex(n as nat, upper));
    }
}

} // verus!
