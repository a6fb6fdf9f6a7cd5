//! Colouring of the debug terminal's lines: every occurrence of the
//! "enabled" and "disabled" words (compared in lower case) becomes a
//! segment of its own, so that it can be drawn in green or red.

use vstd::prelude::*;
use vstd::string::*;
use crate::text::{chars_of, push_char};
use crate::keys::{to_lower, lowercased};

verus! {

/// How a segment of a line is drawn.
#[derive(PartialEq, Eq, Structural, Clone, Copy, Debug)]
pub enum SegmentKind {
    Plain,
    Enabled,
    Disabled,
}

/// A run of text and how it is drawn.
pub struct LogSegment {
    pub kind: SegmentKind,
    pub text: String,
}

/// The segments as (kind, text) pairs.
pub open spec fn segments_view(v: Seq<LogSegment>) -> Seq<(SegmentKind, Seq<char>)> {
    v.map_values(|s: LogSegment| (s.kind, s.text@))
}

/// The first position at or after `from` where `needle` occurs in `hay`.
pub open spec fn first_occurrence(hay: Seq<char>, needle: Seq<char>, from: int) -> Option<int>
    decreases hay.len() + 1 - from,
{
    if from < 0 || from + needle.len() > hay.len() {
        None
    } else if hay.subrange(from, from + needle.len()) == needle {
        Some(from)
    } else {
        first_occurrence(hay, needle, from + 1)
    }
}

/// The nearer of the next "enabled" and "disabled" occurrences; on a tie,
/// "enabled".
pub open spec fn next_token(lower: Seq<char>, en: Seq<char>, dis: Seq<char>, i: int) -> Option<(int, bool)> {
    match (first_occurrence(lower, en, i), first_occurrence(lower, dis, i)) {
        (Some(a), Some(b)) => if a <= b { Some((a, true)) } else { Some((b, false)) },
        (Some(a), None) => Some((a, true)),
        (None, Some(b)) => Some((b, false)),
        (None, None) => None,
    }
}

/// The segments of `text` from position `i` on, the words being found in
/// its lower-case form `lower` (of the same length).
pub open spec fn segments_from(text: Seq<char>, lower: Seq<char>, en: Seq<char>, dis: Seq<char>, i: int) -> Seq<(SegmentKind, Seq<char>)>
    recommends
        en.len() > 0,
        dis.len() > 0,
    decreases text.len() - i,
    when en.len() > 0 && dis.len() > 0 && 0 <= i
{
    if i >= text.len() {
        Seq::empty()
    } else {
        match next_token(lower, en, dis, i) {
            None => seq![(SegmentKind::Plain, text.subrange(i, text.len() as int))],
            Some((pos, is_en)) => {
                let n = if is_en { en.len() as int } else { dis.len() as int };
                let kind = if is_en { SegmentKind::Enabled } else { SegmentKind::Disabled };
                (if pos > i { seq![(SegmentKind::Plain, text.subrange(i, pos))] } else { Seq::empty() })
                    + seq![(kind, text.subrange(pos, pos + n))]
                    + (if i < pos + n && pos + n <= text.len() {
                        segments_from(text, lower, en, dis, pos + n)
                    } else {
                        Seq::empty()
                    })
            },
        }
    }
}

proof fn lemma_first_occurrence_bounds(hay: Seq<char>, needle: Seq<char>, from: int)
    ensures
        first_occurrence(hay, needle, from) matches Some(p) ==> from <= p && p + needle.len() <= hay.len()
            && hay.subrange(p, p + needle.len()) == needle,
    decreases hay.len() + 1 - from,
{
    if !(from < 0 || from + needle.len() > hay.len()) && hay.subrange(from, from + needle.len()) != needle {
        lemma_first_occurrence_bounds(hay, needle, from + 1);
    }
}

/// The text of the segments put back together.
pub open spec fn segments_concat(s: Seq<(SegmentKind, Seq<char>)>) -> Seq<char>
    decreases s.len(),
{
    if s.len() == 0 {
        Seq::empty()
    } else {
        segments_concat(s.drop_last()) + s.last().1
    }
}

proof fn lemma_concat_append(a: Seq<(SegmentKind, Seq<char>)>, b: Seq<(SegmentKind, Seq<char>)>)
    ensures
        segments_concat(a + b) == segments_concat(a) + segments_concat(b),
    decreases b.len(),
{
    if b.len() == 0 {
        assert(a + b =~= a);
        assert(segments_concat(a) + segments_concat(b) =~= segments_concat(a));
    } else {
        lemma_concat_append(a, b.drop_last());
        assert((a + b).drop_last() =~= a + b.drop_last());
        assert(segments_concat(a) + segments_concat(b) =~= segments_concat(a) + segments_concat(
            b.drop_last(),
        ) + b.last().1);
    }
}

/// The segments tile the line: put back together, the segments from
/// position `i` on are exactly the text from `i` on, nothing lost, nothing
/// repeated.
pub proof fn lemma_segments_tile(text: Seq<char>, lower: Seq<char>, en: Seq<char>, dis: Seq<char>, i: int)
    requires
        lower.len() == text.len(),
        en.len() > 0,
        dis.len() > 0,
        0 <= i <= text.len(),
    ensures
        segments_concat(segments_from(text, lower, en, dis, i)) == text.subrange(i, text.len() as int),
    decreases text.len() - i,
{
    if i >= text.len() {
        assert(text.subrange(i, text.len() as int) =~= Seq::<char>::empty());
    } else {
        lemma_first_occurrence_bounds(lower, en, i);
        lemma_first_occurrence_bounds(lower, dis, i);
        match next_token(lower, en, dis, i) {
            None => {
                let one = seq![(SegmentKind::Plain, text.subrange(i, text.len() as int))];
                assert(one.drop_last() =~= Seq::<(SegmentKind, Seq<char>)>::empty());
                reveal_with_fuel(segments_concat, 2);
                assert(segments_concat(one) =~= text.subrange(i, text.len() as int));
            },
            Some((pos, is_en)) => {
                let n = if is_en { en.len() as int } else { dis.len() as int };
                let kind = if is_en { SegmentKind::Enabled } else { SegmentKind::Disabled };
                let head: Seq<(SegmentKind, Seq<char>)> = if pos > i {
                    seq![(SegmentKind::Plain, text.subrange(i, pos))]
                } else {
                    Seq::empty()
                };
                let tok = seq![(kind, text.subrange(pos, pos + n))];
                let rest = segments_from(text, lower, en, dis, pos + n);
                assert(segments_from(text, lower, en, dis, i) == head + tok + rest);
                lemma_segments_tile(text, lower, en, dis, pos + n);
                lemma_concat_append(head + tok, rest);
                lemma_concat_append(head, tok);
                assert(tok.drop_last() =~= Seq::<(SegmentKind, Seq<char>)>::empty());
                reveal_with_fuel(segments_concat, 2);
                assert(segments_concat(tok) =~= text.subrange(pos, pos + n));
                if pos > i {
                    assert(head.drop_last() =~= Seq::<(SegmentKind, Seq<char>)>::empty());
                    assert(segments_concat(head) =~= text.subrange(i, pos));
                } else {
                    assert(segments_concat(head) =~= text.subrange(i, pos));
                }
                assert(text.subrange(i, pos) + text.subrange(pos, pos + n) + text.subrange(
                    pos + n,
                    text.len() as int,
                ) =~= text.subrange(i, text.len() as int));
            },
        }
    }
}

fn matches_at(hay: &Vec<char>, needle: &Vec<char>, p: usize) -> (yes: bool)
    requires
        p + needle@.len() <= hay@.len(),
    ensures
        yes == (hay@.subrange(p as int, p + needle@.len()) == needle@),
{
    let hl = hay.len();
    let mut k: usize = 0;
    while k < needle.len()
        invariant
            hl == hay@.len(),
            p + needle@.len() <= hay@.len(),
            k <= needle@.len(),
            forall|m: int| 0 <= m < k ==> hay@[p + m] == needle@[m],
        decreases needle@.len() - k,
    {
        if hay[p + k] != needle[k] {
            assert(hay@.subrange(p as int, p + needle@.len())[k as int] != needle@[k as int]);
            return false;
        }
        k = k + 1;
    }
    assert(hay@.subrange(p as int, p + needle@.len()) =~= needle@);
    true
}

fn find_from(hay: &Vec<char>, needle: &Vec<char>, from: usize) -> (found: Option<usize>)
    requires
        from <= hay@.len(),
    ensures
        match found {
            Some(p) => first_occurrence(hay@, needle@, from as int) == Some(p as int),
            None => first_occurrence(hay@, needle@, from as int) is None,
        },
{
    if needle.len() > hay.len() {
        return None;
    }
    let last = hay.len() - needle.len();
    if from > last {
        return None;
    }
    let mut p: usize = from;
    loop
        invariant
            from <= p <= last,
            last == hay@.len() - needle@.len(),
            first_occurrence(hay@, needle@, from as int) == first_occurrence(hay@, needle@, p as int),
        decreases last - p,
    {
        if matches_at(hay, needle, p) {
            return Some(p);
        }
        if p == last {
            assert(first_occurrence(hay@, needle@, p + 1) is None);
            return None;
        }
        p = p + 1;
    }
}

fn string_of_range(chars: &Vec<char>, from: usize, to: usize) -> (s: String)
    requires
        from <= to <= chars@.len(),
    ensures
        s@ == chars@.subrange(from as int, to as int),
{
    let mut s = String::new();
    let mut k: usize = from;
    while k < to
        invariant
            from <= k <= to,
            to <= chars@.len(),
            s@ == chars@.subrange(from as int, k as int),
        decreases to - k,
    {
        push_char(&mut s, chars[k]);
        k = k + 1;
        assert(s@ =~= chars@.subrange(from as int, k as int));
    }
    s
}

fn push_segment(segs: &mut Vec<LogSegment>, kind: SegmentKind, text: String)
    ensures
        segments_view(final(segs)@) == segments_view(old(segs)@).push((kind, text@)),
{
    let ghost before = segs@;
    segs.push(LogSegment { kind, text });
    assert(segments_view(segs@) =~= segments_view(before).push((kind, segs@.last().text@)));
}

/// Splits a line into plain and highlighted segments, given its lower-case
/// form and the lower-case "enabled" and "disabled" words.
pub fn highlight_segments(text: &str, lower: &str, enabled_lower: &str, disabled_lower: &str) -> (segs: Vec<LogSegment>)
    requires
        lower@.len() == text@.len(),
        enabled_lower@.len() > 0,
        disabled_lower@.len() > 0,
    ensures
        segments_view(segs@) == segments_from(text@, lower@, enabled_lower@, disabled_lower@, 0),
{
    let t = chars_of(text);
    let l = chars_of(lower);
    let en = chars_of(enabled_lower);
    let dis = chars_of(disabled_lower);
    let ghost spec_all = segments_from(text@, lower@, enabled_lower@, disabled_lower@, 0);
    let mut segs: Vec<LogSegment> = Vec::new();
    let mut i: usize = 0;
    while i < t.len()
        invariant_except_break
            t@ == text@,
            l@ == lower@,
            en@ == enabled_lower@,
            dis@ == disabled_lower@,
            l@.len() == t@.len(),
            en@.len() > 0,
            dis@.len() > 0,
            i <= t@.len(),
            segments_view(segs@) + segments_from(text@, lower@, en@, dis@, i as int) == spec_all,
        ensures
            segments_view(segs@) == spec_all,
        decreases t@.len() - i,
    {
        let ghost before = segments_view(segs@);
        let ne = find_from(&l, &en, i);
        let nd = find_from(&l, &dis, i);
        proof {
            lemma_first_occurrence_bounds(l@, en@, i as int);
            lemma_first_occurrence_bounds(l@, dis@, i as int);
        }
        let next: Option<(usize, bool)> = match (ne, nd) {
            (Some(a), Some(b)) => if a <= b { Some((a, true)) } else { Some((b, false)) },
            (Some(a), None) => Some((a, true)),
            (None, Some(b)) => Some((b, false)),
            (None, None) => None,
        };
        match next {
            None => {
                let rest = string_of_range(&t, i, t.len());
                push_segment(&mut segs, SegmentKind::Plain, rest);
                assert(segments_view(segs@) =~= spec_all);
                break;
            },
            Some((pos, is_en)) => {
                let n = if is_en { en.len() } else { dis.len() };
                let kind = if is_en { SegmentKind::Enabled } else { SegmentKind::Disabled };
                if pos > i {
                    let plain = string_of_range(&t, i, pos);
                    push_segment(&mut segs, SegmentKind::Plain, plain);
                }
                let token = string_of_range(&t, pos, pos + n);
                push_segment(&mut segs, kind, token);
                let ghost mid = (if pos > i { seq![(SegmentKind::Plain, text@.subrange(i as int, pos as int))] } else { Seq::empty() })
                    + seq![(kind, text@.subrange(pos as int, pos + n))];
                assert(segments_view(segs@) =~= before + mid);
                assert(segments_from(text@, lower@, en@, dis@, i as int) =~= mid + segments_from(text@, lower@, en@, dis@, (pos + n) as int));
                assert(segments_view(segs@) + segments_from(text@, lower@, en@, dis@, (pos + n) as int) =~= spec_all);
                i = pos + n;
            },
        }
    }
    segs
}

/// The lower-case forms of the line and of the two words keep their
/// lengths, so that positions in the lower-case line are positions in the
/// line.
pub open spec fn case_aligned(text: Seq<char>, en: Seq<char>, dis: Seq<char>) -> bool {
    &&& lowercased(text).len() == text.len()
    &&& lowercased(en).len() == en.len()
    &&& lowercased(dis).len() == dis.len()
}

/// One of the words occurs in the lower-case line.
pub open spec fn word_occurs(text: Seq<char>, en: Seq<char>, dis: Seq<char>) -> bool {
    ||| first_occurrence(lowercased(text), lowercased(en), 0) is Some
    ||| first_occurrence(lowercased(text), lowercased(dis), 0) is Some
}

/// Splits a terminal line into segments, highlighting the "enabled" and
/// "disabled" words wherever they occur in any letter case. An empty line
/// gives no segment. A line where neither word occurs is one plain
/// segment. Otherwise the words must not be empty (the line would never be
/// used up) and lower-casing must keep the lengths of the line and the
/// words, so that positions found in the lower-case line are positions in
/// the line; when it does not, there is no result.
pub fn highlighted_log_job(text: &str, enabled_word: &str, disabled_word: &str) -> (segs: Option<Vec<LogSegment>>)
    ensures
        text@.len() == 0 ==> (segs matches Some(v) && v@.len() == 0),
        text@.len() > 0 ==> (segs is Some <==> (enabled_word@.len() > 0 && disabled_word@.len() > 0 && (
        case_aligned(text@, enabled_word@, disabled_word@) || !word_occurs(
            text@,
            enabled_word@,
            disabled_word@,
        )))),
        (text@.len() > 0 && case_aligned(text@, enabled_word@, disabled_word@)) ==> (segs matches Some(v)
            ==> segments_view(v@) == segments_from(
            text@,
            lowercased(text@),
            lowercased(enabled_word@),
            lowercased(disabled_word@),
            0,
        )),
        (text@.len() > 0 && !case_aligned(text@, enabled_word@, disabled_word@)) ==> (segs matches Some(v)
            ==> segments_view(v@) == seq![(SegmentKind::Plain, text@)]),
        segs matches Some(v) ==> segments_concat(segments_view(v@)) == text@,
{
    if text.unicode_len() == 0 {
        let v: Vec<LogSegment> = Vec::new();
        assert(segments_view(v@) =~= Seq::<(SegmentKind, Seq<char>)>::empty());
        return Some(v);
    }
    if enabled_word.unicode_len() == 0 || disabled_word.unicode_len() == 0 {
        return None;
    }
    let lower = to_lower(text);
    let en = to_lower(enabled_word);
    let dis = to_lower(disabled_word);
    if lower.as_str().unicode_len() == text.unicode_len() && en.as_str().unicode_len() == enabled_word.unicode_len()
        && dis.as_str().unicode_len() == disabled_word.unicode_len() {
        let segs = highlight_segments(text, lower.as_str(), en.as_str(), dis.as_str());
        proof {
            lemma_segments_tile(text@, lower@, en@, dis@, 0);
            assert(text@.subrange(0, text@.len() as int) =~= text@);
        }
        return Some(segs);
    }
    let l = chars_of(lower.as_str());
    let e = chars_of(en.as_str());
    let d = chars_of(dis.as_str());
    if find_from(&l, &e, 0).is_none() && find_from(&l, &d, 0).is_none() {
        let mut v: Vec<LogSegment> = Vec::new();
        push_segment(&mut v, SegmentKind::Plain, text.to_string());
        proof {
            let sv = segments_view(v@);
            assert(sv =~= seq![(SegmentKind::Plain, text@)]);
            assert(sv.drop_last() =~= Seq::<(SegmentKind, Seq<char>)>::empty());
            reveal_with_fuel(segments_concat, 2);
            assert(segments_concat(sv) =~= text@);
        }
        Some(v)
    } else {
        None
    }
}

} // verus!
