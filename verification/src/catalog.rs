//! The developer message catalog used by debug logging: a key/value table
//! read from JSON, where the selected language overrides the shared entries,
//! and a missing key is shown as itself.

use vstd::prelude::*;
use vstd::string::*;
use crate::text::{str_eq, push_str};

verus! {

/// The key/value pairs of a catalog, as character sequences.
pub open spec fn entries_view(v: Seq<(String, String)>) -> Seq<(Seq<char>, Seq<char>)> {
    v.map_values(|e: (String, String)| (e.0@, e.1@))
}

/// No key occurs twice.
pub open spec fn keys_distinct(e: Seq<(Seq<char>, Seq<char>)>) -> bool {
    forall|i: int, j: int| 0 <= i < j < e.len() ==> #[trigger] e[i].0 != #[trigger] e[j].0
}

/// The map from keys to messages that a list of pairs stands for; a later
/// pair replaces an earlier one with the same key.
pub open spec fn catalog_map(e: Seq<(Seq<char>, Seq<char>)>) -> Map<Seq<char>, Seq<char>>
    decreases e.len(),
{
    if e.len() == 0 {
        Map::empty()
    } else {
        catalog_map(e.drop_last()).insert(e.last().0, e.last().1)
    }
}

/// Result of `serde_json::from_str` into a string-to-string `BTreeMap`,
/// listed in key order; `None` when the text is not such a JSON object.
pub uninterp spec fn json_string_map(text: Seq<char>) -> Option<Seq<(Seq<char>, Seq<char>)>>;

/// Parses a JSON object of strings with `serde_json::from_str` into a
/// `BTreeMap<String, String>` and lists its pairs. What the parser accepts is
/// named by `json_string_map`; the keys of a map are distinct.
#[verifier::external_body]
fn parse_json_string_map(text: &str) -> (parsed: Option<Vec<(String, String)>>)
    ensures
        match parsed {
            Some(v) => json_string_map(text@) == Some(entries_view(v@)) && keys_distinct(
                entries_view(v@),
            ),
            None => json_string_map(text@) is None,
        },
{
    serde_json::from_str::<std::collections::BTreeMap<String, String>>(text).ok().map(
        |m| m.into_iter().collect(),
    )
}

/// The text without its leading byte-order marks.
pub open spec fn strip_bom(s: Seq<char>) -> Seq<char>
    decreases s.len(),
{
    if s.len() > 0 && s[0] == '\u{feff}' {
        strip_bom(s.drop_first())
    } else {
        s
    }
}

/// Removes leading byte-order marks.
pub fn trim_bom(raw: &str) -> (s: &str)
    ensures
        s@ == strip_bom(raw@),
{
    let n = raw.unicode_len();
    let mut k: usize = 0;
    assert(raw@.skip(0) =~= raw@);
    while k < n && raw.get_char(k) == '\u{feff}'
        invariant
            n == raw@.len(),
            k <= n,
            strip_bom(raw@) == strip_bom(raw@.skip(k as int)),
        decreases n - k,
    {
        assert(raw@.skip(k as int).drop_first() =~= raw@.skip(k + 1));
        k = k + 1;
    }
    let s = raw.substring_char(k, n);
    assert(s@ =~= raw@.skip(k as int));
    s
}

/// Parses one catalog file: leading byte-order marks are ignored, the rest
/// must be a JSON object of strings.
pub fn parse_map(raw: &str) -> (parsed: Option<Vec<(String, String)>>)
    ensures
        match parsed {
            Some(v) => json_string_map(strip_bom(raw@)) == Some(entries_view(v@)) && keys_distinct(
                entries_view(v@),
            ),
            None => json_string_map(strip_bom(raw@)) is None,
        },
{
    parse_json_string_map(trim_bom(raw))
}

proof fn lemma_map_lookup(e: Seq<(Seq<char>, Seq<char>)>, i: int)
    requires
        keys_distinct(e),
        0 <= i < e.len(),
    ensures
        catalog_map(e).contains_key(e[i].0),
        catalog_map(e)[e[i].0] == e[i].1,
    decreases e.len(),
{
    if i < e.len() - 1 {
        assert(keys_distinct(e.drop_last()));
        assert(e.drop_last()[i] == e[i]);
        lemma_map_lookup(e.drop_last(), i);
        assert(e[i].0 != e[e.len() - 1].0);
    }
}

proof fn lemma_map_absent(e: Seq<(Seq<char>, Seq<char>)>, k: Seq<char>)
    requires
        forall|i: int| 0 <= i < e.len() ==> #[trigger] e[i].0 != k,
    ensures
        !catalog_map(e).contains_key(k),
    decreases e.len(),
{
    if e.len() > 0 {
        assert forall|i: int| 0 <= i < e.drop_last().len() implies #[trigger] e.drop_last()[i].0
            != k by {
            assert(e.drop_last()[i] == e[i]);
        }
        lemma_map_absent(e.drop_last(), k);
        assert(e[e.len() - 1].0 != k);
    }
}

proof fn lemma_map_update(e: Seq<(Seq<char>, Seq<char>)>, i: int, v: Seq<char>)
    requires
        keys_distinct(e),
        0 <= i < e.len(),
    ensures
        catalog_map(e.update(i, (e[i].0, v))) == catalog_map(e).insert(e[i].0, v),
    decreases e.len(),
{
    let u = e.update(i, (e[i].0, v));
    if i == e.len() - 1 {
        assert(u.drop_last() =~= e.drop_last());
        assert forall|j: int| 0 <= j < e.drop_last().len() implies #[trigger] e.drop_last()[j].0
            != e[i].0 by {
            assert(e.drop_last()[j] == e[j]);
        }
        lemma_map_absent(e.drop_last(), e[i].0);
        assert(catalog_map(u) =~= catalog_map(e).insert(e[i].0, v));
    } else {
        assert(u.drop_last() =~= e.drop_last().update(i, (e[i].0, v)));
        assert(keys_distinct(e.drop_last()));
        assert(e.drop_last()[i] == e[i]);
        lemma_map_update(e.drop_last(), i, v);
        assert(e[i].0 != e.last().0);
        assert(catalog_map(u) =~= catalog_map(e).insert(e[i].0, v));
    }
}

/// A copy of a list of pairs.
fn copy_entries(v: &Vec<(String, String)>) -> (c: Vec<(String, String)>)
    ensures
        entries_view(c@) == entries_view(v@),
{
    let mut c: Vec<(String, String)> = Vec::new();
    let mut k: usize = 0;
    while k < v.len()
        invariant
            k <= v@.len(),
            c@.len() == k,
            entries_view(c@) == entries_view(v@.take(k as int)),
        decreases v@.len() - k,
    {
        let a = v[k].0.clone();
        let b = v[k].1.clone();
        assert(a@ == v@[k as int].0@ && b@ == v@[k as int].1@);
        let ghost before = c@;
        c.push((a, b));
        assert(c@ == before.push(c@[k as int]));
        assert forall|i: int| 0 <= i < k + 1 implies #[trigger] entries_view(c@)[i] == entries_view(
            v@.take(k + 1),
        )[i] by {
            if i < k {
                assert(entries_view(before)[i] == entries_view(v@.take(k as int))[i]);
                assert(c@[i] == before[i]);
            }
        }
        assert(entries_view(c@) =~= entries_view(v@.take(k + 1)));
        k = k + 1;
    }
    assert(v@.take(v@.len() as int) =~= v@);
    c
}

/// Position of a key in a list of pairs, if any.
fn find_key(v: &Vec<(String, String)>, key: &str) -> (pos: Option<usize>)
    ensures
        match pos {
            Some(i) => i < v@.len() && entries_view(v@)[i as int].0 == key@,
            None => forall|i: int| 0 <= i < v@.len() ==> #[trigger] entries_view(v@)[i].0 != key@,
        },
{
    let mut k: usize = 0;
    while k < v.len()
        invariant
            k <= v@.len(),
            forall|i: int| 0 <= i < k ==> #[trigger] entries_view(v@)[i].0 != key@,
        decreases v@.len() - k,
    {
        if str_eq(v[k].0.as_str(), key) {
            return Some(k);
        }
        k = k + 1;
    }
    None
}

/// Adds the pairs of `overrides` to `common`, a pair of `overrides` replacing
/// the one of `common` with the same key (like `HashMap::extend`).
pub fn merge_catalogs(common: &Vec<(String, String)>, overrides: &Vec<(String, String)>) -> (merged: Vec<(String, String)>)
    requires
        keys_distinct(entries_view(common@)),
        keys_distinct(entries_view(overrides@)),
    ensures
        keys_distinct(entries_view(merged@)),
        catalog_map(entries_view(merged@)) == catalog_map(entries_view(common@)).union_prefer_right(
            catalog_map(entries_view(overrides@)),
        ),
{
    let mut merged = copy_entries(common);
    let ghost cm = catalog_map(entries_view(common@));
    let ghost ov = entries_view(overrides@);
    let mut k: usize = 0;
    assert(catalog_map(ov.take(0)) =~= Map::<Seq<char>, Seq<char>>::empty());
    assert(cm.union_prefer_right(Map::<Seq<char>, Seq<char>>::empty()) =~= cm);
    while k < overrides.len()
        invariant
            ov == entries_view(overrides@),
            k <= overrides@.len(),
            keys_distinct(entries_view(merged@)),
            catalog_map(entries_view(merged@)) == cm.union_prefer_right(catalog_map(ov.take(k as int))),
        decreases overrides@.len() - k,
    {
        let key = overrides[k].0.clone();
        let value = overrides[k].1.clone();
        let ghost before = entries_view(merged@);
        assert(ov.take(k + 1).drop_last() =~= ov.take(k as int));
        assert(ov.take(k + 1).last() == (key@, value@));
        match find_key(&merged, key.as_str()) {
            Some(i) => {
                merged.set(i, (key, value));
                proof {
                    assert(entries_view(merged@) =~= before.update(i as int, (before[i as int].0, value@)));
                    lemma_map_update(before, i as int, value@);
                    assert forall|a: int, b: int| 0 <= a < b < entries_view(merged@).len() implies
                        #[trigger] entries_view(merged@)[a].0 != #[trigger] entries_view(merged@)[b].0 by {
                        assert(entries_view(merged@)[a].0 == before[a].0);
                        assert(entries_view(merged@)[b].0 == before[b].0);
                    }
                }
            },
            None => {
                merged.push((key, value));
                proof {
                    assert(entries_view(merged@) =~= before.push((key@, value@)));
                    assert(entries_view(merged@).drop_last() =~= before);
                    assert forall|a: int, b: int| 0 <= a < b < entries_view(merged@).len() implies
                        #[trigger] entries_view(merged@)[a].0 != #[trigger] entries_view(merged@)[b].0 by {
                        if b == before.len() {
                            assert(entries_view(merged@)[a] == before[a]);
                        } else {
                            assert(entries_view(merged@)[a] == before[a]);
                            assert(entries_view(merged@)[b] == before[b]);
                        }
                    }
                }
            },
        }
        k = k + 1;
        assert(catalog_map(entries_view(merged@)) =~= cm.union_prefer_right(catalog_map(ov.take(k as int))));
    }
    assert(ov.take(overrides@.len() as int) =~= ov);
    merged
}

/// Key-value store of developer log messages in the selected language.
pub struct I18n {
    pub messages: Vec<(String, String)>,
}

impl I18n {
    /// The messages as a map from key to text.
    pub open spec fn message_map(&self) -> Map<Seq<char>, Seq<char>> {
        catalog_map(entries_view(self.messages@))
    }

    /// The catalog is well formed: no key occurs twice.
    pub open spec fn wf(&self) -> bool {
        keys_distinct(entries_view(self.messages@))
    }

    /// Builds the catalog from the parsed files: the shared entries, then
    /// the language's entries over them. When the language file did not
    /// parse, the fallback (English) file is used in its place. There is no
    /// catalog when the shared file, or both the language and the fallback
    /// files, did not parse.
    pub fn from_parsed(
        common: Option<Vec<(String, String)>>,
        lang: Option<Vec<(String, String)>>,
        fallback: Option<Vec<(String, String)>>,
    ) -> (cat: Option<I18n>)
        requires
            common matches Some(c) ==> keys_distinct(entries_view(c@)),
            lang matches Some(l) ==> keys_distinct(entries_view(l@)),
            fallback matches Some(f) ==> keys_distinct(entries_view(f@)),
        ensures
            cat is Some <==> (common is Some && (lang is Some || fallback is Some)),
            cat matches Some(c) ==> c.wf(),
            cat matches Some(c) ==> c.message_map() == catalog_map(
                entries_view(common->0@),
            ).union_prefer_right(
                if lang is Some {
                    catalog_map(entries_view(lang->0@))
                } else {
                    catalog_map(entries_view(fallback->0@))
                },
            ),
    {
        match common {
            None => None,
            Some(c) => match lang {
                Some(l) => Some(I18n { messages: merge_catalogs(&c, &l) }),
                None => match fallback {
                    Some(f) => Some(I18n { messages: merge_catalogs(&c, &f) }),
                    None => None,
                },
            },
        }
    }

    /// Loads the catalog from the text of the shared file, the language's
    /// file and the fallback (English) file.
    pub fn new(common_json: &str, lang_json: &str, fallback_json: &str) -> (cat: Option<I18n>)
        ensures
            cat is Some <==> (json_string_map(strip_bom(common_json@)) is Some && (json_string_map(
                strip_bom(lang_json@),
            ) is Some || json_string_map(strip_bom(fallback_json@)) is Some)),
            cat matches Some(c) ==> c.wf(),
            cat matches Some(c) ==> c.message_map() == catalog_map(
                json_string_map(strip_bom(common_json@))->0,
            ).union_prefer_right(
                if json_string_map(strip_bom(lang_json@)) is Some {
                    catalog_map(json_string_map(strip_bom(lang_json@))->0)
                } else {
                    catalog_map(json_string_map(strip_bom(fallback_json@))->0)
                },
            ),
    {
        let common = parse_map(common_json);
        let lang = parse_map(lang_json);
        let fallback = parse_map(fallback_json);
        I18n::from_parsed(common, lang, fallback)
    }

    /// Resolves a key to its message, or to the key itself when missing.
    pub fn t(&self, key: &str) -> (text: String)
        requires
            self.wf(),
        ensures
            text@ == if self.message_map().contains_key(key@) {
                self.message_map()[key@]
            } else {
                key@
            },
    {
        match find_key(&self.messages, key) {
            Some(i) => {
                proof {
                    lemma_map_lookup(entries_view(self.messages@), i as int);
                }
                self.messages[i].1.clone()
            },
            None => {
                proof {
                    lemma_map_absent(entries_view(self.messages@), key@);
                }
                key.to_string()
            },
        }
    }
}

/// The message of a key: its text in the catalog, or the key itself.
pub open spec fn lookup_spec(m: Map<Seq<char>, Seq<char>>, key: Seq<char>) -> Seq<char> {
    if m.contains_key(key) {
        m[key]
    } else {
        key
    }
}

/// The line printed for a debug log entry: `[DEBUG <clock>] <message>`,
/// where the message is the key's text in the catalog.
pub fn debug_log_line(cat: &I18n, clock: &str, key: &str) -> (line: String)
    requires
        cat.wf(),
    ensures
        line@ == "[DEBUG "@ + clock@ + "] "@ + lookup_spec(cat.message_map(), key@),
{
    let mut line = "[DEBUG ".to_string();
    push_str(&mut line, clock);
    push_str(&mut line, "] ");
    let msg = cat.t(key);
    push_str(&mut line, msg.as_str());
    line
}

/// The catalog codes of the supported languages.
pub open spec fn is_catalog_code(c: Seq<char>) -> bool {
    c == "en"@ || c == "fr"@ || c == "es"@ || c == "it"@ || c == "de"@ || c == "pt"@ || c
        == "ru"@ || c == "zh"@ || c == "ja"@ || c == "ko"@ || c == "ar"@ || c == "hi"@
}

/// The catalog file chosen for a language code: the code itself when a
/// catalog exists for it, English otherwise.
pub open spec fn catalog_code_spec(lang: Seq<char>) -> Seq<char> {
    if is_catalog_code(lang) {
        lang
    } else {
        "en"@
    }
}

fn catalog_code_of(code: &str) -> (c: Option<&'static str>)
    ensures
        match c {
            Some(s) => is_catalog_code(code@) && s@ == code@,
            None => !is_catalog_code(code@),
        },
{
    if str_eq(code, "en") {
        Some("en")
    } else if str_eq(code, "fr") {
        Some("fr")
    } else if str_eq(code, "es") {
        Some("es")
    } else if str_eq(code, "it") {
        Some("it")
    } else if str_eq(code, "de") {
        Some("de")
    } else if str_eq(code, "pt") {
        Some("pt")
    } else if str_eq(code, "ru") {
        Some("ru")
    } else if str_eq(code, "zh") {
        Some("zh")
    } else if str_eq(code, "ja") {
        Some("ja")
    } else if str_eq(code, "ko") {
        Some("ko")
    } else if str_eq(code, "ar") {
        Some("ar")
    } else if str_eq(code, "hi") {
        Some("hi")
    } else {
        None
    }
}

/// Selects the catalog file for a language code.
pub fn catalog_code(lang: &str) -> (code: &'static str)
    ensures
        code@ == catalog_code_spec(lang@),
{
    match catalog_code_of(lang) {
        Some(c) => c,
        None => "en",
    }
}

/// The language code of a system locale name such as `fr-FR`: its first two
/// characters when they name a supported language, English otherwise.
pub open spec fn locale_lang_spec(locale: Seq<char>) -> Seq<char> {
    if locale.len() >= 2 && is_catalog_code(locale.take(2)) {
        locale.take(2)
    } else {
        "en"@
    }
}

/// The languages that have a catalog: English, French, Spanish, Italian,
/// German, Portuguese, Russian, Chinese, Japanese, Korean, Arabic and Hindi.
pub open spec fn catalog_languages() -> Seq<Seq<char>> {
    seq!["en"@, "fr"@, "es"@, "it"@, "de"@, "pt"@, "ru"@, "zh"@, "ja"@, "ko"@, "ar"@, "hi"@]
}

/// Each language that has a catalog selects its own catalog, and only the
/// other codes fall back to English; a locale name selects the catalog of
/// its first two characters.
pub proof fn lemma_catalog_code_selects_own(lang: Seq<char>, locale: Seq<char>)
    ensures
        catalog_languages().contains(lang) ==> catalog_code_spec(lang) == lang,
        !catalog_languages().contains(lang) ==> catalog_code_spec(lang) == "en"@,
        locale.len() >= 2 ==> locale_lang_spec(locale) == catalog_code_spec(locale.take(2)),
        locale.len() < 2 ==> locale_lang_spec(locale) == "en"@,
{
    let l = catalog_languages();
    if l.contains(lang) {
        let i = choose|i: int| 0 <= i < l.len() && l[i] == lang;
        assert(is_catalog_code(l[i]));
    }
    if is_catalog_code(lang) {
        if lang == "en"@ {
            assert(l[0] == lang);
        } else if lang == "fr"@ {
            assert(l[1] == lang);
        } else if lang == "es"@ {
            assert(l[2] == lang);
        } else if lang == "it"@ {
            assert(l[3] == lang);
        } else if lang == "de"@ {
            assert(l[4] == lang);
        } else if lang == "pt"@ {
            assert(l[5] == lang);
        } else if lang == "ru"@ {
            assert(l[6] == lang);
        } else if lang == "zh"@ {
            assert(l[7] == lang);
        } else if lang == "ja"@ {
            assert(l[8] == lang);
        } else if lang == "ko"@ {
            assert(l[9] == lang);
        } else if lang == "ar"@ {
            assert(l[10] == lang);
        } else {
            assert(l[11] == lang);
        }
    }
}

/// Maps a system locale name to a supported language code.
pub fn lang_code_for_locale(locale: &str) -> (code: &'static str)
    ensures
        code@ == locale_lang_spec(locale@),
{
    if locale.unicode_len() < 2 {
        return "en";
    }
    let head = locale.substring_char(0, 2);
    assert(head@ =~= locale@.take(2));
    match catalog_code_of(head) {
        Some(c) => c,
        None => "en",
    }
}

/// The system language on platforms without a locale query: English.
pub fn detect_system_lang() -> (code: &'static str)
    ensures
        code@ == "en"@,
{
    "en"
}

} // verus!
