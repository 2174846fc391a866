//! Cleaning of raw model output into a bare translation.
use vstd::prelude::*;
use crate::common::{arabic_or_punct, cyrillic_or_punct, hangul_or_punct, is_arabic_or_punct, is_cyrillic_or_punct, is_hangul_or_punct};
use crate::orchestrator::{is_white, is_white_char};
use crate::text::{lower_of, lowercase, owned, seq_contains, seq_starts_with, str_contains, str_starts_with};
use crate::translation::{replace_all, replace_str};

verus! {

/// `s` without leading white space.
pub open spec fn trim_start(s: Seq<char>) -> Seq<char>
    decreases s.len(),
{
    if s.len() > 0 && is_white(s[0]) {
        trim_start(s.drop_first())
    } else {
        s
    }
}

/// `s` without trailing white space.
pub open spec fn trim_end(s: Seq<char>) -> Seq<char>
    decreases s.len(),
{
    if s.len() > 0 && is_white(s.last()) {
        trim_end(s.drop_last())
    } else {
        s
    }
}

/// `s` without leading or trailing white space.
pub open spec fn trim(s: Seq<char>) -> Seq<char> {
    trim_end(trim_start(s))
}

/// `s` ends with `p`.
pub open spec fn seq_ends_with(s: Seq<char>, p: Seq<char>) -> bool {
    p.len() <= s.len() && s.subrange(s.len() - p.len(), s.len() as int) == p
}

/// Removes the prefix `p`, and the white space after it, when `s` begins with it.
pub open spec fn after_prefix(s: Seq<char>, p: Seq<char>) -> Seq<char> {
    if seq_starts_with(s, p) {
        trim_start(s.subrange(p.len() as int, s.len() as int))
    } else {
        s
    }
}

/// Removes the suffix `p`, and the white space before it, when `s` ends with it.
pub open spec fn before_suffix(s: Seq<char>, p: Seq<char>) -> Seq<char> {
    if seq_ends_with(s, p) {
        trim_end(s.subrange(0, s.len() - p.len()))
    } else {
        s
    }
}

/// Each prefix of `ps` removed in turn.
pub open spec fn strip_prefixes(s: Seq<char>, ps: Seq<Seq<char>>) -> Seq<char>
    decreases ps.len(),
{
    if ps.len() == 0 {
        s
    } else {
        after_prefix(strip_prefixes(s, ps.drop_last()), ps.last())
    }
}

/// Each suffix of `ps` removed in turn.
pub open spec fn strip_suffixes(s: Seq<char>, ps: Seq<Seq<char>>) -> Seq<char>
    decreases ps.len(),
{
    if ps.len() == 0 {
        s
    } else {
        before_suffix(strip_suffixes(s, ps.drop_last()), ps.last())
    }
}

/// The prefixes removed from model output, the last two naming the target language.
pub open spec fn noise_prefixes(lang: Seq<char>) -> Seq<Seq<char>> {
    seq!["Translation:"@, "翻译："@, "Translated:"@, "Target:"@, "Result:"@, "Answer:"@, "Output:"@, lang + ":"@, "In "@ + lang + ":"@]
}

/// The suffixes removed from model output.
pub open spec fn noise_suffixes() -> Seq<Seq<char>> {
    seq!["Translation"@, "翻译"@, "Translated"@, "(translation)"@, "（翻译）"@]
}

/// `s` without one pair of enclosing double or single quotes.
pub open spec fn unquote(s: Seq<char>) -> Seq<char> {
    if s.len() >= 2 && ((s[0] == '"' && s.last() == '"') || (s[0] == '\'' && s.last() == '\'')) {
        s.subrange(1, s.len() - 1)
    } else {
        s
    }
}

/// A script whose characters alone are kept for some target languages.
#[derive(Debug, PartialEq, Eq, Structural, Clone, Copy)]
pub enum ScriptFilter {
    Cyrillic,
    Hangul,
    Arabic,
}

/// A character kept by the filter: white space or the script's own.
pub open spec fn kept(c: char, f: ScriptFilter) -> bool {
    is_white(c) || match f {
        ScriptFilter::Cyrillic => cyrillic_or_punct(c),
        ScriptFilter::Hangul => hangul_or_punct(c),
        ScriptFilter::Arabic => arabic_or_punct(c),
    }
}

/// The characters of `s` that the filter keeps, in order.
pub open spec fn keep(s: Seq<char>, f: ScriptFilter) -> Seq<char>
    decreases s.len(),
{
    if s.len() == 0 {
        s
    } else if kept(s.last(), f) {
        keep(s.drop_last(), f).push(s.last())
    } else {
        keep(s.drop_last(), f)
    }
}

/// `s` filtered when `on`.
pub open spec fn keep_if(s: Seq<char>, on: bool, f: ScriptFilter) -> Seq<char> {
    if on { keep(s, f) } else { s }
}

/// Model output cleaned into a bare translation: trimmed; known prefixes,
/// then known suffixes, removed; enclosing quotes dropped; newlines turned
/// into spaces and double spaces halved; for Russian, Korean and Arabic
/// targets only that script, punctuation and white space kept; trimmed.
pub open spec fn cleaned(raw: Seq<char>, lang: Seq<char>) -> Seq<char> {
    let s1 = strip_suffixes(strip_prefixes(trim(raw), noise_prefixes(lang)), noise_suffixes());
    let s2 = replace_all(replace_all(trim(unquote(s1)), "\n"@, " "@), "  "@, " "@);
    let low = lower_of(lang);
    let s3 = keep_if(s2, seq_contains(low, "русский"@) || seq_contains(low, "russian"@), ScriptFilter::Cyrillic);
    let s4 = keep_if(s3, seq_contains(low, "korean"@) || seq_contains(low, "한국어"@), ScriptFilter::Hangul);
    let s5 = keep_if(s4, seq_contains(low, "arabic"@) || seq_contains(low, "العربية"@), ScriptFilter::Arabic);
    trim(s5)
}

/// `s` without leading white space.
pub fn trim_start_str(s: &str) -> (r: String)
    ensures
        r@ == trim_start(s@),
{
    let n = s.unicode_len();
    let mut i: usize = 0;
    assert(s@.subrange(0, n as int) =~= s@);
    while i < n && is_white_char(s.get_char(i))
        invariant
            n == s@.len(),
            i <= n,
            trim_start(s@) == trim_start(s@.subrange(i as int, n as int)),
        decreases n - i,
    {
        assert(s@.subrange(i as int, n as int).drop_first() =~= s@.subrange(i + 1, n as int));
        i = i + 1;
    }
    owned(s.substring_char(i, n))
}

/// `s` without trailing white space.
pub fn trim_end_str(s: &str) -> (r: String)
    ensures
        r@ == trim_end(s@),
{
    let mut n = s.unicode_len();
    assert(s@.subrange(0, n as int) =~= s@);
    while n > 0 && is_white_char(s.get_char(n - 1))
        invariant
            n <= s@.len(),
            trim_end(s@) == trim_end(s@.subrange(0, n as int)),
        decreases n,
    {
        assert(s@.subrange(0, n as int).drop_last() =~= s@.subrange(0, n - 1));
        n = n - 1;
    }
    owned(s.substring_char(0, n))
}

/// `s` without leading or trailing white space.
pub fn trim_str(s: &str) -> (r: String)
    ensures
        r@ == trim(s@),
{
    let a = trim_start_str(s);
    trim_end_str(a.as_str())
}

/// Whether `s` ends with `p`.
pub fn str_ends_with(s: &str, p: &str) -> (r: bool)
    ensures
        r == seq_ends_with(s@, p@),
{
    let n = s.unicode_len();
    let m = p.unicode_len();
    if m > n {
        return false;
    }
    let mut j: usize = 0;
    while j < m
        invariant
            n == s@.len(),
            m == p@.len(),
            m <= n,
            j <= m,
            forall|t: int| 0 <= t < j ==> s@[n - m + t] == p@[t],
        decreases m - j,
    {
        if s.get_char(n - m + j) != p.get_char(j) {
            assert(s@.subrange(n - m, n as int)[j as int] != p@[j as int]);
            return false;
        }
        j = j + 1;
    }
    assert(s@.subrange(n - m, n as int) =~= p@);
    true
}

fn after_prefix_str(s: String, p: &str) -> (r: String)
    ensures
        r@ == after_prefix(s@, p@),
{
    if str_starts_with(s.as_str(), p) {
        let rest = s.as_str().substring_char(p.unicode_len(), s.as_str().unicode_len());
        trim_start_str(rest)
    } else {
        s
    }
}

fn before_suffix_str(s: String, p: &str) -> (r: String)
    ensures
        r@ == before_suffix(s@, p@),
{
    if str_ends_with(s.as_str(), p) {
        let head = s.as_str().substring_char(0, s.as_str().unicode_len() - p.unicode_len());
        trim_end_str(head)
    } else {
        s
    }
}

fn unquote_str(s: String) -> (r: String)
    ensures
        r@ == unquote(s@),
{
    let n = s.as_str().unicode_len();
    if n >= 2 {
        let a = s.as_str().get_char(0);
        let b = s.as_str().get_char(n - 1);
        if (a == '"' && b == '"') || (a == '\'' && b == '\'') {
            return owned(s.as_str().substring_char(1, n - 1));
        }
    }
    s
}

fn keeps(c: char, f: ScriptFilter) -> (r: bool)
    ensures
        r == kept(c, f),
{
    is_white_char(c) || match f {
        ScriptFilter::Cyrillic => is_cyrillic_or_punct(c),
        ScriptFilter::Hangul => is_hangul_or_punct(c),
        ScriptFilter::Arabic => is_arabic_or_punct(c),
    }
}

/// The characters of `s` that the filter keeps, in order.
pub fn keep_script(s: &str, f: ScriptFilter) -> (r: String)
    ensures
        r@ == keep(s@, f),
{
    let n = s.unicode_len();
    let mut out: Vec<char> = Vec::new();
    let mut i: usize = 0;
    while i < n
        invariant
            n == s@.len(),
            i <= n,
            out@ == keep(s@.subrange(0, i as int), f),
        decreases n - i,
    {
        let c = s.get_char(i);
        proof {
            assert(s@.subrange(0, i + 1).drop_last() =~= s@.subrange(0, i as int));
        }
        if keeps(c, f) {
            out.push(c);
        }
        i = i + 1;
    }
    assert(s@.subrange(0, n as int) =~= s@);
    crate::text::string_of_chars(out.as_slice())
}

fn prefix_list(lang: &str) -> (r: Vec<String>)
    ensures
        r@.map_values(|x: String| x@) == noise_prefixes(lang@),
{
    let mut v: Vec<String> = Vec::new();
    v.push(owned("Translation:"));
    v.push(owned("翻译："));
    v.push(owned("Translated:"));
    v.push(owned("Target:"));
    v.push(owned("Result:"));
    v.push(owned("Answer:"));
    v.push(owned("Output:"));
    let mut a = owned(lang);
    a.append(":");
    v.push(a);
    let mut b = owned("In ");
    b.append(lang);
    b.append(":");
    v.push(b);
    assert(v@.map_values(|x: String| x@) =~= noise_prefixes(lang@));
    v
}

fn suffix_list() -> (r: Vec<String>)
    ensures
        r@.map_values(|x: String| x@) == noise_suffixes(),
{
    let mut v: Vec<String> = Vec::new();
    v.push(owned("Translation"));
    v.push(owned("翻译"));
    v.push(owned("Translated"));
    v.push(owned("(translation)"));
    v.push(owned("（翻译）"));
    assert(v@.map_values(|x: String| x@) =~= noise_suffixes());
    v
}

/// Cleans raw model output into a bare translation (see `cleaned`).
pub fn clean_translation_result(raw_text: &str, target_lang: &str) -> (r: String)
    ensures
        r@ == cleaned(raw_text@, target_lang@),
{
    let mut s = trim_str(raw_text);
    let ghost s0 = s@;
    let ps = prefix_list(target_lang);
    let ghost pv = ps@.map_values(|x: String| x@);
    let mut i: usize = 0;
    while i < ps.len()
        invariant
            i <= ps@.len(),
            pv == ps@.map_values(|x: String| x@),
            s@ == strip_prefixes(s0, pv.subrange(0, i as int)),
        decreases ps@.len() - i,
    {
        assert(pv.subrange(0, i + 1).drop_last() =~= pv.subrange(0, i as int));
        s = after_prefix_str(s, ps[i].as_str());
        i = i + 1;
    }
    assert(pv.subrange(0, ps@.len() as int) =~= pv);
    let ghost s1 = s@;
    let ss = suffix_list();
    let ghost sv = ss@.map_values(|x: String| x@);
    let mut j: usize = 0;
    while j < ss.len()
        invariant
            j <= ss@.len(),
            sv == ss@.map_values(|x: String| x@),
            s@ == strip_suffixes(s1, sv.subrange(0, j as int)),
        decreases ss@.len() - j,
    {
        assert(sv.subrange(0, j + 1).drop_last() =~= sv.subrange(0, j as int));
        s = before_suffix_str(s, ss[j].as_str());
        j = j + 1;
    }
    assert(sv.subrange(0, ss@.len() as int) =~= sv);
    let q = unquote_str(s);
    let t = trim_str(q.as_str());
    let u = replace_str(t.as_str(), "\n", " ");
    let mut w = replace_str(u.as_str(), "  ", " ");
    let low = lowercase(target_lang);
    if str_contains(low.as_str(), "русский") || str_contains(low.as_str(), "russian") {
        w = keep_script(w.as_str(), ScriptFilter::Cyrillic);
    }
    if str_contains(low.as_str(), "korean") || str_contains(low.as_str(), "한국어") {
        w = keep_script(w.as_str(), ScriptFilter::Hangul);
    }
    if str_contains(low.as_str(), "arabic") || str_contains(low.as_str(), "العربية") {
        w = keep_script(w.as_str(), ScriptFilter::Arabic);
    }
    trim_str(w.as_str())
}

} // verus!
