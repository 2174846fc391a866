//! The remote voice directory: voices advertised by the speech service,
//! lookup by language and grouping by language.
use vstd::prelude::*;
use crate::catalog::VoiceInfo;
use crate::text::{lower_of, lowercase, owned, seq_contains, seq_starts_with, str_contains, str_eq, str_starts_with};

verus! {

/// A voice advertised by the remote speech service.
#[derive(Debug)]
pub struct EdgeVoice {
    pub name: String,
    pub short_name: String,
    pub gender: String,
    pub locale: String,
    pub suggested_codec: String,
    pub friendly_name: String,
    pub status: String,
}

/// The voices fetched once from the remote service; read-only afterwards.
#[derive(Debug)]
pub struct EdgeTTSClient {
    pub voices: Vec<EdgeVoice>,
}

/// The voice's lowercased locale contains `key`.
pub open spec fn locale_has(v: EdgeVoice, key: Seq<char>) -> bool {
    seq_contains(lower_of(v.locale@), key)
}

/// The voice's locale begins with `prefix`.
pub open spec fn locale_starts(v: EdgeVoice, prefix: Seq<char>) -> bool {
    seq_starts_with(v.locale@, prefix)
}

/// The first voice from `i` on whose lowercased locale contains `key`.
pub open spec fn first_locale_has(vs: Seq<EdgeVoice>, key: Seq<char>, i: int) -> Option<int>
    decreases vs.len() - i,
{
    if i < 0 || i >= vs.len() {
        None
    } else if locale_has(vs[i], key) {
        Some(i)
    } else {
        first_locale_has(vs, key, i + 1)
    }
}

/// The first voice from `i` on whose locale begins with `prefix`.
pub open spec fn first_locale_starts(vs: Seq<EdgeVoice>, prefix: Seq<char>, i: int) -> Option<int>
    decreases vs.len() - i,
{
    if i < 0 || i >= vs.len() {
        None
    } else if locale_starts(vs[i], prefix) {
        Some(i)
    } else {
        first_locale_starts(vs, prefix, i + 1)
    }
}

/// The language-name table of the lookup: a name and the locale prefix it stands for.
pub open spec fn language_row(k: int) -> (Seq<char>, Seq<char>) {
    if k == 0 { ("english"@, "en-US"@) }
    else if k == 1 { ("chinese"@, "zh-CN"@) }
    else if k == 2 { ("spanish"@, "es-ES"@) }
    else if k == 3 { ("french"@, "fr-FR"@) }
    else if k == 4 { ("german"@, "de-DE"@) }
    else if k == 5 { ("japanese"@, "ja-JP"@) }
    else if k == 6 { ("korean"@, "ko-KR"@) }
    else if k == 7 { ("russian"@, "ru-RU"@) }
    else if k == 8 { ("arabic"@, "ar-SA"@) }
    else { ("hindi"@, "hi-IN"@) }
}

/// Number of rows of the language-name table.
pub const LANGUAGE_ROWS: usize = 10;

/// The table step of the lookup, from row `k` on: the first row whose name
/// `key` contains and for which some voice has that locale prefix.
pub open spec fn table_pick(vs: Seq<EdgeVoice>, key: Seq<char>, k: int) -> Option<int>
    decreases 10 - k,
{
    if k < 0 || k >= 10 {
        None
    } else if seq_contains(key, language_row(k).0) && first_locale_starts(vs, language_row(k).1, 0) is Some {
        first_locale_starts(vs, language_row(k).1, 0)
    } else {
        table_pick(vs, key, k + 1)
    }
}

/// The voice found for a language: a locale containing the lowercased name,
/// else the table, else the first voice whose locale begins with `en-`, else
/// the first voice; nothing only for an empty directory.
pub open spec fn voice_for_language(vs: Seq<EdgeVoice>, language: Seq<char>) -> Option<int> {
    let key = lower_of(language);
    match first_locale_has(vs, key, 0) {
        Some(i) => Some(i),
        None => match table_pick(vs, key, 0) {
            Some(i) => Some(i),
            None => match first_locale_starts(vs, "en-"@, 0) {
                Some(i) => Some(i),
                None => if vs.len() > 0 { Some(0) } else { None },
            },
        },
    }
}

proof fn lemma_first_locale_has_bound(vs: Seq<EdgeVoice>, key: Seq<char>, i: int)
    requires
        first_locale_has(vs, key, i) is Some,
    ensures
        0 <= first_locale_has(vs, key, i)->0 < vs.len(),
    decreases vs.len() - i,
{
    if !(i < 0 || i >= vs.len()) && !locale_has(vs[i], key) {
        lemma_first_locale_has_bound(vs, key, i + 1);
    }
}

proof fn lemma_first_locale_starts_bound(vs: Seq<EdgeVoice>, prefix: Seq<char>, i: int)
    requires
        first_locale_starts(vs, prefix, i) is Some,
    ensures
        0 <= first_locale_starts(vs, prefix, i)->0 < vs.len(),
    decreases vs.len() - i,
{
    if !(i < 0 || i >= vs.len()) && !locale_starts(vs[i], prefix) {
        lemma_first_locale_starts_bound(vs, prefix, i + 1);
    }
}

fn language_row_exec(k: usize) -> (r: (&'static str, &'static str))
    requires
        k < 10,
    ensures
        r.0@ == language_row(k as int).0,
        r.1@ == language_row(k as int).1,
{
    if k == 0 { ("english", "en-US") }
    else if k == 1 { ("chinese", "zh-CN") }
    else if k == 2 { ("spanish", "es-ES") }
    else if k == 3 { ("french", "fr-FR") }
    else if k == 4 { ("german", "de-DE") }
    else if k == 5 { ("japanese", "ja-JP") }
    else if k == 6 { ("korean", "ko-KR") }
    else if k == 7 { ("russian", "ru-RU") }
    else if k == 8 { ("arabic", "ar-SA") }
    else { ("hindi", "hi-IN") }
}

fn find_locale_has(vs: &Vec<EdgeVoice>, key: &str) -> (r: Option<usize>)
    ensures
        r matches Some(i) ==> first_locale_has(vs@, key@, 0) == Some(i as int),
        r is None ==> first_locale_has(vs@, key@, 0) is None,
{
    let mut i: usize = 0;
    while i < vs.len()
        invariant
            i <= vs@.len(),
            first_locale_has(vs@, key@, 0) == first_locale_has(vs@, key@, i as int),
        decreases vs@.len() - i,
    {
        let l = lowercase(vs[i].locale.as_str());
        if str_contains(l.as_str(), key) {
            return Some(i);
        }
        i = i + 1;
    }
    None
}

fn find_locale_starts(vs: &Vec<EdgeVoice>, prefix: &str) -> (r: Option<usize>)
    ensures
        r matches Some(i) ==> first_locale_starts(vs@, prefix@, 0) == Some(i as int),
        r is None ==> first_locale_starts(vs@, prefix@, 0) is None,
{
    let mut i: usize = 0;
    while i < vs.len()
        invariant
            i <= vs@.len(),
            first_locale_starts(vs@, prefix@, 0) == first_locale_starts(vs@, prefix@, i as int),
        decreases vs@.len() - i,
    {
        if str_starts_with(vs[i].locale.as_str(), prefix) {
            return Some(i);
        }
        i = i + 1;
    }
    None
}

impl EdgeTTSClient {
    /// A directory over voices already fetched.
    pub fn from_voices(voices: Vec<EdgeVoice>) -> (r: EdgeTTSClient)
        ensures
            r.voices == voices,
    {
        EdgeTTSClient { voices }
    }

    /// All voices, in the order the service listed them.
    pub fn get_voices(&self) -> (r: &[EdgeVoice])
        ensures
            r@ == self.voices@,
    {
        self.voices.as_slice()
    }

    /// Index of the voice for a language (see `voice_for_language`).
    pub fn find_voice_index(&self, language: &str) -> (r: Option<usize>)
        ensures
            r matches Some(i) ==> voice_for_language(self.voices@, language@) == Some(i as int) && i
                < self.voices@.len(),
            r is None ==> voice_for_language(self.voices@, language@) is None,
            r is None <==> self.voices@.len() == 0,
    {
        let key = lowercase(language);
        match find_locale_has(&self.voices, key.as_str()) {
            Some(i) => {
                proof { lemma_first_locale_has_bound(self.voices@, key@, 0); }
                return Some(i);
            },
            None => {},
        }
        let mut k: usize = 0;
        while k < LANGUAGE_ROWS
            invariant
                k <= 10,
                key@ == lower_of(language@),
                first_locale_has(self.voices@, key@, 0) is None,
                table_pick(self.voices@, key@, 0) == table_pick(self.voices@, key@, k as int),
            decreases 10 - k,
        {
            let (name, code) = language_row_exec(k);
            if str_contains(key.as_str(), name) {
                match find_locale_starts(&self.voices, code) {
                    Some(i) => {
                        proof { lemma_first_locale_starts_bound(self.voices@, code@, 0); }
                        return Some(i);
                    },
                    None => {},
                }
            }
            k = k + 1;
        }
        match find_locale_starts(&self.voices, "en-") {
            Some(i) => {
                proof { lemma_first_locale_starts_bound(self.voices@, "en-"@, 0); }
                Some(i)
            },
            None => if self.voices.len() > 0 { Some(0) } else { None },
        }
    }

    /// The voice for a language: one whose locale contains the lowercased
    /// name, else one found through the language-name table, else the first
    /// English one, else the first one; nothing only for an empty directory.
    pub fn find_voice_by_language(&self, language: &str) -> (r: Option<&EdgeVoice>)
        ensures
            r matches Some(v) ==> voice_for_language(self.voices@, language@) matches Some(i) && *v
                == self.voices@[i],
            r is None ==> voice_for_language(self.voices@, language@) is None,
            r is None <==> self.voices@.len() == 0,
    {
        match self.find_voice_index(language) {
            Some(i) => Some(&self.voices[i]),
            None => None,
        }
    }

    /// Index of the first voice whose short name or full name is `voice_name`.
    pub fn find_voice_by_name(&self, voice_name: &str) -> (r: Option<usize>)
        ensures
            r matches Some(i) ==> i < self.voices@.len() && (self.voices@[i as int].short_name@
                == voice_name@ || self.voices@[i as int].name@ == voice_name@) && forall|j: int|
                0 <= j < i ==> self.voices@[j].short_name@ != voice_name@ && self.voices@[j].name@
                != voice_name@,
            r is None ==> forall|j: int|
                0 <= j < self.voices@.len() ==> self.voices@[j].short_name@ != voice_name@
                    && self.voices@[j].name@ != voice_name@,
    {
        let mut i: usize = 0;
        while i < self.voices.len()
            invariant
                i <= self.voices@.len(),
                forall|j: int|
                    0 <= j < i ==> self.voices@[j].short_name@ != voice_name@ && self.voices@[j].name@
                        != voice_name@,
            decreases self.voices@.len() - i,
        {
            if str_eq(self.voices[i].short_name.as_str(), voice_name) || str_eq(
                self.voices[i].name.as_str(),
                voice_name,
            ) {
                return Some(i);
            }
            i = i + 1;
        }
        None
    }
}

/// The locale prefixes that name a language when grouping voices.
pub open spec fn prefix_row(k: int) -> (Seq<char>, Seq<char>) {
    if k == 0 { ("en-"@, "English"@) }
    else if k == 1 { ("zh-"@, "Chinese"@) }
    else if k == 2 { ("es-"@, "Spanish"@) }
    else if k == 3 { ("fr-"@, "French"@) }
    else if k == 4 { ("de-"@, "German"@) }
    else if k == 5 { ("ja-"@, "Japanese"@) }
    else if k == 6 { ("ko-"@, "Korean"@) }
    else if k == 7 { ("ru-"@, "Russian"@) }
    else if k == 8 { ("ar-"@, "Arabic"@) }
    else { ("hi-"@, "Hindi"@) }
}

/// The language a locale is grouped under, from row `k` of the prefix table on;
/// a locale that no row matches stands for itself.
pub open spec fn group_name_from(locale: Seq<char>, k: int) -> Seq<char>
    decreases 10 - k,
{
    if k < 0 || k >= 10 {
        locale
    } else if seq_starts_with(locale, prefix_row(k).0) {
        prefix_row(k).1
    } else {
        group_name_from(locale, k + 1)
    }
}

/// The language a locale is grouped under.
pub open spec fn group_name(locale: Seq<char>) -> Seq<char> {
    group_name_from(locale, 0)
}

/// Groups as plain values: a language and the friendly names under it.
pub type GroupsView = Seq<(Seq<char>, Seq<Seq<char>>)>;

/// The first group at or after `j` named `lang`.
pub open spec fn group_index_from(gs: GroupsView, lang: Seq<char>, j: int) -> Option<int>
    decreases gs.len() - j,
{
    if j < 0 || j >= gs.len() {
        None
    } else if gs[j].0 == lang {
        Some(j)
    } else {
        group_index_from(gs, lang, j + 1)
    }
}

/// Adds a friendly name under its language: to the existing group, else to a new one at the end.
pub open spec fn group_add(gs: GroupsView, lang: Seq<char>, name: Seq<char>) -> GroupsView {
    match group_index_from(gs, lang, 0) {
        Some(j) => gs.update(j, (lang, gs[j].1.push(name))),
        None => gs.push((lang, seq![name])),
    }
}

/// The voices grouped by language, groups in order of first appearance.
pub open spec fn grouped(vs: Seq<EdgeVoice>) -> GroupsView
    decreases vs.len(),
{
    if vs.len() == 0 {
        Seq::empty()
    } else {
        group_add(grouped(vs.drop_last()), group_name(vs.last().locale@), vs.last().friendly_name@)
    }
}

/// A language and the friendly names of its voices.
#[derive(Debug)]
pub struct LanguageGroup {
    pub language: String,
    pub voices: Vec<String>,
}

/// The plain view of a list of groups.
pub open spec fn groups_view(gs: Seq<LanguageGroup>) -> GroupsView {
    gs.map_values(|g: LanguageGroup| (g.language@, g.voices@.map_values(|s: String| s@)))
}

fn prefix_row_exec(k: usize) -> (r: (&'static str, &'static str))
    requires
        k < 10,
    ensures
        r.0@ == prefix_row(k as int).0,
        r.1@ == prefix_row(k as int).1,
{
    if k == 0 { ("en-", "English") }
    else if k == 1 { ("zh-", "Chinese") }
    else if k == 2 { ("es-", "Spanish") }
    else if k == 3 { ("fr-", "French") }
    else if k == 4 { ("de-", "German") }
    else if k == 5 { ("ja-", "Japanese") }
    else if k == 6 { ("ko-", "Korean") }
    else if k == 7 { ("ru-", "Russian") }
    else if k == 8 { ("ar-", "Arabic") }
    else { ("hi-", "Hindi") }
}

/// The language a locale is grouped under.
pub fn language_of_locale(locale: &str) -> (r: String)
    ensures
        r@ == group_name(locale@),
{
    let mut k: usize = 0;
    while k < 10
        invariant
            k <= 10,
            group_name(locale@) == group_name_from(locale@, k as int),
        decreases 10 - k,
    {
        let (prefix, lang) = prefix_row_exec(k);
        if str_starts_with(locale, prefix) {
            return owned(lang);
        }
        k = k + 1;
    }
    owned(locale)
}

proof fn lemma_group_index_found(gs: GroupsView, lang: Seq<char>, j: int)
    requires
        group_index_from(gs, lang, j) is Some,
    ensures
        0 <= group_index_from(gs, lang, j)->0 < gs.len(),
        gs[group_index_from(gs, lang, j)->0].0 == lang,
    decreases gs.len() - j,
{
    if !(j < 0 || j >= gs.len()) && gs[j].0 != lang {
        lemma_group_index_found(gs, lang, j + 1);
    }
}

fn find_group(gs: &Vec<LanguageGroup>, lang: &str) -> (r: Option<usize>)
    ensures
        r matches Some(j) ==> group_index_from(groups_view(gs@), lang@, 0) == Some(j as int) && j < gs@.len(),
        r is None ==> group_index_from(groups_view(gs@), lang@, 0) is None,
{
    let ghost g = groups_view(gs@);
    let mut j: usize = 0;
    while j < gs.len()
        invariant
            j <= gs@.len(),
            g == groups_view(gs@),
            group_index_from(g, lang@, 0) == group_index_from(g, lang@, j as int),
        decreases gs@.len() - j,
    {
        if str_eq(gs[j].language.as_str(), lang) {
            return Some(j);
        }
        j = j + 1;
    }
    None
}

impl EdgeTTSClient {
    /// Friendly names of the voices grouped by language (by locale prefix;
    /// an unknown prefix groups under the locale itself), groups in order of
    /// first appearance.
    pub fn get_voices_by_language(&self) -> (r: Vec<LanguageGroup>)
        ensures
            groups_view(r@) == grouped(self.voices@),
    {
        let mut gs: Vec<LanguageGroup> = Vec::new();
        let mut i: usize = 0;
        while i < self.voices.len()
            invariant
                i <= self.voices@.len(),
                groups_view(gs@) == grouped(self.voices@.subrange(0, i as int)),
            decreases self.voices@.len() - i,
        {
            let ghost pre = groups_view(gs@);
            proof {
                let sub = self.voices@.subrange(0, i + 1);
                assert(sub.drop_last() =~= self.voices@.subrange(0, i as int));
                assert(sub.last() == self.voices@[i as int]);
            }
            let lang = language_of_locale(self.voices[i].locale.as_str());
            let name = self.voices[i].friendly_name.clone();
            let ghost nv = name@;
            let ghost old_gs = gs@;
            match find_group(&gs, lang.as_str()) {
                Some(j) => {
                    let mut g = gs.remove(j);
                    let ghost g0 = g;
                    assert(g0 == old_gs[j as int]);
                    g.voices.push(name);
                    gs.insert(j, g);
                    assert(gs@ =~= old_gs.update(j as int, g));
                    assert(g.voices@.map_values(|s: String| s@) =~= g0.voices@.map_values(|s: String| s@).push(nv));
                    proof { lemma_group_index_found(pre, lang@, 0); }
                    assert(pre[j as int].0 == lang@);
                    assert(groups_view(gs@) =~= pre.update(j as int, (lang@, pre[j as int].1.push(nv))));
                },
                None => {
                    let mut names: Vec<String> = Vec::new();
                    names.push(name);
                    assert(names@.map_values(|s: String| s@) =~= seq![nv]);
                    let ng = LanguageGroup { language: lang, voices: names };
                    gs.push(ng);
                    assert(gs@ =~= old_gs.push(ng));
                    assert(groups_view(gs@) =~= pre.push((ng.language@, seq![nv])));
                },
            }
            i = i + 1;
        }
        assert(self.voices@.subrange(0, self.voices@.len() as int) =~= self.voices@);
        gs
    }
}

/// The voice and locale that a remote attempt speaks with for a profile:
/// the directory's voice for the profile's locale when a directory is at hand
/// and has one, else the profile's own remote voice id and locale.
pub fn remote_voice_for(directory: Option<&EdgeTTSClient>, profile: &VoiceInfo) -> (r: (String, String))
    ensures
        ({
            let found = match directory {
                Some(d) => voice_for_language(d.voices@, profile.locale@),
                None => None,
            };
            match found {
                Some(i) => r.0@ == directory->0.voices@[i].short_name@ && r.1@ == directory->0.voices@[i].locale@,
                None => r.0@ == profile.edge_voice@ && r.1@ == profile.locale@,
            }
        }),
{
    match directory {
        Some(d) => match d.find_voice_index(profile.locale.as_str()) {
            Some(i) => {
                return (d.voices[i].short_name.clone(), d.voices[i].locale.clone());
            },
            None => {},
        },
        None => {},
    }
    (profile.edge_voice.clone(), profile.locale.clone())
}

} // verus!
