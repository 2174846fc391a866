//! The static voice catalog, voice selection, script detection and cache keys.
use vstd::prelude::*;
use crate::text::{lower_of, lowercase, str_eq, owned};

verus! {

/// A speaker profile usable by the synthesis strategies.
#[derive(Debug)]
pub struct VoiceInfo {
    pub name: String,
    pub display_name: String,
    pub language: String,
    pub gender: String,
    pub locale: String,
    pub edge_voice: String,
}

impl VoiceInfo {
    pub fn new(
        name: &str,
        display_name: &str,
        language: &str,
        gender: &str,
        locale: &str,
        edge_voice: &str,
    ) -> (r: VoiceInfo)
        ensures
            r.name@ == name@,
            r.display_name@ == display_name@,
            r.language@ == language@,
            r.gender@ == gender@,
            r.locale@ == locale@,
            r.edge_voice@ == edge_voice@,
    {
        VoiceInfo {
            name: owned(name),
            display_name: owned(display_name),
            language: owned(language),
            gender: owned(gender),
            locale: owned(locale),
            edge_voice: owned(edge_voice),
        }
    }

    /// A field-by-field copy.
    pub fn duplicate(&self) -> (r: VoiceInfo)
        ensures
            r == *self,
    {
        VoiceInfo {
            name: self.name.clone(),
            display_name: self.display_name.clone(),
            language: self.language.clone(),
            gender: self.gender.clone(),
            locale: self.locale.clone(),
            edge_voice: self.edge_voice.clone(),
        }
    }
}

/// The profile used when the catalog holds none for a language.
pub open spec fn is_default_voice(v: VoiceInfo) -> bool {
    &&& v.name@ == "en-US-AriaNeural"@
    &&& v.display_name@ == "Aria (English US)"@
    &&& v.language@ == "English"@
    &&& v.gender@ == "Female"@
    &&& v.locale@ == "en-US"@
    &&& v.edge_voice@ == "en-US-AriaNeural"@
}

/// The profile's language equals `key` once lowercased.
pub open spec fn speaks(v: VoiceInfo, key: Seq<char>) -> bool {
    lower_of(v.language@) == key
}

/// Some profile of `vs` speaks `key`.
pub open spec fn any_speaks(vs: Seq<VoiceInfo>, key: Seq<char>) -> bool {
    exists|i: int| 0 <= i < vs.len() && speaks(vs[i], key)
}

/// `i` is the first profile of `vs` that speaks `key`.
pub open spec fn first_speaker(vs: Seq<VoiceInfo>, key: Seq<char>, i: int) -> bool {
    &&& 0 <= i < vs.len()
    &&& speaks(vs[i], key)
    &&& forall|j: int| 0 <= j < i ==> !speaks(vs[j], key)
}

/// The profiles of `vs` that speak `key`, in catalog order.
pub open spec fn speakers(vs: Seq<VoiceInfo>, key: Seq<char>) -> Seq<VoiceInfo>
    decreases vs.len(),
{
    if vs.len() == 0 {
        Seq::empty()
    } else if speaks(vs.last(), key) {
        speakers(vs.drop_last(), key).push(vs.last())
    } else {
        speakers(vs.drop_last(), key)
    }
}

/// The profile chosen for a language: the first whose language matches
/// case-insensitively, else the first English one, else the built-in default.
pub open spec fn selected_voice(vs: Seq<VoiceInfo>, language: Seq<char>, r: VoiceInfo) -> bool {
    if any_speaks(vs, lower_of(language)) {
        exists|i: int| first_speaker(vs, lower_of(language), i) && r == vs[i]
    } else if any_speaks(vs, "english"@) {
        exists|i: int| first_speaker(vs, "english"@, i) && r == vs[i]
    } else {
        is_default_voice(r)
    }
}

/// The catalog of voices and the directory that holds cached audio.
#[derive(Debug)]
pub struct TTSEngine {
    pub voices: Vec<VoiceInfo>,
    pub cache_dir: String,
}

/// Relies on `dirs::cache_dir`: the user's cache directory, when the platform has one.
#[verifier::external_body]
fn user_cache_dir() -> (r: Option<String>) {
    dirs::cache_dir().map(|p| p.to_string_lossy().into_owned())
}

/// Index of the first profile whose lowercased language is `key`.
fn find_speaker(vs: &Vec<VoiceInfo>, key: &str) -> (r: Option<usize>)
    ensures
        r matches Some(i) ==> first_speaker(vs@, key@, i as int),
        r is None ==> !any_speaks(vs@, key@),
{
    let mut i: usize = 0;
    while i < vs.len()
        invariant
            i <= vs@.len(),
            forall|j: int| 0 <= j < i ==> !speaks(vs@[j], key@),
        decreases vs@.len() - i,
    {
        let l = lowercase(vs[i].language.as_str());
        if str_eq(l.as_str(), key) {
            return Some(i);
        }
        i = i + 1;
    }
    None
}

/// Where cached audio lives: `alouette/tts_cache` under the user's cache
/// directory, else `alouette_tts_cache` under the temporary directory.
pub open spec fn cache_dir_spec(user_cache: Option<Seq<char>>, temp_dir: Seq<char>) -> Seq<char> {
    match user_cache {
        Some(d) => d + "/alouette/tts_cache"@,
        None => temp_dir + "/alouette_tts_cache"@,
    }
}

/// Where cached audio lives: `alouette/tts_cache` under the user's cache
/// directory, else `alouette_tts_cache` under the temporary directory.
pub fn cache_dir_for(user_cache: Option<&str>, temp_dir: &str) -> (r: String)
    ensures
        r@ == cache_dir_spec(
            match user_cache { Some(d) => Some(d@), None => None },
            temp_dir@,
        ),
{
    match user_cache {
        Some(d) => {
            let mut p = owned(d);
            p.append("/alouette/tts_cache");
            p
        },
        None => {
            let mut p = owned(temp_dir);
            p.append("/alouette_tts_cache");
            p
        },
    }
}

impl TTSEngine {
    /// The built-in catalog, with cached audio under the user's cache
    /// directory, or under `temp_dir` where the platform has none.
    pub fn new(temp_dir: &str) -> (r: TTSEngine)
        ensures
            is_catalog(r.voices@),
            exists|u: Option<Seq<char>>| r.cache_dir@ == cache_dir_spec(u, temp_dir@),
    {
        let user = user_cache_dir();
        let dir = match &user {
            Some(d) => cache_dir_for(Some(d.as_str()), temp_dir),
            None => cache_dir_for(None, temp_dir),
        };
        proof {
            let u = match user { Some(d) => Some(d@), None => None::<Seq<char>> };
            assert(dir@ == cache_dir_spec(u, temp_dir@));
        }
        TTSEngine { voices: Self::init_voices(), cache_dir: dir }
    }

    /// The built-in catalog, with cached audio under `cache_dir`.
    pub fn with_cache_dir(cache_dir: &str) -> (r: TTSEngine)
        ensures
            is_catalog(r.voices@),
            r.cache_dir@ == cache_dir@,
    {
        TTSEngine { voices: Self::init_voices(), cache_dir: owned(cache_dir) }
    }

    fn init_voices() -> (r: Vec<VoiceInfo>)
        ensures
            is_catalog(r@),
    {
        let mut v: Vec<VoiceInfo> = Vec::new();
        v.push(VoiceInfo::new("en-US-AriaNeural", "Aria", "English", "Female", "en-US", "en-US-AriaNeural"));
        v.push(VoiceInfo::new("en-US-AndrewNeural", "Andrew", "English", "Male", "en-US", "en-US-AndrewNeural"));
        v.push(VoiceInfo::new("fr-FR-DeniseNeural", "Denise", "French", "Female", "fr-FR", "fr-FR-DeniseNeural"));
        v.push(VoiceInfo::new("fr-FR-HenriNeural", "Henri", "French", "Male", "fr-FR", "fr-FR-HenriNeural"));
        v.push(VoiceInfo::new("es-ES-ElviraNeural", "Elvira", "Spanish", "Female", "es-ES", "es-ES-ElviraNeural"));
        v.push(VoiceInfo::new("es-ES-AlvaroNeural", "Alvaro", "Spanish", "Male", "es-ES", "es-ES-AlvaroNeural"));
        v.push(VoiceInfo::new("it-IT-ElsaNeural", "Elsa", "Italian", "Female", "it-IT", "it-IT-ElsaNeural"));
        v.push(VoiceInfo::new("it-IT-DiegoNeural", "Diego", "Italian", "Male", "it-IT", "it-IT-DiegoNeural"));
        v.push(VoiceInfo::new("ru-RU-SvetlanaNeural", "Svetlana", "Russian", "Female", "ru-RU", "ru-RU-SvetlanaNeural"));
        v.push(VoiceInfo::new("ru-RU-DmitryNeural", "Dmitry", "Russian", "Male", "ru-RU", "ru-RU-DmitryNeural"));
        v.push(VoiceInfo::new("el-GR-AthinaNeural", "Athina", "Greek", "Female", "el-GR", "el-GR-AthinaNeural"));
        v.push(VoiceInfo::new("el-GR-NestorNeural", "Nestor", "Greek", "Male", "el-GR", "el-GR-NestorNeural"));
        v.push(VoiceInfo::new("de-DE-KatjaNeural", "Katja", "German", "Female", "de-DE", "de-DE-KatjaNeural"));
        v.push(VoiceInfo::new("de-DE-ConradNeural", "Conrad", "German", "Male", "de-DE", "de-DE-ConradNeural"));
        v.push(VoiceInfo::new("hi-IN-SwaraNeural", "Swara", "Hindi", "Female", "hi-IN", "hi-IN-SwaraNeural"));
        v.push(VoiceInfo::new("hi-IN-MadhurNeural", "Madhur", "Hindi", "Male", "hi-IN", "hi-IN-MadhurNeural"));
        v.push(VoiceInfo::new("ar-SA-ZariyahNeural", "Zariyah", "Arabic", "Female", "ar-SA", "ar-SA-ZariyahNeural"));
        v.push(VoiceInfo::new("ar-SA-HamedNeural", "Hamed", "Arabic", "Male", "ar-SA", "ar-SA-HamedNeural"));
        v.push(VoiceInfo::new("ja-JP-NanamiNeural", "Nanami", "Japanese", "Female", "ja-JP", "ja-JP-NanamiNeural"));
        v.push(VoiceInfo::new("ja-JP-KeitaNeural", "Keita", "Japanese", "Male", "ja-JP", "ja-JP-KeitaNeural"));
        v.push(VoiceInfo::new("ko-KR-SunHiNeural", "Sun-Hi", "Korean", "Female", "ko-KR", "ko-KR-SunHiNeural"));
        v.push(VoiceInfo::new("ko-KR-InJoonNeural", "InJoon", "Korean", "Male", "ko-KR", "ko-KR-InJoonNeural"));
        v.push(VoiceInfo::new("zh-CN-XiaoxiaoNeural", "Xiaoxiao", "Chinese", "Female", "zh-CN", "zh-CN-XiaoxiaoNeural"));
        v.push(VoiceInfo::new("zh-CN-YunxiNeural", "Yunxi", "Chinese", "Male", "zh-CN", "zh-CN-YunxiNeural"));
        assert(is_catalog(v@));
        v
    }

    pub fn get_available_voices(&self) -> (r: &Vec<VoiceInfo>)
        ensures
            r@ == self.voices@,
    {
        &self.voices
    }

    /// The profiles whose language matches `language` case-insensitively, in catalog order.
    pub fn voices_for_language(&self, language: &str) -> (r: Vec<VoiceInfo>)
        ensures
            r@ == speakers(self.voices@, lower_of(language@)),
    {
        let key = lowercase(language);
        let mut out: Vec<VoiceInfo> = Vec::new();
        let mut i: usize = 0;
        while i < self.voices.len()
            invariant
                i <= self.voices@.len(),
                key@ == lower_of(language@),
                out@ == speakers(self.voices@.subrange(0, i as int), key@),
            decreases self.voices@.len() - i,
        {
            let l = lowercase(self.voices[i].language.as_str());
            proof {
                assert(self.voices@.subrange(0, i + 1).drop_last() =~= self.voices@.subrange(0, i as int));
            }
            if str_eq(l.as_str(), key.as_str()) {
                out.push(self.voices[i].duplicate());
            }
            i = i + 1;
        }
        assert(self.voices@.subrange(0, self.voices@.len() as int) =~= self.voices@);
        out
    }

    /// The profile for a language; never fails.
    pub fn select_voice_for_language(&self, language: &str) -> (r: VoiceInfo)
        ensures
            selected_voice(self.voices@, language@, r),
    {
        let key = lowercase(language);
        match find_speaker(&self.voices, key.as_str()) {
            Some(i) => {
                return self.voices[i].duplicate();
            },
            None => {},
        }
        match find_speaker(&self.voices, "english") {
            Some(i) => {
                return self.voices[i].duplicate();
            },
            None => {},
        }
        VoiceInfo::new("en-US-AriaNeural", "Aria (English US)", "English", "Female", "en-US", "en-US-AriaNeural")
    }
}

/// Row `i` of the built-in catalog: name, display name, language, gender, locale, remote voice id.
pub open spec fn catalog_row(i: int) -> (Seq<char>, Seq<char>, Seq<char>, Seq<char>, Seq<char>, Seq<char>) {
    if i == 0 {
        ("en-US-AriaNeural"@, "Aria"@, "English"@, "Female"@, "en-US"@, "en-US-AriaNeural"@)
    } else if i == 1 {
        ("en-US-AndrewNeural"@, "Andrew"@, "English"@, "Male"@, "en-US"@, "en-US-AndrewNeural"@)
    } else if i == 2 {
        ("fr-FR-DeniseNeural"@, "Denise"@, "French"@, "Female"@, "fr-FR"@, "fr-FR-DeniseNeural"@)
    } else if i == 3 {
        ("fr-FR-HenriNeural"@, "Henri"@, "French"@, "Male"@, "fr-FR"@, "fr-FR-HenriNeural"@)
    } else if i == 4 {
        ("es-ES-ElviraNeural"@, "Elvira"@, "Spanish"@, "Female"@, "es-ES"@, "es-ES-ElviraNeural"@)
    } else if i == 5 {
        ("es-ES-AlvaroNeural"@, "Alvaro"@, "Spanish"@, "Male"@, "es-ES"@, "es-ES-AlvaroNeural"@)
    } else if i == 6 {
        ("it-IT-ElsaNeural"@, "Elsa"@, "Italian"@, "Female"@, "it-IT"@, "it-IT-ElsaNeural"@)
    } else if i == 7 {
        ("it-IT-DiegoNeural"@, "Diego"@, "Italian"@, "Male"@, "it-IT"@, "it-IT-DiegoNeural"@)
    } else if i == 8 {
        ("ru-RU-SvetlanaNeural"@, "Svetlana"@, "Russian"@, "Female"@, "ru-RU"@, "ru-RU-SvetlanaNeural"@)
    } else if i == 9 {
        ("ru-RU-DmitryNeural"@, "Dmitry"@, "Russian"@, "Male"@, "ru-RU"@, "ru-RU-DmitryNeural"@)
    } else if i == 10 {
        ("el-GR-AthinaNeural"@, "Athina"@, "Greek"@, "Female"@, "el-GR"@, "el-GR-AthinaNeural"@)
    } else if i == 11 {
        ("el-GR-NestorNeural"@, "Nestor"@, "Greek"@, "Male"@, "el-GR"@, "el-GR-NestorNeural"@)
    } else if i == 12 {
        ("de-DE-KatjaNeural"@, "Katja"@, "German"@, "Female"@, "de-DE"@, "de-DE-KatjaNeural"@)
    } else if i == 13 {
        ("de-DE-ConradNeural"@, "Conrad"@, "German"@, "Male"@, "de-DE"@, "de-DE-ConradNeural"@)
    } else if i == 14 {
        ("hi-IN-SwaraNeural"@, "Swara"@, "Hindi"@, "Female"@, "hi-IN"@, "hi-IN-SwaraNeural"@)
    } else if i == 15 {
        ("hi-IN-MadhurNeural"@, "Madhur"@, "Hindi"@, "Male"@, "hi-IN"@, "hi-IN-MadhurNeural"@)
    } else if i == 16 {
        ("ar-SA-ZariyahNeural"@, "Zariyah"@, "Arabic"@, "Female"@, "ar-SA"@, "ar-SA-ZariyahNeural"@)
    } else if i == 17 {
        ("ar-SA-HamedNeural"@, "Hamed"@, "Arabic"@, "Male"@, "ar-SA"@, "ar-SA-HamedNeural"@)
    } else if i == 18 {
        ("ja-JP-NanamiNeural"@, "Nanami"@, "Japanese"@, "Female"@, "ja-JP"@, "ja-JP-NanamiNeural"@)
    } else if i == 19 {
        ("ja-JP-KeitaNeural"@, "Keita"@, "Japanese"@, "Male"@, "ja-JP"@, "ja-JP-KeitaNeural"@)
    } else if i == 20 {
        ("ko-KR-SunHiNeural"@, "Sun-Hi"@, "Korean"@, "Female"@, "ko-KR"@, "ko-KR-SunHiNeural"@)
    } else if i == 21 {
        ("ko-KR-InJoonNeural"@, "InJoon"@, "Korean"@, "Male"@, "ko-KR"@, "ko-KR-InJoonNeural"@)
    } else if i == 22 {
        ("zh-CN-XiaoxiaoNeural"@, "Xiaoxiao"@, "Chinese"@, "Female"@, "zh-CN"@, "zh-CN-XiaoxiaoNeural"@)
    } else {
        ("zh-CN-YunxiNeural"@, "Yunxi"@, "Chinese"@, "Male"@, "zh-CN"@, "zh-CN-YunxiNeural"@)
    }
}

/// The voices are the built-in catalog, in order.
pub open spec fn is_catalog(vs: Seq<VoiceInfo>) -> bool {
    &&& vs.len() == 24
    &&& forall|i: int| 0 <= i < 24 ==> {
        let r = catalog_row(i);
        &&& (#[trigger] vs[i]).name@ == r.0
        &&& vs[i].display_name@ == r.1
        &&& vs[i].language@ == r.2
        &&& vs[i].gender@ == r.3
        &&& vs[i].locale@ == r.4
        &&& vs[i].edge_voice@ == r.5
    }
}

proof fn lemma_speakers_keep_first(vs: Seq<VoiceInfo>, key: Seq<char>)
    requires
        vs.len() > 0,
        speaks(vs[0], key),
    ensures
        speakers(vs, key).len() > 0,
        speakers(vs, key)[0] == vs[0],
    decreases vs.len(),
{
    if vs.len() > 1 {
        assert(vs.drop_last()[0] == vs[0]);
        lemma_speakers_keep_first(vs.drop_last(), key);
        let p = speakers(vs.drop_last(), key);
        if speaks(vs.last(), key) {
            assert(p.push(vs.last())[0] == p[0]);
        }
    } else {
        assert(speakers(vs.drop_last(), key) == Seq::<VoiceInfo>::empty());
        assert(vs.last() == vs[0]);
        assert(Seq::<VoiceInfo>::empty().push(vs[0])[0] == vs[0]);
    }
}

/// The catalog offers at least one voice for any language name that its
/// first profile's language matches case-insensitively ("English" among them),
/// and selection then picks a profile of that language.
pub proof fn lemma_catalog_speaks_english(vs: Seq<VoiceInfo>, language: Seq<char>, r: VoiceInfo)
    requires
        is_catalog(vs),
        lower_of(language) == lower_of("English"@),
        selected_voice(vs, language, r),
    ensures
        speakers(vs, lower_of(language)).len() > 0,
        speakers(vs, lower_of(language))[0] == vs[0],
        speaks(r, lower_of(language)),
{
    assert(vs[0].language@ == catalog_row(0).2);
    lemma_speakers_keep_first(vs, lower_of(language));
    assert(any_speaks(vs, lower_of(language)));
}

} // verus!
