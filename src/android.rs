//! The Android speech engine: its voice table and the parameters of a
//! speech request handed to the platform's own synthesizer.
use vstd::prelude::*;
use crate::orchestrator::{is_blank, is_blank_text};
use crate::text::{lower_of, lowercase, owned, str_eq};

verus! {

/// A voice of the Android speech engine.
#[derive(Debug)]
pub struct AndroidVoice {
    pub name: String,
    pub language: String,
    pub country: String,
    pub locale: String,
}

/// The Android engine and the voices it offers.
#[derive(Debug)]
pub struct AndroidTTSEngine {
    pub available_voices: Vec<AndroidVoice>,
}

/// Longest text, in bytes, that one Android speech request takes.
pub const ANDROID_MAX_TEXT_BYTES: usize = 4000;

fn android_voice(name: &str, language: &str, country: &str, locale: &str) -> (r: AndroidVoice)
    ensures
        r.name@ == name@,
        r.language@ == language@,
        r.country@ == country@,
        r.locale@ == locale@,
{
    AndroidVoice { name: owned(name), language: owned(language), country: owned(country), locale: owned(locale) }
}

/// Row `i` of the Android voice table: name, language, country, locale.
pub open spec fn android_row(i: int) -> (Seq<char>, Seq<char>, Seq<char>, Seq<char>) {
    if i == 0 {
        ("en-US-default"@, "English"@, "US"@, "en-US"@)
    } else if i == 1 {
        ("es-ES-default"@, "Spanish"@, "ES"@, "es-ES"@)
    } else if i == 2 {
        ("fr-FR-default"@, "French"@, "FR"@, "fr-FR"@)
    } else if i == 3 {
        ("de-DE-default"@, "German"@, "DE"@, "de-DE"@)
    } else if i == 4 {
        ("it-IT-default"@, "Italian"@, "IT"@, "it-IT"@)
    } else if i == 5 {
        ("ru-RU-default"@, "Russian"@, "RU"@, "ru-RU"@)
    } else if i == 6 {
        ("zh-CN-default"@, "Chinese"@, "CN"@, "zh-CN"@)
    } else if i == 7 {
        ("ja-JP-default"@, "Japanese"@, "JP"@, "ja-JP"@)
    } else if i == 8 {
        ("ko-KR-default"@, "Korean"@, "KR"@, "ko-KR"@)
    } else if i == 9 {
        ("ar-SA-default"@, "Arabic"@, "SA"@, "ar-SA"@)
    } else {
        ("hi-IN-default"@, "Hindi"@, "IN"@, "hi-IN"@)
    }
}

/// The voices hold the Android table, in order.
pub open spec fn is_android_table(vs: Seq<AndroidVoice>) -> bool {
    &&& vs.len() == 11
    &&& forall|i: int| 0 <= i < 11 ==> {
        let r = android_row(i);
        &&& (#[trigger] vs[i]).name@ == r.0
        &&& vs[i].language@ == r.1
        &&& vs[i].country@ == r.2
        &&& vs[i].locale@ == r.3
    }
}

/// The speech parameters for a lowercased language name: voice, locale,
/// pitch and rate (both in tenths). English parameters stand in for unknown names.
pub open spec fn android_params(key: Seq<char>) -> (Seq<char>, Seq<char>, u32, u32) {
    if key == "english"@ {
        ("en-US-default"@, "en-US"@, 10u32, 10u32)
    } else if key == "spanish"@ {
        ("es-ES-default"@, "es-ES"@, 10u32, 9u32)
    } else if key == "french"@ {
        ("fr-FR-default"@, "fr-FR"@, 11u32, 9u32)
    } else if key == "italian"@ {
        ("it-IT-default"@, "it-IT"@, 10u32, 9u32)
    } else if key == "russian"@ {
        ("ru-RU-default"@, "ru-RU"@, 9u32, 8u32)
    } else if key == "greek"@ {
        ("el-GR-default"@, "el-GR"@, 10u32, 9u32)
    } else if key == "german"@ {
        ("de-DE-default"@, "de-DE"@, 9u32, 9u32)
    } else if key == "hindi"@ {
        ("hi-IN-default"@, "hi-IN"@, 10u32, 8u32)
    } else if key == "arabic"@ {
        ("ar-SA-default"@, "ar-SA"@, 10u32, 8u32)
    } else if key == "japanese"@ {
        ("ja-JP-default"@, "ja-JP"@, 11u32, 9u32)
    } else if key == "korean"@ {
        ("ko-KR-default"@, "ko-KR"@, 10u32, 9u32)
    } else if key == "chinese"@ {
        ("zh-CN-default"@, "zh-CN"@, 10u32, 8u32)
    } else {
        ("en-US-default"@, "en-US"@, 10u32, 10u32)
    }
}

fn android_params_exec(key: &str) -> (r: (&'static str, &'static str, u32, u32))
    ensures
        r.0@ == android_params(key@).0,
        r.1@ == android_params(key@).1,
        r.2 == android_params(key@).2,
        r.3 == android_params(key@).3,
{
    if str_eq(key, "english") {
        ("en-US-default", "en-US", 10u32, 10u32)
    } else if str_eq(key, "spanish") {
        ("es-ES-default", "es-ES", 10u32, 9u32)
    } else if str_eq(key, "french") {
        ("fr-FR-default", "fr-FR", 11u32, 9u32)
    } else if str_eq(key, "italian") {
        ("it-IT-default", "it-IT", 10u32, 9u32)
    } else if str_eq(key, "russian") {
        ("ru-RU-default", "ru-RU", 9u32, 8u32)
    } else if str_eq(key, "greek") {
        ("el-GR-default", "el-GR", 10u32, 9u32)
    } else if str_eq(key, "german") {
        ("de-DE-default", "de-DE", 9u32, 9u32)
    } else if str_eq(key, "hindi") {
        ("hi-IN-default", "hi-IN", 10u32, 8u32)
    } else if str_eq(key, "arabic") {
        ("ar-SA-default", "ar-SA", 10u32, 8u32)
    } else if str_eq(key, "japanese") {
        ("ja-JP-default", "ja-JP", 11u32, 9u32)
    } else if str_eq(key, "korean") {
        ("ko-KR-default", "ko-KR", 10u32, 9u32)
    } else if str_eq(key, "chinese") {
        ("zh-CN-default", "zh-CN", 10u32, 8u32)
    } else {
        ("en-US-default", "en-US", 10u32, 10u32)
    }
}

/// The language code of a locale: everything before its first `-`.
pub open spec fn language_code(locale: Seq<char>) -> Seq<char>
    decreases locale.len(),
{
    if locale.len() == 0 {
        Seq::empty()
    } else if locale[0] == '-' {
        Seq::empty()
    } else {
        seq![locale[0]] + language_code(locale.drop_first())
    }
}

/// The locales to try after a primary one, by its language code.
pub open spec fn fallback_locales_spec(primary: Seq<char>) -> Seq<Seq<char>> {
    let code = language_code(primary);
    if code == "en"@ {
        seq!["en-US"@, "en-GB"@, "en-AU"@]
    } else if code == "es"@ {
        seq!["es-ES"@, "es-MX"@, "es-AR"@]
    } else if code == "fr"@ {
        seq!["fr-FR"@, "fr-CA"@, "fr-BE"@]
    } else if code == "de"@ {
        seq!["de-DE"@, "de-AT"@, "de-CH"@]
    } else if code == "it"@ {
        seq!["it-IT"@, "it-CH"@]
    } else if code == "zh"@ {
        seq!["zh-CN"@, "zh-TW"@, "zh-HK"@]
    } else if code == "ja"@ {
        seq!["ja-JP"@]
    } else if code == "ko"@ {
        seq!["ko-KR"@]
    } else if code == "ar"@ {
        seq!["ar-SA"@, "ar-EG"@, "ar-AE"@]
    } else if code == "hi"@ {
        seq!["hi-IN"@]
    } else if code == "ru"@ {
        seq!["ru-RU"@, "ru-BY"@]
    } else if code == "el"@ {
        seq!["el-GR"@]
    } else {
        seq![primary, "en-US"@]
    }
}

/// The views of a list of strings.
pub open spec fn views(v: Seq<String>) -> Seq<Seq<char>> {
    v.map_values(|s: String| s@)
}

fn strings(items: &[&str]) -> (r: Vec<String>)
    ensures
        views(r@) == items@.map_values(|s: &str| s@),
{
    let mut out: Vec<String> = Vec::new();
    let mut i: usize = 0;
    while i < items.len()
        invariant
            i <= items@.len(),
            out@.len() == i,
            views(out@) == items@.subrange(0, i as int).map_values(|s: &str| s@),
        decreases items@.len() - i,
    {
        let ghost pre = out@;
        let o = owned(items[i]);
        out.push(o);
        assert forall|j: int| 0 <= j <= i implies #[trigger] views(out@)[j] == items@.subrange(0, i + 1).map_values(|s: &str| s@)[j] by {
            if j < i {
                assert(views(out@)[j] == views(pre)[j]);
            }
        }
        assert(views(out@) =~= items@.subrange(0, i + 1).map_values(|s: &str| s@));
        i = i + 1;
    }
    assert(items@.subrange(0, items@.len() as int) =~= items@);
    out
}

/// The language code of a locale: everything before its first `-`.
pub fn locale_language_code(locale: &str) -> (r: String)
    ensures
        r@ == language_code(locale@),
{
    let n = locale.unicode_len();
    let mut out: Vec<char> = Vec::new();
    let mut i: usize = 0;
    assert(locale@.subrange(0, n as int) =~= locale@);
    assert(out@ + locale@ =~= locale@);
    while i < n
        invariant
            n == locale@.len(),
            i <= n,
            forall|j: int| 0 <= j < i ==> locale@[j] != '-',
            out@ == locale@.subrange(0, i as int),
            language_code(locale@) == out@ + language_code(locale@.subrange(i as int, n as int)),
        decreases n - i,
    {
        let c = locale.get_char(i);
        if c == '-' {
            assert(language_code(locale@.subrange(i as int, n as int)) =~= Seq::<char>::empty());
            assert(out@ + Seq::<char>::empty() =~= out@);
            return crate::text::string_of_chars(out.as_slice());
        }
        proof {
            let rest = locale@.subrange(i as int, n as int);
            assert(rest.drop_first() =~= locale@.subrange(i + 1, n as int));
            assert(out@.push(c) =~= out@ + seq![c]);
            assert((out@ + seq![c]) + language_code(rest.drop_first()) =~= out@ + (seq![c] + language_code(rest.drop_first())));
        }
        out.push(c);
        i = i + 1;
    }
    assert(language_code(locale@.subrange(n as int, n as int)) =~= Seq::<char>::empty());
    assert(out@ + Seq::<char>::empty() =~= out@);
    crate::text::string_of_chars(out.as_slice())
}

/// Parameters of one Android speech request.
#[derive(Debug)]
pub struct AndroidSpeechRequest {
    pub voice_name: String,
    pub locale: String,
    /// Pitch in tenths (10 is normal).
    pub pitch_tenths: u32,
    /// Rate in tenths (10 is normal).
    pub rate_tenths: u32,
    pub fallback_locales: Vec<String>,
}

impl AndroidTTSEngine {
    pub fn new() -> (r: AndroidTTSEngine)
        ensures
            is_android_table(r.available_voices@),
    {
        AndroidTTSEngine { available_voices: Self::init_android_voices() }
    }

    fn init_android_voices() -> (r: Vec<AndroidVoice>)
        ensures
            is_android_table(r@),
    {
        let mut v: Vec<AndroidVoice> = Vec::new();
        v.push(android_voice("en-US-default", "English", "US", "en-US"));
        v.push(android_voice("es-ES-default", "Spanish", "ES", "es-ES"));
        v.push(android_voice("fr-FR-default", "French", "FR", "fr-FR"));
        v.push(android_voice("de-DE-default", "German", "DE", "de-DE"));
        v.push(android_voice("it-IT-default", "Italian", "IT", "it-IT"));
        v.push(android_voice("ru-RU-default", "Russian", "RU", "ru-RU"));
        v.push(android_voice("zh-CN-default", "Chinese", "CN", "zh-CN"));
        v.push(android_voice("ja-JP-default", "Japanese", "JP", "ja-JP"));
        v.push(android_voice("ko-KR-default", "Korean", "KR", "ko-KR"));
        v.push(android_voice("ar-SA-default", "Arabic", "SA", "ar-SA"));
        v.push(android_voice("hi-IN-default", "Hindi", "IN", "hi-IN"));
        assert(is_android_table(v@));
        v
    }

    /// The locales to try after `primary_locale`, by its language code.
    pub fn get_fallback_locales(&self, primary_locale: &str) -> (r: Vec<String>)
        ensures
            views(r@) == fallback_locales_spec(primary_locale@),
    {
        let code = locale_language_code(primary_locale);
        let c = code.as_str();
        let r = 
        if str_eq(c, "en") {
            let a: [&str; 3] = ["en-US", "en-GB", "en-AU"];
            strings(a.as_slice())
        } else if str_eq(c, "es") {
            let a: [&str; 3] = ["es-ES", "es-MX", "es-AR"];
            strings(a.as_slice())
        } else if str_eq(c, "fr") {
            let a: [&str; 3] = ["fr-FR", "fr-CA", "fr-BE"];
            strings(a.as_slice())
        } else if str_eq(c, "de") {
            let a: [&str; 3] = ["de-DE", "de-AT", "de-CH"];
            strings(a.as_slice())
        } else if str_eq(c, "it") {
            let a: [&str; 2] = ["it-IT", "it-CH"];
            strings(a.as_slice())
        } else if str_eq(c, "zh") {
            let a: [&str; 3] = ["zh-CN", "zh-TW", "zh-HK"];
            strings(a.as_slice())
        } else if str_eq(c, "ja") {
            let a: [&str; 1] = ["ja-JP"];
            strings(a.as_slice())
        } else if str_eq(c, "ko") {
            let a: [&str; 1] = ["ko-KR"];
            strings(a.as_slice())
        } else if str_eq(c, "ar") {
            let a: [&str; 3] = ["ar-SA", "ar-EG", "ar-AE"];
            strings(a.as_slice())
        } else if str_eq(c, "hi") {
            let a: [&str; 1] = ["hi-IN"];
            strings(a.as_slice())
        } else if str_eq(c, "ru") {
            let a: [&str; 2] = ["ru-RU", "ru-BY"];
            strings(a.as_slice())
        } else if str_eq(c, "el") {
            let a: [&str; 1] = ["el-GR"];
            strings(a.as_slice())
        } else {
            let a: [&str; 2] = [primary_locale, "en-US"];
            strings(a.as_slice())
        };
        proof {
            assert(views(r@) =~= fallback_locales_spec(primary_locale@));
        }
        r
    }

    /// The request for speaking `text` in `language`: blank text and text
    /// over the byte limit are refused; the voice, locale, pitch and rate
    /// follow the lowercased language name.
    pub fn synthesize_speech(&self, text: &str, language: &str) -> (r: Result<AndroidSpeechRequest, String>)
        ensures
            is_blank(text@) ==> r is Err,
            !is_blank(text@) && text.len() > ANDROID_MAX_TEXT_BYTES ==> r is Err,
            !is_blank(text@) && text.len() <= ANDROID_MAX_TEXT_BYTES ==> (r matches Ok(q) && {
                let p = android_params(lower_of(language@));
                &&& q.voice_name@ == p.0
                &&& q.locale@ == p.1
                &&& q.pitch_tenths == p.2
                &&& q.rate_tenths == p.3
                &&& views(q.fallback_locales@) == fallback_locales_spec(p.1)
            }),
    {
        if is_blank_text(text) {
            return Err(owned("Cannot synthesize empty text"));
        }
        if text.len() > ANDROID_MAX_TEXT_BYTES {
            return Err(owned("Text too long for TTS (max 4000 characters)"));
        }
        let key = lowercase(language);
        let (voice, locale, pitch, rate) = android_params_exec(key.as_str());
        let fallback = self.get_fallback_locales(locale);
        Ok(AndroidSpeechRequest {
            voice_name: owned(voice),
            locale: owned(locale),
            pitch_tenths: pitch,
            rate_tenths: rate,
            fallback_locales: fallback,
        })
    }
}

} // verus!
