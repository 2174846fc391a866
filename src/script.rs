//! Script detection on text, display truncation and the offline voice list.
use vstd::prelude::*;
use crate::catalog::TTSEngine;
use crate::directory::{groups_view, GroupsView, LanguageGroup};
use crate::text::{owned, str_eq};

verus! {

/// Some character of `s` lies in `lo..=hi`.
pub open spec fn has_in(s: Seq<char>, lo: char, hi: char) -> bool {
    exists|i: int| 0 <= i < s.len() && lo <= s[i] && s[i] <= hi
}

/// The script that text appears to be written in, checked in a fixed
/// order: Han, kana, Hangul, Arabic, Devanagari, Cyrillic, Greek.
pub open spec fn detected_script(s: Seq<char>) -> Option<Seq<char>> {
    if has_in(s, '\u{4E00}', '\u{9FFF}') {
        Some("Chinese"@)
    } else if has_in(s, '\u{3040}', '\u{309F}') || has_in(s, '\u{30A0}', '\u{30FF}') {
        Some("Japanese"@)
    } else if has_in(s, '\u{AC00}', '\u{D7AF}') {
        Some("Korean"@)
    } else if has_in(s, '\u{0600}', '\u{06FF}') {
        Some("Arabic"@)
    } else if has_in(s, '\u{0900}', '\u{097F}') {
        Some("Hindi"@)
    } else if has_in(s, '\u{0400}', '\u{04FF}') {
        Some("Russian"@)
    } else if has_in(s, '\u{0370}', '\u{03FF}') {
        Some("Greek"@)
    } else {
        None
    }
}

/// Whether some character of `s` lies in `lo..=hi`.
pub fn any_in_range(s: &str, lo: char, hi: char) -> (r: bool)
    ensures
        r == has_in(s@, lo, hi),
{
    let n = s.unicode_len();
    let mut i: usize = 0;
    while i < n
        invariant
            n == s@.len(),
            i <= n,
            forall|j: int| 0 <= j < i ==> !(lo <= s@[j] && s@[j] <= hi),
        decreases n - i,
    {
        let c = s.get_char(i);
        if lo <= c && c <= hi {
            return true;
        }
        i = i + 1;
    }
    false
}

/// `s` when it has at most `max` characters, else its first `max` characters and `...`.
pub open spec fn truncated(s: Seq<char>, max: nat) -> Seq<char> {
    if s.len() <= max {
        s
    } else {
        s.subrange(0, max as int) + "..."@
    }
}

/// The offline voice list, grouped by language.
pub open spec fn fallback_groups() -> GroupsView {
    seq![
        ("English"@, seq!["en-US-AriaNeural (Aria, Female, Confident & Positive)"@, "en-US-AndrewNeural (Andrew, Male, Warm & Confident)"@]),
        ("French"@, seq!["fr-FR-DeniseNeural (Denise, Female, Elegant)"@, "fr-FR-HenriNeural (Henri, Male, Steady)"@]),
        ("Spanish"@, seq!["es-ES-ElviraNeural (Elvira, Female, Lively)"@, "es-ES-AlvaroNeural (Alvaro, Male, Mature)"@]),
        ("Italian"@, seq!["it-IT-ElsaNeural (Elsa, Female, Warm)"@, "it-IT-DiegoNeural (Diego, Male, Friendly)"@]),
        ("Russian"@, seq!["ru-RU-SvetlanaNeural (Svetlana, Female, Gentle)"@, "ru-RU-DmitryNeural (Dmitry, Male, Deep)"@]),
        ("Greek"@, seq!["el-GR-AthinaNeural (Athina, Female, Clear)"@, "el-GR-NestorNeural (Nestor, Male, Authoritative)"@]),
        ("German"@, seq!["de-DE-KatjaNeural (Katja, Female, Professional)"@, "de-DE-ConradNeural (Conrad, Male, Reliable)"@]),
        ("Hindi"@, seq!["hi-IN-SwaraNeural (Swara, Female, Sweet)"@, "hi-IN-MadhurNeural (Madhur, Male, Magnetic)"@]),
        ("Arabic"@, seq!["ar-SA-ZariyahNeural (Zariyah, Female, Elegant)"@, "ar-SA-HamedNeural (Hamed, Male, Steady)"@]),
        ("Japanese"@, seq!["ja-JP-NanamiNeural (Nanami, Female, Gentle)"@, "ja-JP-KeitaNeural (Keita, Male, Natural)"@]),
        ("Korean"@, seq!["ko-KR-SunHiNeural (Sun-Hi, Female, Bright)"@, "ko-KR-InJoonNeural (InJoon, Male, Mature)"@]),
        ("Chinese"@, seq!["zh-CN-XiaoxiaoNeural (Xiaoxiao, Female, Warm)"@, "zh-CN-YunxiNeural (Yunxi, Male, Lively)"@]),
    ]
}

fn group_of(language: &str, first: &str, second: &str) -> (r: LanguageGroup)
    ensures
        r.language@ == language@,
        r.voices@.map_values(|s: String| s@) == seq![first@, second@],
{
    let mut v: Vec<String> = Vec::new();
    v.push(owned(first));
    v.push(owned(second));
    assert(v@.map_values(|s: String| s@) =~= seq![first@, second@]);
    LanguageGroup { language: owned(language), voices: v }
}

impl TTSEngine {
    /// `text` when it has at most `max_len` characters, else its first
    /// `max_len` characters followed by `...`; never splits a character.
    pub fn safe_truncate(text: &str, max_len: usize) -> (r: String)
        ensures
            r@ == truncated(text@, max_len as nat),
    {
        let n = text.unicode_len();
        if n <= max_len {
            owned(text)
        } else {
            let head = text.substring_char(0, max_len);
            let mut out = owned(head);
            out.append("...");
            out
        }
    }

    /// The script the text appears to be written in, if any it knows.
    pub fn detect_text_script(text: &str) -> (r: Option<String>)
        ensures
            r matches Some(s) ==> detected_script(text@) == Some(s@),
            r is None ==> detected_script(text@) is None,
    {
        if any_in_range(text, '\u{4E00}', '\u{9FFF}') {
            Some(owned("Chinese"))
        } else if any_in_range(text, '\u{3040}', '\u{309F}') || any_in_range(text, '\u{30A0}', '\u{30FF}') {
            Some(owned("Japanese"))
        } else if any_in_range(text, '\u{AC00}', '\u{D7AF}') {
            Some(owned("Korean"))
        } else if any_in_range(text, '\u{0600}', '\u{06FF}') {
            Some(owned("Arabic"))
        } else if any_in_range(text, '\u{0900}', '\u{097F}') {
            Some(owned("Hindi"))
        } else if any_in_range(text, '\u{0400}', '\u{04FF}') {
            Some(owned("Russian"))
        } else if any_in_range(text, '\u{0370}', '\u{03FF}') {
            Some(owned("Greek"))
        } else {
            None
        }
    }

    /// Whether a detected script is trusted: always for Chinese, Japanese
    /// and Korean; for Arabic, Hindi, Russian and Greek once the text has
    /// three characters or more; never for anything else.
    pub fn is_script_confident(script: &str, text: &str) -> (r: bool)
        ensures
            r == (script@ == "Chinese"@ || script@ == "Japanese"@ || script@ == "Korean"@ || ((script@
                == "Arabic"@ || script@ == "Hindi"@ || script@ == "Russian"@ || script@ == "Greek"@)
                && text@.len() >= 3)),
    {
        if str_eq(script, "Chinese") || str_eq(script, "Japanese") || str_eq(script, "Korean") {
            true
        } else if str_eq(script, "Arabic") || str_eq(script, "Hindi") || str_eq(script, "Russian") || str_eq(script, "Greek") {
            text.unicode_len() >= 3
        } else {
            false
        }
    }

    /// The voice list offered when the remote directory cannot be reached.
    pub fn get_fallback_voices(&self) -> (r: Vec<LanguageGroup>)
        ensures
            groups_view(r@) == fallback_groups(),
    {
        let mut gs: Vec<LanguageGroup> = Vec::new();
        gs.push(group_of("English", "en-US-AriaNeural (Aria, Female, Confident & Positive)", "en-US-AndrewNeural (Andrew, Male, Warm & Confident)"));
        gs.push(group_of("French", "fr-FR-DeniseNeural (Denise, Female, Elegant)", "fr-FR-HenriNeural (Henri, Male, Steady)"));
        gs.push(group_of("Spanish", "es-ES-ElviraNeural (Elvira, Female, Lively)", "es-ES-AlvaroNeural (Alvaro, Male, Mature)"));
        gs.push(group_of("Italian", "it-IT-ElsaNeural (Elsa, Female, Warm)", "it-IT-DiegoNeural (Diego, Male, Friendly)"));
        gs.push(group_of("Russian", "ru-RU-SvetlanaNeural (Svetlana, Female, Gentle)", "ru-RU-DmitryNeural (Dmitry, Male, Deep)"));
        gs.push(group_of("Greek", "el-GR-AthinaNeural (Athina, Female, Clear)", "el-GR-NestorNeural (Nestor, Male, Authoritative)"));
        gs.push(group_of("German", "de-DE-KatjaNeural (Katja, Female, Professional)", "de-DE-ConradNeural (Conrad, Male, Reliable)"));
        gs.push(group_of("Hindi", "hi-IN-SwaraNeural (Swara, Female, Sweet)", "hi-IN-MadhurNeural (Madhur, Male, Magnetic)"));
        gs.push(group_of("Arabic", "ar-SA-ZariyahNeural (Zariyah, Female, Elegant)", "ar-SA-HamedNeural (Hamed, Male, Steady)"));
        gs.push(group_of("Japanese", "ja-JP-NanamiNeural (Nanami, Female, Gentle)", "ja-JP-KeitaNeural (Keita, Male, Natural)"));
        gs.push(group_of("Korean", "ko-KR-SunHiNeural (Sun-Hi, Female, Bright)", "ko-KR-InJoonNeural (InJoon, Male, Mature)"));
        gs.push(group_of("Chinese", "zh-CN-XiaoxiaoNeural (Xiaoxiao, Female, Warm)", "zh-CN-YunxiNeural (Yunxi, Male, Lively)"));
        assert(groups_view(gs@) =~= fallback_groups());
        gs
    }
}

} // verus!
