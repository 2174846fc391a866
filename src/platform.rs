//! Decisions of the platform-native speech strategies and of playback.
use vstd::prelude::*;
use crate::error::SynthesisError;
use crate::text::{owned, str_eq};

verus! {

/// The macOS `say` voice for a locale or language name; `Alex` when none is known.
pub open spec fn macos_voice_spec(locale: Seq<char>) -> Seq<char> {
    if locale == "en-US"@ || locale == "English"@ {
        "Alex"@
    } else if locale == "en-GB"@ {
        "Daniel"@
    } else if locale == "en-AU"@ {
        "Karen"@
    } else if locale == "es-ES"@ || locale == "Spanish"@ {
        "Monica"@
    } else if locale == "es-MX"@ {
        "Paulina"@
    } else if locale == "fr-FR"@ || locale == "French"@ {
        "Thomas"@
    } else if locale == "fr-CA"@ {
        "Amelie"@
    } else if locale == "de-DE"@ || locale == "German"@ {
        "Anna"@
    } else if locale == "it-IT"@ || locale == "Italian"@ {
        "Alice"@
    } else if locale == "ja-JP"@ || locale == "Japanese"@ {
        "Kyoko"@
    } else if locale == "zh-CN"@ || locale == "Chinese"@ {
        "Ting-Ting"@
    } else if locale == "zh-TW"@ {
        "Mei-Jia"@
    } else if locale == "zh-HK"@ {
        "Sin-ji"@
    } else if locale == "pt-BR"@ {
        "Luciana"@
    } else if locale == "pt-PT"@ {
        "Joana"@
    } else if locale == "ru-RU"@ || locale == "Russian"@ {
        "Milena"@
    } else if locale == "ko-KR"@ || locale == "Korean"@ {
        "Yuna"@
    } else if locale == "nl-NL"@ || locale == "nl-BE"@ {
        "Ellen"@
    } else if locale == "pl-PL"@ {
        "Zosia"@
    } else if locale == "sv-SE"@ {
        "Alva"@
    } else if locale == "nb-NO"@ {
        "Nora"@
    } else if locale == "da-DK"@ {
        "Sara"@
    } else if locale == "fi-FI"@ {
        "Satu"@
    } else if locale == "cs-CZ"@ {
        "Zuzana"@
    } else if locale == "hu-HU"@ {
        "Mariska"@
    } else if locale == "ro-RO"@ {
        "Ioana"@
    } else if locale == "sk-SK"@ {
        "Laura"@
    } else if locale == "hr-HR"@ {
        "Lana"@
    } else if locale == "ar-SA"@ || locale == "Arabic"@ {
        "Maged"@
    } else if locale == "hi-IN"@ || locale == "Hindi"@ {
        "Lekha"@
    } else if locale == "th-TH"@ {
        "Kanya"@
    } else if locale == "tr-TR"@ {
        "Yelda"@
    } else if locale == "el-GR"@ || locale == "Greek"@ {
        "Melina"@
    } else if locale == "he-IL"@ {
        "Carmit"@
    } else {
        "Alex"@
    }
}

/// The macOS `say` voice for a locale or language name; `Alex` when none is known.
pub fn macos_voice_for_locale(locale: &str) -> (r: &'static str)
    ensures
        r@ == macos_voice_spec(locale@),
{
    if str_eq(locale, "en-US") || str_eq(locale, "English") {
        "Alex"
    } else if str_eq(locale, "en-GB") {
        "Daniel"
    } else if str_eq(locale, "en-AU") {
        "Karen"
    } else if str_eq(locale, "es-ES") || str_eq(locale, "Spanish") {
        "Monica"
    } else if str_eq(locale, "es-MX") {
        "Paulina"
    } else if str_eq(locale, "fr-FR") || str_eq(locale, "French") {
        "Thomas"
    } else if str_eq(locale, "fr-CA") {
        "Amelie"
    } else if str_eq(locale, "de-DE") || str_eq(locale, "German") {
        "Anna"
    } else if str_eq(locale, "it-IT") || str_eq(locale, "Italian") {
        "Alice"
    } else if str_eq(locale, "ja-JP") || str_eq(locale, "Japanese") {
        "Kyoko"
    } else if str_eq(locale, "zh-CN") || str_eq(locale, "Chinese") {
        "Ting-Ting"
    } else if str_eq(locale, "zh-TW") {
        "Mei-Jia"
    } else if str_eq(locale, "zh-HK") {
        "Sin-ji"
    } else if str_eq(locale, "pt-BR") {
        "Luciana"
    } else if str_eq(locale, "pt-PT") {
        "Joana"
    } else if str_eq(locale, "ru-RU") || str_eq(locale, "Russian") {
        "Milena"
    } else if str_eq(locale, "ko-KR") || str_eq(locale, "Korean") {
        "Yuna"
    } else if str_eq(locale, "nl-NL") || str_eq(locale, "nl-BE") {
        "Ellen"
    } else if str_eq(locale, "pl-PL") {
        "Zosia"
    } else if str_eq(locale, "sv-SE") {
        "Alva"
    } else if str_eq(locale, "nb-NO") {
        "Nora"
    } else if str_eq(locale, "da-DK") {
        "Sara"
    } else if str_eq(locale, "fi-FI") {
        "Satu"
    } else if str_eq(locale, "cs-CZ") {
        "Zuzana"
    } else if str_eq(locale, "hu-HU") {
        "Mariska"
    } else if str_eq(locale, "ro-RO") {
        "Ioana"
    } else if str_eq(locale, "sk-SK") {
        "Laura"
    } else if str_eq(locale, "hr-HR") {
        "Lana"
    } else if str_eq(locale, "ar-SA") || str_eq(locale, "Arabic") {
        "Maged"
    } else if str_eq(locale, "hi-IN") || str_eq(locale, "Hindi") {
        "Lekha"
    } else if str_eq(locale, "th-TH") {
        "Kanya"
    } else if str_eq(locale, "tr-TR") {
        "Yelda"
    } else if str_eq(locale, "el-GR") || str_eq(locale, "Greek") {
        "Melina"
    } else if str_eq(locale, "he-IL") {
        "Carmit"
    } else {
        "Alex"
    }
}

/// `s` with each `'` doubled, as a single-quoted PowerShell string needs.
pub open spec fn ps_quoted(s: Seq<char>) -> Seq<char>
    decreases s.len(),
{
    if s.len() == 0 {
        Seq::empty()
    } else {
        ps_quoted(s.drop_last()) + if s.last() == '\'' { seq!['\'', '\''] } else { seq![s.last()] }
    }
}

/// Doubles each `'` of `s`.
pub fn escape_single_quotes(s: &str) -> (r: String)
    ensures
        r@ == ps_quoted(s@),
{
    let n = s.unicode_len();
    let mut out: Vec<char> = Vec::new();
    let mut i: usize = 0;
    while i < n
        invariant
            n == s@.len(),
            i <= n,
            out@ == ps_quoted(s@.subrange(0, i as int)),
        decreases n - i,
    {
        let c = s.get_char(i);
        proof {
            assert(s@.subrange(0, i + 1).drop_last() =~= s@.subrange(0, i as int));
        }
        out.push(c);
        if c == '\'' {
            out.push('\'');
        }
        assert(out@ =~= ps_quoted(s@.subrange(0, i + 1)));
        i = i + 1;
    }
    assert(s@.subrange(0, n as int) =~= s@);
    crate::text::string_of_chars(out.as_slice())
}

/// The PowerShell script that speaks `text` into the wave file `out_file`.
pub open spec fn windows_script_spec(out_file: Seq<char>, text: Seq<char>) -> Seq<char> {
    "Add-Type -AssemblyName System.Speech\n$synth = New-Object System.Speech.Synthesis.SpeechSynthesizer\n$synth.SetOutputToWaveFile('"@
        + out_file + "')\n$synth.Speak('"@ + ps_quoted(text) + "')\n$synth.Dispose()\n"@
}

/// The PowerShell script that speaks `text` into the wave file `out_file`.
pub fn windows_tts_script(out_file: &str, text: &str) -> (r: String)
    ensures
        r@ == windows_script_spec(out_file@, text@),
{
    let mut out = String::from_str(
        "Add-Type -AssemblyName System.Speech\n$synth = New-Object System.Speech.Synthesis.SpeechSynthesizer\n$synth.SetOutputToWaveFile('",
    );
    out.append(out_file);
    out.append("')\n$synth.Speak('");
    let q = escape_single_quotes(text);
    out.append(q.as_str());
    out.append("')\n$synth.Dispose()\n");
    assert(out@ =~= windows_script_spec(out_file@, text@));
    out
}

/// The bytes a strategy returns when it has spoken the text itself and
/// left nothing to play: `TTS_SUCCESS_TERMUX`.
pub open spec fn played_marker() -> Seq<u8> {
    seq![84u8, 84u8, 83u8, 95u8, 83u8, 85u8, 67u8, 67u8, 69u8, 83u8, 83u8, 95u8, 84u8, 69u8, 82u8, 77u8, 85u8, 88u8]
}

/// The "already played" marker.
pub fn already_played_marker() -> (r: Vec<u8>)
    ensures
        r@ == played_marker(),
{
    let v: Vec<u8> = vec![84u8, 84u8, 83u8, 95u8, 83u8, 85u8, 67u8, 67u8, 69u8, 83u8, 83u8, 95u8, 84u8, 69u8, 82u8, 77u8, 85u8, 88u8];
    assert(v@ =~= played_marker());
    v
}

/// Longest playback, in seconds, before it is stopped.
pub const PLAYBACK_LIMIT_SECS: u64 = 30;

/// What to do with synthesized bytes.
#[derive(Debug, PartialEq, Eq, Structural, Clone, Copy)]
pub enum PlaybackAction {
    /// The strategy spoke the text itself: nothing to play.
    AlreadyPlayed,
    /// Decode the bytes and play them.
    Decode,
}

/// The marker means "already played"; empty audio is an error; anything
/// else is decoded and played.
pub fn playback_action(audio: &[u8]) -> (r: Result<PlaybackAction, SynthesisError>)
    ensures
        audio@ == played_marker() ==> r == Ok::<PlaybackAction, SynthesisError>(PlaybackAction::AlreadyPlayed),
        audio@.len() == 0 ==> r matches Err(SynthesisError::Playback(_)),
        audio@ != played_marker() && audio@.len() > 0 ==> r == Ok::<PlaybackAction, SynthesisError>(PlaybackAction::Decode),
{
    let m = already_played_marker();
    if audio.len() == m.len() {
        let mut i: usize = 0;
        let mut same = true;
        while i < m.len()
            invariant
                audio@.len() == m@.len(),
                i <= m@.len(),
                same == (forall|j: int| 0 <= j < i ==> audio@[j] == m@[j]),
            decreases m@.len() - i,
        {
            if audio[i] != m[i] {
                same = false;
            }
            i = i + 1;
        }
        if same {
            assert(audio@ =~= played_marker());
            return Ok(PlaybackAction::AlreadyPlayed);
        }
    }
    if audio.len() == 0 {
        return Err(SynthesisError::Playback(owned("audio data is empty")));
    }
    Ok(PlaybackAction::Decode)
}

/// Whether playback that has run for `elapsed_ms` must be stopped.
pub fn playback_timed_out(elapsed_ms: u64) -> (r: bool)
    ensures
        r == (elapsed_ms >= PLAYBACK_LIMIT_SECS * 1000),
{
    elapsed_ms >= PLAYBACK_LIMIT_SECS * 1000
}

} // verus!
