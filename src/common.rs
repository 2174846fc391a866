//! Helpers shared by the translation providers: script filters, explicit
//! language names and the system prompt.
use vstd::prelude::*;
use crate::text::{owned, str_eq};
pub use crate::cleanup::clean_translation_result;

verus! {

/// Punctuation kept by the script filters.
pub open spec fn is_common_punct(c: char) -> bool {
    c == '.' || c == ',' || c == '!' || c == '?' || c == ';' || c == ':' || c == '(' || c == ')' || c == '[' || c == ']' || c == '{' || c == '}' || c == '"' || c == '\'' || c == '«' || c == '»' || c == '—' || c == '–' || c == '-'
}

/// Cyrillic (and its supplement) or common punctuation.
pub open spec fn cyrillic_or_punct(c: char) -> bool {
    ('\u{0400}' <= c && c <= '\u{04FF}') || ('\u{0500}' <= c && c <= '\u{052F}') || is_common_punct(c)
}

/// Arabic blocks, common punctuation or an ASCII digit.
pub open spec fn arabic_or_punct(c: char) -> bool {
    ('\u{0600}' <= c && c <= '\u{06FF}') || ('\u{0750}' <= c && c <= '\u{077F}') || ('\u{08A0}' <= c
        && c <= '\u{08FF}') || ('\u{FB50}' <= c && c <= '\u{FDFF}') || ('\u{FE70}' <= c && c <= '\u{FEFF}')
        || is_common_punct(c) || ('0' <= c && c <= '9')
}

/// Hangul blocks or common punctuation.
pub open spec fn hangul_or_punct(c: char) -> bool {
    ('\u{AC00}' <= c && c <= '\u{D7AF}') || ('\u{1100}' <= c && c <= '\u{11FF}') || ('\u{3130}' <= c
        && c <= '\u{318F}') || ('\u{A960}' <= c && c <= '\u{A97F}') || ('\u{D7B0}' <= c && c <= '\u{D7FF}')
        || is_common_punct(c)
}

fn common_punct(c: char) -> (r: bool)
    ensures
        r == is_common_punct(c),
{
    c == '.' || c == ',' || c == '!' || c == '?' || c == ';' || c == ':' || c == '(' || c == ')' || c == '[' || c == ']' || c == '{' || c == '}' || c == '"' || c == '\'' || c == '«' || c == '»' || c == '—' || c == '–' || c == '-'
}

pub fn is_cyrillic_or_punct(c: char) -> (r: bool)
    ensures
        r == cyrillic_or_punct(c),
{
    ('\u{0400}' <= c && c <= '\u{04FF}') || ('\u{0500}' <= c && c <= '\u{052F}') || common_punct(c)
}

pub fn is_arabic_or_punct(c: char) -> (r: bool)
    ensures
        r == arabic_or_punct(c),
{
    ('\u{0600}' <= c && c <= '\u{06FF}') || ('\u{0750}' <= c && c <= '\u{077F}') || ('\u{08A0}' <= c
        && c <= '\u{08FF}') || ('\u{FB50}' <= c && c <= '\u{FDFF}') || ('\u{FE70}' <= c && c <= '\u{FEFF}')
        || common_punct(c) || ('0' <= c && c <= '9')
}

pub fn is_hangul_or_punct(c: char) -> (r: bool)
    ensures
        r == hangul_or_punct(c),
{
    ('\u{AC00}' <= c && c <= '\u{D7AF}') || ('\u{1100}' <= c && c <= '\u{11FF}') || ('\u{3130}' <= c
        && c <= '\u{318F}') || ('\u{A960}' <= c && c <= '\u{A97F}') || ('\u{D7B0}' <= c && c <= '\u{D7FF}')
        || common_punct(c)
}

/// The explicit form of a language name given to the model, so that close
/// languages are not confused; other names stand for themselves.
pub open spec fn explicit_language(language: Seq<char>) -> Seq<char> {
    if language == "Korean"@ {
        "Korean (한국어) - USE ONLY HANGUL CHARACTERS, NOT Japanese hiragana/katakana"@
    } else if language == "Japanese"@ {
        "Japanese (日本語, Hiragana/Katakana/Kanji)"@
    } else if language == "Chinese"@ {
        "Chinese (中文, Simplified Chinese characters)"@
    } else if language == "Russian"@ {
        "Russian (русский язык, Cyrillic script)"@
    } else if language == "Arabic"@ {
        "Arabic (العربية, Arabic script)"@
    } else if language == "Greek"@ {
        "Greek (ελληνικά, Greek script)"@
    } else if language == "Hindi"@ {
        "Hindi (हिन्दी, Devanagari script)"@
    } else {
        language
    }
}

/// The explicit form of a language name given to the model.
pub fn get_explicit_language_spec(language: &str) -> (r: String)
    ensures
        r@ == explicit_language(language@),
{
    if str_eq(language, "Korean") {
        owned("Korean (한국어) - USE ONLY HANGUL CHARACTERS, NOT Japanese hiragana/katakana")
    } else if str_eq(language, "Japanese") {
        owned("Japanese (日本語, Hiragana/Katakana/Kanji)")
    } else if str_eq(language, "Chinese") {
        owned("Chinese (中文, Simplified Chinese characters)")
    } else if str_eq(language, "Russian") {
        owned("Russian (русский язык, Cyrillic script)")
    } else if str_eq(language, "Arabic") {
        owned("Arabic (العربية, Arabic script)")
    } else if str_eq(language, "Greek") {
        owned("Greek (ελληνικά, Greek script)")
    } else if str_eq(language, "Hindi") {
        owned("Hindi (हिन्दी, Devanagari script)")
    } else {
        owned(language)
    }
}

/// The system prompt of the translation providers; `{{lang}}` stands for the target language.
pub const SYSTEM_PROMPT: &'static str = "You are a professional translation engine. Your ONLY task is to provide a pure, accurate translation.\n\nCRITICAL TRANSLATION RULES:\n1. Output ONLY the translated text in {{lang}} language\n2. Use ONLY {{lang}} characters and words - ABSOLUTELY NO mixing with other languages\n3. NO explanations, notes, or commentary of any kind\n4. NO repetition of original text in any language\n5. Provide the most natural and accurate translation\n6. Keep the same meaning and tone as the original\n7. If translating to Russian (русский), use ONLY Cyrillic characters\n8. If translating to Chinese, use ONLY Chinese characters (汉字)\n9. If translating to Japanese, use ONLY Japanese characters (ひらがな, カタカナ, 漢字)\n10. If translating to Korean (한국어), use ONLY Korean Hangul characters (한글) - NEVER use Japanese hiragana (ひ), katakana (カ), or Chinese characters\n11. If translating to Arabic, use ONLY Arabic script characters (ا-ي) - NO Chinese, English, or other scripts\n12. Complete the translation in pure {{lang}} only\n\nIMPORTANT KOREAN RULE: \n- Korean text must ONLY use Hangul characters like: 안녕하세요, 내일 만나요, 감사합니다\n- NEVER use Japanese characters like: ひらがな, カタカナ, or mixed Japanese text\n- Korean example: \"안녕하세요\" (correct) vs \"こんにちは\" (wrong - this is Japanese)\n\nTarget language: {{lang}}\nText to translate:\n\n";

/// The system prompt, built in so that no file has to be read.
pub fn get_embedded_system_prompt() -> (r: String)
    ensures
        r@ == SYSTEM_PROMPT@,
{
    owned(SYSTEM_PROMPT)
}

} // verus!
