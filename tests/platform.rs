use alouette::android::AndroidTTSEngine;
use alouette::common::{
    get_embedded_system_prompt, get_explicit_language_spec, is_arabic_or_punct, is_cyrillic_or_punct,
    is_hangul_or_punct,
};
use alouette::platform::{escape_single_quotes, macos_voice_for_locale, playback_timed_out, windows_tts_script};

#[test]
fn macos_voices() {
    assert_eq!(macos_voice_for_locale("fr-FR"), "Thomas");
    assert_eq!(macos_voice_for_locale("French"), "Thomas");
    assert_eq!(macos_voice_for_locale("nl-BE"), "Ellen");
    assert_eq!(macos_voice_for_locale("he-IL"), "Carmit");
    assert_eq!(macos_voice_for_locale("xx-XX"), "Alex");
}

#[test]
fn windows_script() {
    assert_eq!(escape_single_quotes("it's"), "it''s");
    let s = windows_tts_script("C:\\temp\\a.wav", "it's");
    assert!(s.contains("SetOutputToWaveFile('C:\\temp\\a.wav')"));
    assert!(s.contains("$synth.Speak('it''s')"));
}

#[test]
fn playback_limit() {
    assert!(!playback_timed_out(29_999));
    assert!(playback_timed_out(30_000));
}

#[test]
fn android_voices_and_locales() {
    let e = AndroidTTSEngine::new();
    assert_eq!(e.available_voices.len(), 11);
    assert_eq!(e.available_voices[10].locale, "hi-IN");
    assert_eq!(e.get_fallback_locales("fr-FR"), vec!["fr-FR", "fr-CA", "fr-BE"]);
    assert_eq!(e.get_fallback_locales("pt-BR"), vec!["pt-BR", "en-US"]);
    assert_eq!(e.get_fallback_locales("el-GR"), vec!["el-GR"]);
}

#[test]
fn android_requests() {
    let e = AndroidTTSEngine::new();
    let q = e.synthesize_speech("Hola", "SPANISH").unwrap();
    assert_eq!(q.voice_name, "es-ES-default");
    assert_eq!(q.locale, "es-ES");
    assert_eq!((q.pitch_tenths, q.rate_tenths), (10, 9));
    assert_eq!(q.fallback_locales, vec!["es-ES", "es-MX", "es-AR"]);
    let d = e.synthesize_speech("Hi", "Klingon").unwrap();
    assert_eq!(d.locale, "en-US");
    assert!(e.synthesize_speech("   ", "English").is_err());
    assert!(e.synthesize_speech(&"a".repeat(4001), "English").is_err());
    assert!(e.synthesize_speech(&"a".repeat(4000), "English").is_ok());
}

#[test]
fn script_character_classes() {
    assert!(is_cyrillic_or_punct('ж'));
    assert!(is_cyrillic_or_punct('«'));
    assert!(!is_cyrillic_or_punct('a'));
    assert!(is_arabic_or_punct('ب'));
    assert!(is_arabic_or_punct('7'));
    assert!(!is_arabic_or_punct('x'));
    assert!(is_hangul_or_punct('한'));
    assert!(!is_hangul_or_punct('か'));
}

#[test]
fn explicit_language_names() {
    assert_eq!(get_explicit_language_spec("Korean"), "Korean (한국어) - USE ONLY HANGUL CHARACTERS, NOT Japanese hiragana/katakana");
    assert_eq!(get_explicit_language_spec("Greek"), "Greek (ελληνικά, Greek script)");
    assert_eq!(get_explicit_language_spec("French"), "French");
    let p = get_embedded_system_prompt();
    assert!(p.starts_with("You are a professional translation engine."));
    assert!(p.contains("Target language: {{lang}}"));
}
