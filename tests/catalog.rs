use alouette::cache::{cache_file_name, hex_string, sum_sizes, underscore_hyphens};
use alouette::catalog::{cache_dir_for, TTSEngine, VoiceInfo};

#[test]
fn select_voice_matches_case_insensitively() {
    let e = TTSEngine::with_cache_dir("/tmp/x");
    let v = e.select_voice_for_language("french");
    assert_eq!(v.edge_voice, "fr-FR-DeniseNeural");
    assert_eq!(e.select_voice_for_language("ENGLISH").edge_voice, "en-US-AriaNeural");
    assert_eq!(e.select_voice_for_language("Chinese").display_name, "Xiaoxiao");
}

#[test]
fn select_voice_never_fails() {
    let e = TTSEngine::with_cache_dir("/tmp/x");
    assert_eq!(e.select_voice_for_language("").edge_voice, "en-US-AriaNeural");
    assert_eq!(e.select_voice_for_language("Klingon").edge_voice, "en-US-AriaNeural");
}

#[test]
fn select_voice_on_empty_catalog_gives_default() {
    let e = TTSEngine { voices: Vec::new(), cache_dir: String::new() };
    let v = e.select_voice_for_language("French");
    assert_eq!(v.display_name, "Aria (English US)");
    assert_eq!(v.locale, "en-US");
}

#[test]
fn select_voice_without_match_takes_first_english_then_default() {
    let e = TTSEngine {
        voices: vec![
            VoiceInfo::new("a", "A", "German", "Male", "de-DE", "de-A"),
            VoiceInfo::new("b", "B", "English", "Female", "en-GB", "en-B"),
        ],
        cache_dir: String::new(),
    };
    assert_eq!(e.select_voice_for_language("Greek").name, "b");
    let e2 = TTSEngine { voices: vec![VoiceInfo::new("a", "A", "German", "Male", "de-DE", "de-A")], cache_dir: String::new() };
    let d = e2.select_voice_for_language("Greek");
    assert_eq!(d.name, "en-US-AriaNeural");
    assert_eq!(d.display_name, "Aria (English US)");
    let french_only = TTSEngine {
        voices: vec![VoiceInfo::new("fr-FR-DeniseNeural", "Denise", "French", "Female", "fr-FR", "fr-FR-DeniseNeural")],
        cache_dir: String::new(),
    };
    assert_eq!(french_only.select_voice_for_language("Italian").edge_voice, "en-US-AriaNeural");
}

#[test]
fn voices_for_english_are_listed() {
    let e = TTSEngine::with_cache_dir("/tmp/x");
    let v = e.voices_for_language("English");
    assert_eq!(v.len(), 2);
    assert_eq!(v[0].display_name, "Aria");
    assert_eq!(v[1].display_name, "Andrew");
    assert!(e.voices_for_language("Klingon").is_empty());
    assert_eq!(e.get_available_voices().len(), 24);
}

#[test]
fn engine_has_cache_dir() {
    let e = TTSEngine::new("/tmp");
    assert!(e.cache_dir.ends_with("/alouette/tts_cache") || e.cache_dir == "/tmp/alouette_tts_cache");
    assert_eq!(e.get_available_voices().len(), 24);
}

#[test]
fn cache_key_is_deterministic() {
    let e = TTSEngine::with_cache_dir("/tmp/x");
    let a = e.generate_cache_key("Bonjour", "fr-FR-DeniseNeural");
    let b = e.generate_cache_key("Bonjour", "fr-FR-DeniseNeural");
    assert_eq!(a, b);
    assert!(a.starts_with("tts_fr_FR_DeniseNeural_"));
    let c = e.generate_cache_key("Bonsoir", "fr-FR-DeniseNeural");
    assert_ne!(a, c);
    let hex = &a["tts_fr_FR_DeniseNeural_".len()..];
    assert!(!hex.is_empty() && hex.chars().all(|ch| ch.is_ascii_hexdigit()));
}

#[test]
fn cache_paths() {
    let e = TTSEngine::with_cache_dir("/tmp/cache");
    assert_eq!(cache_file_name("k"), "k.wav");
    assert_eq!(e.cache_path("k"), "/tmp/cache/k.wav");
}

#[test]
fn hex_rendering() {
    assert_eq!(hex_string(0), "0");
    assert_eq!(hex_string(255), "ff");
    assert_eq!(hex_string(0x1a2b), "1a2b");
    assert_eq!(hex_string(u64::MAX), "ffffffffffffffff");
    assert_eq!(underscore_hyphens("en-US-Aria"), "en_US_Aria");
}

#[test]
fn freed_bytes() {
    assert_eq!(sum_sizes(&[]), 0);
    assert_eq!(sum_sizes(&[1, 2, 3]), 6);
    assert_eq!(sum_sizes(&[u64::MAX, 1]), u64::MAX);
}

#[test]
fn script_detection() {
    assert_eq!(TTSEngine::detect_text_script("你好").as_deref(), Some("Chinese"));
    assert_eq!(TTSEngine::detect_text_script("こんにちは").as_deref(), Some("Japanese"));
    assert_eq!(TTSEngine::detect_text_script("안녕").as_deref(), Some("Korean"));
    assert_eq!(TTSEngine::detect_text_script("مرحبا").as_deref(), Some("Arabic"));
    assert_eq!(TTSEngine::detect_text_script("नमस्ते").as_deref(), Some("Hindi"));
    assert_eq!(TTSEngine::detect_text_script("привет").as_deref(), Some("Russian"));
    assert_eq!(TTSEngine::detect_text_script("γειά").as_deref(), Some("Greek"));
    assert_eq!(TTSEngine::detect_text_script("hello"), None);
}

#[test]
fn script_confidence() {
    assert!(TTSEngine::is_script_confident("Korean", "안"));
    assert!(!TTSEngine::is_script_confident("Russian", "пр"));
    assert!(TTSEngine::is_script_confident("Russian", "при"));
    assert!(!TTSEngine::is_script_confident("English", "hello"));
}

#[test]
fn truncation() {
    assert_eq!(TTSEngine::safe_truncate("hello", 5), "hello");
    assert_eq!(TTSEngine::safe_truncate("hello", 3), "hel...");
    assert_eq!(TTSEngine::safe_truncate("日本語です", 2), "日本...");
}

#[test]
fn fallback_voice_list() {
    let e = TTSEngine::with_cache_dir("/tmp/x");
    let g = e.get_fallback_voices();
    assert_eq!(g.len(), 12);
    assert_eq!(g[0].language, "English");
    assert_eq!(g[0].voices[0], "en-US-AriaNeural (Aria, Female, Confident & Positive)");
    assert_eq!(g[11].language, "Chinese");
    assert_eq!(g[11].voices[1], "zh-CN-YunxiNeural (Yunxi, Male, Lively)");
}

#[test]
fn cache_directory_layout() {
    assert_eq!(cache_dir_for(Some("/home/a/.cache"), "/tmp"), "/home/a/.cache/alouette/tts_cache");
    assert_eq!(cache_dir_for(None, "/tmp"), "/tmp/alouette_tts_cache");
}
