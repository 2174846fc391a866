use alouette::directory::{language_of_locale, EdgeTTSClient, EdgeVoice};

fn voice(short: &str, locale: &str, friendly: &str) -> EdgeVoice {
    EdgeVoice {
        name: format!("Microsoft Server Speech Text to Speech Voice ({}, {})", locale, short),
        short_name: short.to_string(),
        gender: "Female".to_string(),
        locale: locale.to_string(),
        suggested_codec: "audio-24khz-48kbitrate-mono-mp3".to_string(),
        friendly_name: friendly.to_string(),
        status: "GA".to_string(),
    }
}

fn fixture() -> EdgeTTSClient {
    EdgeTTSClient::from_voices(vec![
        voice("de-DE-KatjaNeural", "de-DE", "Katja"),
        voice("en-GB-SoniaNeural", "en-GB", "Sonia"),
        voice("en-US-AriaNeural", "en-US", "Aria"),
        voice("zh-CN-XiaoxiaoNeural", "zh-CN", "Xiaoxiao"),
        voice("pt-BR-FranciscaNeural", "pt-BR", "Francisca"),
        voice("en-US-GuyNeural", "en-US", "Guy"),
    ])
}

#[test]
fn test_find_voice() {
    let client = fixture();
    let voice = client.find_voice_by_language("English");
    assert!(voice.is_some());

    let voice = client.find_voice_by_language("Chinese");
    assert!(voice.is_some());
}

#[test]
fn find_voice_order() {
    let client = fixture();
    assert_eq!(client.find_voice_by_language("en-gb").unwrap().short_name, "en-GB-SoniaNeural");
    assert_eq!(client.find_voice_by_language("English").unwrap().short_name, "en-US-AriaNeural");
    assert_eq!(client.find_voice_by_language("Chinese").unwrap().short_name, "zh-CN-XiaoxiaoNeural");
    assert_eq!(client.find_voice_by_language("Klingon").unwrap().short_name, "en-GB-SoniaNeural");
    assert_eq!(client.find_voice_by_language("PT").unwrap().short_name, "pt-BR-FranciscaNeural");
    assert!(EdgeTTSClient::from_voices(Vec::new()).find_voice_by_language("English").is_none());
    let no_english = EdgeTTSClient::from_voices(vec![voice("de-DE-KatjaNeural", "de-DE", "Katja")]);
    assert_eq!(no_english.find_voice_by_language("Klingon").unwrap().short_name, "de-DE-KatjaNeural");
}

#[test]
fn find_voice_by_name() {
    let client = fixture();
    assert_eq!(client.find_voice_by_name("en-US-GuyNeural"), Some(5));
    assert_eq!(client.find_voice_by_name("Microsoft Server Speech Text to Speech Voice (de-DE, de-DE-KatjaNeural)"), Some(0));
    assert_eq!(client.find_voice_by_name("nobody"), None);
    assert_eq!(client.get_voices().len(), 6);
}

#[test]
fn voices_grouped_by_language() {
    let g = fixture().get_voices_by_language();
    assert_eq!(g.len(), 4);
    assert_eq!(g[0].language, "German");
    assert_eq!(g[1].language, "English");
    assert_eq!(g[1].voices, vec!["Sonia".to_string(), "Aria".to_string(), "Guy".to_string()]);
    assert_eq!(g[2].language, "Chinese");
    assert_eq!(g[3].language, "pt-BR");
    assert_eq!(g[3].voices, vec!["Francisca".to_string()]);
    assert_eq!(language_of_locale("hi-IN"), "Hindi");
    assert_eq!(language_of_locale("xx"), "xx");
}
