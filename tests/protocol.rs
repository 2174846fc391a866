use alouette::error::SynthesisError;
use alouette::frames::{find_audio_start, strip_frame_header};
use alouette::protocol::{
    config_frame, connection_url, escape_markup, fresh_id, generate_ssml, protocol_id_of, ssml_frame,
    SessionState, SpeechSession, CONFIG_BODY, SOCKET_URL_BASE,
};

#[test]
fn audio_start_after_double_crlf() {
    let mut frame = b"Path:audio\r\nX-RequestId:1\r\n\r\n".to_vec();
    let header_len = frame.len();
    frame.extend_from_slice(&[1, 2, 3, 4, 5]);
    assert_eq!(find_audio_start(&frame), Some(header_len));
    assert_eq!(strip_frame_header(&frame), vec![1, 2, 3, 4, 5]);
}

#[test]
fn audio_start_first_double_crlf_wins() {
    let frame = b"a\r\n\r\nb\r\n\r\nc".to_vec();
    assert_eq!(find_audio_start(&frame), Some(5));
}

#[test]
fn audio_start_at_mpeg_sync() {
    let frame = vec![0x00, 0x12, 0xFF, 0xFB, 0x90, 0x00];
    assert_eq!(find_audio_start(&frame), Some(2));
    assert_eq!(strip_frame_header(&frame), vec![0xFF, 0xFB, 0x90, 0x00]);
}

#[test]
fn audio_start_sync_needs_top_three_bits() {
    assert_eq!(find_audio_start(&[0xFF, 0xC0, 0x00]), None);
    assert_eq!(find_audio_start(&[0x01, 0xFF, 0xE0]), Some(1));
}

#[test]
fn audio_start_none() {
    assert_eq!(find_audio_start(&[1, 2, 3, 4, 5, 6]), None);
    assert_eq!(find_audio_start(&[]), None);
    assert!(strip_frame_header(&[1, 2, 3]).is_empty());
}

#[test]
fn markup_escaping() {
    assert_eq!(escape_markup("a & b < c > d \"e\" 'f'"), "a &amp; b &lt; c &gt; d &quot;e&quot; &apos;f&apos;");
    assert_eq!(escape_markup(""), "");
    assert_eq!(escape_markup("Bonjour"), "Bonjour");
}

#[test]
fn ssml_envelope() {
    let s = generate_ssml("Tom & Jerry", "fr-FR", "fr-FR-DeniseNeural");
    assert_eq!(
        s,
        "<speak version='1.0' xmlns='http://www.w3.org/2001/10/synthesis' xml:lang='fr-FR'><voice name='fr-FR-DeniseNeural'>Tom &amp; Jerry</voice></speak>"
    );
}

#[test]
fn config_frame_layout() {
    let f = config_frame("2024-01-02T03:04:05.006Z");
    let expected = format!(
        "X-Timestamp:2024-01-02T03:04:05.006Z\r\nContent-Type:application/json; charset=utf-8\r\nPath:speech.config\r\n\r\n{}",
        CONFIG_BODY
    );
    assert_eq!(f, expected);
    assert!(f.contains("\"outputFormat\":\"audio-24khz-48kbitrate-mono-mp3\""));
}

#[test]
fn ssml_frame_layout() {
    let f = ssml_frame("abc", "T", "<speak/>");
    assert_eq!(f, "X-RequestId:abc\r\nContent-Type:application/ssml+xml\r\nX-Timestamp:T\r\nPath:ssml\r\n\r\n<speak/>");
}

#[test]
fn ids_are_32_hex_digits_and_fresh() {
    let a = fresh_id();
    let b = fresh_id();
    assert_eq!(a.len(), 32);
    assert!(a.chars().all(|c| c.is_ascii_hexdigit() && !c.is_ascii_uppercase()));
    assert_ne!(a, b);
    assert_eq!(connection_url(&a), format!("{}{}", SOCKET_URL_BASE, a));
}

#[test]
fn session_frames_carry_their_timestamps() {
    let mut s = SpeechSession::new();
    s.begin();
    let config = s.connected().unwrap();
    let t = s.last_timestamp.clone();
    assert_eq!(t.len(), 24);
    assert!(t.ends_with('Z'));
    assert_eq!(&t[10..11], "T");
    assert_eq!(config, config_frame(&t));
    let request = s.request("Bonjour", "fr-FR", "fr-FR-DeniseNeural").unwrap();
    let ssml = generate_ssml("Bonjour", "fr-FR", "fr-FR-DeniseNeural");
    assert_eq!(request, ssml_frame(&s.request_id, &s.last_timestamp, &ssml));
}

fn started_session() -> SpeechSession {
    let mut s = SpeechSession::new();
    assert!(s.begin().is_some());
    assert!(s.connected().is_some());
    assert!(s.request("Bonjour", "fr-FR", "fr-FR-DeniseNeural").is_some());
    s
}

#[test]
fn session_completes_with_audio() {
    let mut s = started_session();
    s.on_text("X-RequestId:1\r\nPath:response\r\n\r\n{}");
    let mut frame = b"Path:audio\r\n\r\n".to_vec();
    frame.extend_from_slice(&[9, 8, 7]);
    s.on_binary(&frame);
    s.on_binary(&[0x00, 0xFF, 0xF3, 0x01]);
    s.on_text("Path:turn.end\r\n\r\n{}");
    assert!(s.is_finished());
    assert!(matches!(s.state, SessionState::Complete));
    assert_eq!(s.finish().ok(), Some(vec![9, 8, 7, 0xFF, 0xF3, 0x01]));
}

#[test]
fn session_turn_end_without_audio_is_protocol_error() {
    let mut s = started_session();
    s.on_binary(&[1, 2, 3, 4]);
    s.on_text("Path:turn.end");
    assert!(matches!(s.finish(), Err(SynthesisError::Protocol(_))));
}

#[test]
fn session_closed_early_is_protocol_error() {
    let mut s = started_session();
    s.on_binary(&[0xFF, 0xFB, 0x00]);
    s.on_closed();
    assert!(matches!(s.finish(), Err(SynthesisError::Protocol(_))));
}

#[test]
fn session_transport_error_is_network_error() {
    let mut s = SpeechSession::new();
    s.begin();
    s.on_transport_error("refused");
    match s.finish() {
        Err(SynthesisError::Network(d)) => assert_eq!(d, "refused"),
        _ => panic!("expected a network error"),
    }
}

#[test]
fn session_frames_out_of_order_are_refused() {
    let mut s = SpeechSession::new();
    assert!(s.connected().is_none());
    assert!(s.request("x", "en-US", "v").is_none());
    let url = s.begin().unwrap();
    assert!(url.starts_with(SOCKET_URL_BASE));
    assert!(s.begin().is_none());
    s.on_binary(&[0xFF, 0xFB, 0x00]);
    assert!(s.audio.is_empty());
}

#[test]
fn session_short_binary_frames_are_stripped_too() {
    let mut s = started_session();
    s.on_binary(&[0xFF, 0xFB]);
    assert_eq!(s.audio, vec![0xFF, 0xFB]);
    s.on_binary(&[0x01]);
    assert_eq!(s.audio, vec![0xFF, 0xFB]);
}

#[test]
fn protocol_id_strips_hyphens() {
    assert_eq!(protocol_id_of("0123abcd-4567-89ef-0123-456789abcdef"), "0123abcd456789ef0123456789abcdef");
}

#[test]
fn failed_session_returns_its_error() {
    let mut s = started_session();
    s.on_transport_error("reset");
    match s.finish() {
        Err(SynthesisError::Network(d)) => assert_eq!(d, "reset"),
        _ => panic!("expected the session's own error"),
    }
}
