use std::collections::HashMap;

use alouette::catalog::TTSEngine;
use alouette::error::SynthesisError;
use alouette::orchestrator::{exhaustion_report, plan_for, strategy_name, PlatformKind, Step, Strategy, REMEDIATION_HINTS};
use alouette::platform::{already_played_marker, playback_action, PlaybackAction};
use alouette::protocol::SpeechSession;

/// Runs one synthesis against an in-memory cache, answering each strategy with `run`.
fn drive(
    engine: &TTSEngine,
    cache: &mut HashMap<String, Vec<u8>>,
    text: &str,
    language: &str,
    platform: PlatformKind,
    run: &mut dyn FnMut(Strategy) -> Result<Vec<u8>, String>,
    tried: &mut Vec<Strategy>,
) -> Result<Vec<u8>, SynthesisError> {
    let (mut s, mut step) = engine.synthesize_speech(text, language, platform)?;
    loop {
        step = match step {
            Step::LookupCache(k) => s.on_cache_lookup(cache.get(&k).cloned()),
            Step::Run(st) => {
                tried.push(st);
                s.on_strategy_result(run(st))
            }
            Step::Store(k, bytes) => {
                cache.insert(k, bytes);
                s.on_stored()
            }
            Step::Done(r) => return r,
        }
    }
}

/// A remote round trip through a protocol session that answers with `audio`.
fn remote_round_trip(audio: &[u8], sessions: &mut usize) -> Result<Vec<u8>, String> {
    *sessions += 1;
    let mut s = SpeechSession::new();
    s.begin().ok_or("no url")?;
    s.connected().ok_or("no config")?;
    s.request("Bonjour", "fr-FR", "fr-FR-DeniseNeural").ok_or("no request")?;
    let mut frame = b"Path:audio\r\n\r\n".to_vec();
    frame.extend_from_slice(audio);
    s.on_binary(&frame);
    s.on_text("Path:turn.end");
    s.finish().map_err(|e| e.kind().to_string())
}

#[test]
fn scenario_remote_success_writes_one_cache_entry() {
    let engine = TTSEngine::with_cache_dir("/tmp/unused");
    let mut cache = HashMap::new();
    let mut sessions = 0usize;
    let mut tried = Vec::new();
    let voice = engine.select_voice_for_language("French");
    assert_eq!(voice.edge_voice, "fr-FR-DeniseNeural");
    let r = drive(
        &engine,
        &mut cache,
        "Bonjour",
        "French",
        PlatformKind::Generic,
        &mut |st| {
            assert_eq!(st, Strategy::RemoteApi);
            remote_round_trip(&[1, 2, 3], &mut sessions)
        },
        &mut tried,
    );
    assert_eq!(r.ok(), Some(vec![1, 2, 3]));
    assert_eq!(sessions, 1);
    assert_eq!(cache.len(), 1);
    let key = engine.generate_cache_key("Bonjour", "fr-FR-DeniseNeural");
    assert_eq!(cache.get(&key), Some(&vec![1, 2, 3]));
}

#[test]
fn scenario_second_call_is_cache_hit() {
    let engine = TTSEngine::with_cache_dir("/tmp/unused");
    let mut cache = HashMap::new();
    let mut sessions = 0usize;
    let mut tried = Vec::new();
    for _ in 0..2 {
        let r = drive(
            &engine,
            &mut cache,
            "Bonjour",
            "French",
            PlatformKind::MacOS,
            &mut |_| remote_round_trip(&[4, 5], &mut sessions),
            &mut tried,
        );
        assert_eq!(r.ok(), Some(vec![4, 5]));
    }
    assert_eq!(sessions, 1);
    assert_eq!(tried, vec![Strategy::RemoteApi]);
    assert_eq!(cache.len(), 1);
}

#[test]
fn scenario_empty_input_is_refused_at_once() {
    let engine = TTSEngine::with_cache_dir("/tmp/unused");
    assert!(matches!(engine.synthesize_speech("", "English", PlatformKind::Generic), Err(SynthesisError::EmptyInput)));
    assert!(matches!(engine.synthesize_speech(" \t\n", "English", PlatformKind::Generic), Err(SynthesisError::EmptyInput)));
    let mut cache = HashMap::new();
    let mut tried = Vec::new();
    let r = drive(&engine, &mut cache, "", "English", PlatformKind::Generic, &mut |_| panic!("no strategy may run"), &mut tried);
    assert!(matches!(r, Err(SynthesisError::EmptyInput)));
    assert!(tried.is_empty());
    assert!(cache.is_empty());
}

#[test]
fn scenario_all_strategies_fail() {
    let engine = TTSEngine::with_cache_dir("/tmp/unused");
    let mut cache = HashMap::new();
    let mut tried = Vec::new();
    let r = drive(
        &engine,
        &mut cache,
        "Hello",
        "English",
        PlatformKind::Windows,
        &mut |st| Err(format!("{} unavailable", strategy_name(st))),
        &mut tried,
    );
    match r {
        Err(SynthesisError::AllMethodsFailed(list)) => {
            assert_eq!(list.len(), 4);
            assert_eq!(list[0], "remote speech API: remote speech API unavailable");
            assert!(list[1].starts_with("remote speech CLI: "));
            assert!(list[2].starts_with("local speech engine: "));
            assert!(list[3].starts_with("Windows speech: "));
        }
        _ => panic!("expected every strategy to be reported"),
    }
    assert_eq!(tried, plan_for(PlatformKind::Windows));
    assert!(cache.is_empty());
}

#[test]
fn fallback_moves_on_and_empty_audio_is_failure() {
    let engine = TTSEngine::with_cache_dir("/tmp/unused");
    let mut cache = HashMap::new();
    let mut tried = Vec::new();
    let r = drive(
        &engine,
        &mut cache,
        "Hallo",
        "German",
        PlatformKind::Generic,
        &mut |st| match st {
            Strategy::RemoteApi => Err("offline".to_string()),
            Strategy::RemoteCli => Ok(Vec::new()),
            _ => Ok(vec![7]),
        },
        &mut tried,
    );
    assert_eq!(r.ok(), Some(vec![7]));
    assert_eq!(tried, vec![Strategy::RemoteApi, Strategy::RemoteCli, Strategy::LocalEngine]);
}

#[test]
fn plans_per_platform() {
    assert_eq!(plan_for(PlatformKind::Generic).len(), 3);
    assert_eq!(plan_for(PlatformKind::Android)[3], Strategy::Native(PlatformKind::Android));
}

#[test]
fn playback_decisions() {
    let m = already_played_marker();
    assert_eq!(m, b"TTS_SUCCESS_TERMUX".to_vec());
    assert_eq!(playback_action(&m).ok(), Some(PlaybackAction::AlreadyPlayed));
    assert_eq!(playback_action(&[1, 2]).ok(), Some(PlaybackAction::Decode));
    assert!(matches!(playback_action(&[]), Err(SynthesisError::Playback(_))));
}

#[test]
fn error_kinds() {
    assert_eq!(SynthesisError::EmptyInput.kind(), "empty input");
    assert_eq!(SynthesisError::AllMethodsFailed(Vec::new()).kind(), "all synthesis methods failed");
}

#[test]
fn exhaustion_report_lists_failures_and_hints() {
    let r = exhaustion_report(&["remote speech API: offline".to_string(), "local speech engine: missing".to_string()]);
    assert!(r.starts_with("All speech synthesis methods failed:\n  - remote speech API: offline\n  - local speech engine: missing\n"));
    assert!(r.ends_with(REMEDIATION_HINTS));
    assert!(r.contains("espeak-ng"));
}
