use virtual_mic::config::{EngineConfig, EngineMode, TranslationProvider};
use virtual_mic::scan::{json_value_token, TokenClass};

#[test]
fn eleven_labs_provider_parsed_from_json() {
    let config = EngineConfig::from_json_lossy(r#"{"translation_provider":"eleven_labs"}"#, None);
    assert_eq!(config.translation_provider, TranslationProvider::ElevenLabs);
}

#[test]
fn local_stt_parsed_from_json() {
    let raw = r#"{"local_stt_enabled":true,"local_stt_model_id":"paraformer-zh","local_stt_vad_threshold":0.4}"#;
    let config = EngineConfig::from_json_lossy(raw, None);
    let stt = config.local_stt.expect("local_stt should parse");
    assert!(stt.enabled);
    assert_eq!(stt.model_id, "paraformer-zh");
    // The threshold, a float, is read by the host from the number token.
    let token = json_value_token(raw, "local_stt_vad_threshold", TokenClass::Decimal).unwrap();
    let vad_threshold: f32 = token.parse().unwrap();
    assert!((vad_threshold - 0.4).abs() < 1e-6);
}

#[test]
fn cosyvoice_tts_parsed_from_json() {
    let config = EngineConfig::from_json_lossy(
        r#"{"cosyvoice_tts_enabled":true,"cosyvoice_tts_endpoint":"http://127.0.0.1:50000","cosyvoice_tts_prompt_text":"hello"}"#,
        None,
    );
    let cv = config.cosyvoice_tts.expect("cosyvoice_tts should parse");
    assert!(cv.enabled);
    assert_eq!(cv.endpoint, "http://127.0.0.1:50000");
    assert_eq!(cv.prompt_text, "hello");
}

#[test]
fn cosyvoice_tts_absent_when_not_mentioned() {
    let config = EngineConfig::from_json_lossy(r#"{}"#, None);
    assert!(config.cosyvoice_tts.is_none());
}

#[test]
fn mt_parsed_from_json() {
    let config = EngineConfig::from_json_lossy(
        r#"{"mt_enabled":true,"mt_model":"qwen2.5-7b","mt_endpoint":"http://localhost:8080/v1/chat/completions"}"#,
        None,
    );
    let mt = config.mt.expect("mt should parse");
    assert!(mt.enabled);
    assert_eq!(mt.model, "qwen2.5-7b");
    assert_eq!(mt.endpoint, "http://localhost:8080/v1/chat/completions");
}

#[test]
fn engine_mode_numbers_round_trip() {
    for code in -2..8 {
        match EngineMode::from_i32(code) {
            Some(m) => assert_eq!(m.as_i32(), code),
            None => assert!(code < 0 || code > 4),
        }
    }
    assert_eq!(EngineMode::from_i32(1), Some(EngineMode::Translate));
}

#[test]
fn defaults_without_settings() {
    let config = EngineConfig::from_json_lossy("", None);
    assert_eq!(config.mode, EngineMode::Bypass);
    assert_eq!(config.translation_provider, TranslationProvider::NoProvider);
    assert!(config.local_stt.is_none());
    assert!(config.mt.is_none());
}

#[test]
fn home_expands_model_dirs() {
    let config = EngineConfig::from_json_lossy(
        r#"{"local_stt_enabled":true,"local_stt_model_dir":"~/models"}"#,
        Some("/home/u"),
    );
    let stt = config.local_stt.unwrap();
    assert_eq!(stt.model_dir, "/home/u/models");
}
