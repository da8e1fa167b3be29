use virtual_mic::azure_voice_live::{
    self, AzureVoiceLiveBridge, AzureVoiceLivePlan, AzureVoiceLiveRuntimeState,
    AzureVoiceLiveServerEvent,
};
use virtual_mic::config::{EngineConfig, EngineMode, TranslationProvider};
use virtual_mic::openai_realtime::{
    self, OpenAIRealtimeBridge, OpenAIRealtimePlan, OpenAIRealtimeServerEvent,
};
use virtual_mic::wire::pcm16_to_le_bytes;

fn azure_config() -> EngineConfig {
    EngineConfig::from_json_lossy(
        r#"{
            "translation_provider":"azure_voice_live",
            "azure_voice_live_endpoint":"https://example-resource.cognitiveservices.azure.com",
            "azure_voice_live_api_version":"2025-10-01",
            "azure_voice_live_model":"gpt-realtime",
            "azure_voice_live_api_key":"test-key",
            "azure_voice_live_voice_name":"en-US-Ava:DragonHDLatestNeural",
            "azure_voice_live_source_locale":"auto",
            "azure_voice_live_target_locale":"ja-JP"
        }"#,
        None,
    )
}

fn openai_config() -> EngineConfig {
    EngineConfig::from_json_lossy(
        r#"{
            "translation_provider":"openai_realtime",
            "openai_realtime_endpoint":"wss://api.openai.com/v1/realtime",
            "openai_realtime_model":"gpt-realtime",
            "openai_realtime_api_key":"test-key",
            "openai_realtime_voice_name":"marin",
            "openai_realtime_source_locale":"auto",
            "openai_realtime_target_locale":"ja-JP"
        }"#,
        None,
    )
}

#[test]
fn azure_voice_live_builds_websocket_plan() {
    let mut config = azure_config();
    config.mode = EngineMode::Translate;
    config.translation_provider = TranslationProvider::AzureVoiceLive;
    let plan = AzureVoiceLivePlan::from_config(&config, None).expect("plan");
    assert!(plan.websocket_url.contains("voice-live/realtime"));
    assert!(plan.websocket_url.contains("api-version=2025-10-01"));
    assert!(plan.websocket_url.contains("model=gpt-realtime"));
    assert!(plan.auth_headers.iter().any(|(key, _)| key == "api-key"));
    assert!(plan.session_update_event.contains("\"type\":\"session.update\""));
    assert!(plan.session_update_event.contains("azure_semantic_vad"));
    assert!(plan.session_update_event.contains("ja-JP"));
}

#[test]
fn audio_append_event_contains_base64_audio() {
    let event = azure_voice_live::build_input_audio_append_event(&pcm16_to_le_bytes(&[0, 16384, -16384]));
    assert!(event.contains("\"type\":\"input_audio_buffer.append\""));
    assert!(event.contains("\"audio\":\""));
    assert_eq!(
        event,
        "{\"type\":\"input_audio_buffer.append\",\"audio\":\"AAAAQADA\"}"
    );
}

#[test]
fn parses_audio_delta_event() {
    let event = azure_voice_live::parse_server_event(
        r#"{
            "type":"response.audio.delta",
            "response_id":"resp_1",
            "item_id":"item_1",
            "delta":"AAABAA=="
        }"#,
    )
    .expect("parse event");

    match event {
        AzureVoiceLiveServerEvent::ResponseAudioDelta {
            response_id,
            item_id,
            audio_bytes,
        } => {
            assert_eq!(response_id, "resp_1");
            assert_eq!(item_id, "item_1");
            assert_eq!(audio_bytes.len(), 4);
        }
        other => panic!("unexpected event: {other:?}"),
    }
}

#[test]
fn applies_audio_delta_to_runtime_state() {
    let event = AzureVoiceLiveServerEvent::ResponseAudioDelta {
        response_id: "resp".to_string(),
        item_id: "item".to_string(),
        audio_bytes: pcm16_to_le_bytes(&[0, 16384]),
    };
    let mut state = AzureVoiceLiveRuntimeState::new();
    let samples = azure_voice_live::apply_server_event(&mut state, &event).expect("audio samples");
    assert_eq!(state.audio_delta_count, 1);
    assert_eq!(state.last_response_id, "resp");
    assert_eq!(state.last_item_id, "item");
    assert_eq!(samples.len(), 2);
    assert_eq!(samples, vec![0, 16384]);
}

#[test]
fn azure_voice_live_bridge_queues_bootstrap_and_audio_events() {
    let config = azure_config();
    let mut bridge = AzureVoiceLiveBridge::from_config(&config, None).expect("bridge");
    assert!(bridge.take_next_event().unwrap().contains("\"type\":\"session.update\""));
    assert!(bridge.take_next_event().unwrap().contains("\"type\":\"response.create\""));
    bridge.queue_input_audio_pcm16(&pcm16_to_le_bytes(&[0, 16384, -16384]));
    assert!(bridge.take_next_event().unwrap().contains("\"type\":\"input_audio_buffer.append\""));
    assert!(bridge.take_next_event().is_none());
}

#[test]
fn azure_key_falls_back_to_environment() {
    let mut config = azure_config();
    if let Some(a) = config.azure_voice_live.as_mut() {
        a.api_key = String::new();
    }
    let err = AzureVoiceLivePlan::from_config(&config, None).unwrap_err();
    let env_name = config.azure_voice_live.as_ref().unwrap().api_key_env.clone();
    assert_eq!(
        err.message(),
        format!("azure voice live api key is missing; set {env_name} or provide azure_voice_live_api_key")
    );
    let plan = AzureVoiceLivePlan::from_config(&config, Some("env-key")).expect("plan");
    assert!(plan.auth_headers.iter().any(|(k, v)| k == "api-key" && v == "env-key"));
}

#[test]
fn openai_realtime_builds_websocket_plan() {
    let mut config = openai_config();
    config.mode = EngineMode::Translate;
    config.translation_provider = TranslationProvider::OpenAIRealtime;
    let plan = OpenAIRealtimePlan::from_config(&config, None).expect("plan");
    assert_eq!(plan.websocket_url, "wss://api.openai.com/v1/realtime?model=gpt-realtime");
    assert!(plan.auth_headers.iter().any(|(key, _)| key == "Authorization"));
    assert!(plan.session_update_event.contains("\"type\":\"session.update\""));
    assert!(plan
        .session_update_event
        .contains("\"turn_detection\":{\"type\":\"semantic_vad\"}"));
    assert!(plan.session_update_event.contains("\"output_modalities\":[\"audio\"]"));
    assert!(plan.session_update_event.contains("\"voice\":\"marin\""));
    assert!(plan.session_update_event.contains("ja-JP"));
}

#[test]
fn parses_output_audio_delta_event() {
    let event = openai_realtime::parse_server_event(
        r#"{
            "type":"response.output_audio.delta",
            "response_id":"resp_1",
            "item_id":"item_1",
            "delta":"AAABAA=="
        }"#,
    )
    .expect("parse event");

    match event {
        OpenAIRealtimeServerEvent::ResponseAudioDelta {
            response_id,
            item_id,
            audio_bytes,
        } => {
            assert_eq!(response_id, "resp_1");
            assert_eq!(item_id, "item_1");
            assert_eq!(audio_bytes.len(), 4);
        }
        other => panic!("unexpected event: {other:?}"),
    }
}

#[test]
fn openai_realtime_bridge_queues_bootstrap_and_audio_events() {
    let config = openai_config();
    let mut bridge = OpenAIRealtimeBridge::from_config(&config, None).expect("bridge");
    assert!(bridge.take_next_event().unwrap().contains("\"type\":\"session.update\""));
    bridge.queue_input_audio_pcm16(&pcm16_to_le_bytes(&[0, 16384, -16384]));
    assert!(bridge.take_next_event().unwrap().contains("\"type\":\"input_audio_buffer.append\""));
}

#[test]
fn openai_bridge_ingests_audio_delta() {
    let mut bridge = OpenAIRealtimeBridge::from_config(&openai_config(), None).expect("bridge");
    let samples = bridge
        .ingest_server_event(r#"{"type":"response.output_audio.delta","response_id":"r","item_id":"i","delta":"AAABAA=="}"#)
        .expect("ingest")
        .expect("samples");
    assert_eq!(samples, vec![0, 1]);
    assert_eq!(bridge.state().audio_delta_count, 1);
    assert_eq!(bridge.state().translated_audio_samples, 2);
}
