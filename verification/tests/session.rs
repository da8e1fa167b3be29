use virtual_mic::config::{EngineConfig, EngineMode};
use virtual_mic::session::{build_frame, AudioFrame, EngineSession, InputRoute};
use virtual_mic::wire::pcm16_to_le_bytes;

fn bypass_config() -> EngineConfig {
    let mut config = EngineConfig::default_config();
    config.mode = EngineMode::Bypass;
    config.output_sample_rate = 48_000;
    config
}

#[test]
fn input_is_refused_until_started() {
    let mut session = EngineSession::new(bypass_config(), 0.0f32);
    let err = session.push_input_pcm(&[0.1, 0.2], 2, 1, 48_000, 1).unwrap_err();
    assert_eq!(err.message(), "engine is not running");
    session.start(None).expect("start");
    assert_eq!(session.push_input_pcm(&[0.1, 0.2], 2, 1, 48_000, 1).unwrap(), InputRoute::Bypass);
    session.stop();
    assert!(session.push_input_pcm(&[0.1], 1, 1, 48_000, 2).is_err());
}

#[test]
fn bypass_output_round_trip_and_metrics() {
    let mut session = EngineSession::new(bypass_config(), 0.0f32);
    session.start(None).unwrap();
    let route = session.push_input_pcm(&[0.1, 0.2, 0.3], 3, 1, 48_000, 10).unwrap();
    assert_eq!(route, InputRoute::Bypass);
    assert_eq!(session.push_output_frame(&[0.1, 0.2, 0.3], 1, 10).unwrap(), 3);
    let mut out = [9.0f32; 5];
    let ts = session.pull_output_pcm(&mut out, 1, 48_000).unwrap();
    assert_eq!(ts, 10);
    assert_eq!(out, [0.1, 0.2, 0.3, 0.0, 0.0]);
    let json = session.metrics_json();
    assert!(json.contains("\"capture_frames\":3"));
    assert!(json.contains("\"pushed_samples\":3"));
    assert!(json.contains("\"output_frames\":5"));
    assert!(json.contains("\"underrun_count\":1"));
    assert!(json.contains("\"output_queue_depth_ms\":0"));
    let err = session.pull_output_pcm(&mut out, 0, 48_000).unwrap_err();
    assert_eq!(err.message(), "invalid output format");
}

#[test]
fn queue_depth_in_metrics() {
    let mut session = EngineSession::new(bypass_config(), 0i16);
    session.push_output_frame(&vec![1i16; 480], 1, 5).unwrap();
    assert!(session.metrics_json().contains("\"output_queue_depth_ms\":10"));
}

#[test]
fn shared_output_follows_the_output() {
    let mut session = EngineSession::new(bypass_config(), 0.0f32);
    let mut out = [0.0f32; 4];
    let err = session.read_shared_output_pcm(&mut out, 1).unwrap_err();
    assert_eq!(err.message(), "shared output is not enabled");
    assert!(session.shared_output_path().is_none());
    assert_eq!(
        session.enable_shared_output(0, 1, 48_000).unwrap_err().message(),
        "invalid shared output buffer format"
    );
    session.enable_shared_output(960, 1, 48_000).expect("enable shared output");
    assert_eq!(
        session.shared_output_path().unwrap(),
        "/tmp/translator_virtual_mic/shared_output.bin"
    );
    session.push_output_frame(&[0.25, 0.5, 0.75], 1, 77).unwrap();
    let (frames, ts) = session.read_shared_output_pcm(&mut out, 1).unwrap();
    assert_eq!(frames, 3);
    assert_eq!(ts, 77);
    assert_eq!(out, [0.25, 0.5, 0.75, 0.0]);
    let err = session.push_output_frame(&[0.1, 0.2], 2, 78).unwrap_err();
    assert_eq!(err.message(), "shared output channel mismatch");
    let (header, samples) = session.shared_output_snapshot().unwrap();
    assert_eq!(header.write_index_frames, 3);
    assert_eq!(samples.len(), 960);
    session.restore_shared_output(header, samples).unwrap();
}

#[test]
fn translate_mode_queues_and_ingests_azure_events() {
    let mut session = EngineSession::new(
        EngineConfig::from_json_lossy(
            r#"{
                "translation_provider":"azure_voice_live",
                "azure_voice_live_endpoint":"https://example-resource.cognitiveservices.azure.com",
                "azure_voice_live_api_version":"2025-10-01",
                "azure_voice_live_model":"gpt-realtime",
                "azure_voice_live_api_key":"test-key",
                "azure_voice_live_voice_name":"en-US-Ava:DragonHDLatestNeural",
                "azure_voice_live_source_locale":"auto",
                "azure_voice_live_target_locale":"en-US"
            }"#,
            None,
        ),
        0.0f32,
    );
    session.set_mode(EngineMode::Translate, None);
    session.enable_shared_output(960, 1, 48_000).expect("enable shared output");
    session.start(None).expect("start");

    let bootstrap = session.take_next_azure_voice_live_event().expect("take event").expect("session update");
    assert!(bootstrap.contains("\"type\":\"session.update\""));
    let response_create = session
        .take_next_azure_voice_live_event()
        .expect("take event")
        .expect("response create");
    assert!(response_create.contains("\"type\":\"response.create\""));

    let route = session.push_input_pcm(&[0.0, 0.25, -0.25, 0.5], 4, 1, 48_000, 1).expect("push input");
    assert_eq!(route, InputRoute::Translate);
    session.queue_translation_input(&pcm16_to_le_bytes(&[0, 8192]));
    let append_event = session.take_next_azure_voice_live_event().expect("take event").expect("audio append");
    assert!(append_event.contains("\"type\":\"input_audio_buffer.append\""));

    let event = r#"{
        "type":"response.audio.delta",
        "response_id":"resp_1",
        "item_id":"item_1",
        "delta":"AAABAA=="
    }"#;
    let (samples, timestamp) = session
        .ingest_azure_voice_live_server_event(event)
        .expect("ingest event")
        .expect("audio");
    assert_eq!(samples, vec![0, 1]);
    assert_eq!(timestamp, 2);
    let state = session.azure_voice_live_state().expect("state");
    assert_eq!(state.audio_delta_count, 1);
    assert!(session
        .translation_state_json()
        .starts_with("{\"audio_delta_count\":1,\"audio_done_count\":0"));
}

#[test]
fn translate_mode_queues_and_ingests_openai_events() {
    let mut session = EngineSession::new(
        EngineConfig::from_json_lossy(
            r#"{
                "translation_provider":"openai_realtime",
                "openai_realtime_endpoint":"wss://api.openai.com/v1/realtime",
                "openai_realtime_model":"gpt-realtime",
                "openai_realtime_api_key":"test-key",
                "openai_realtime_voice_name":"alloy",
                "openai_realtime_source_locale":"auto",
                "openai_realtime_target_locale":"en-US"
            }"#,
            None,
        ),
        0.0f32,
    );
    session.set_mode(EngineMode::Translate, None);
    session.start(None).expect("start");
    let bootstrap = session.take_next_azure_voice_live_event().expect("take event").expect("session update");
    assert!(bootstrap.contains("\"type\":\"session.update\""));
    assert!(session.push_input_pcm(&[0.0, 0.25], 2, 1, 48_000, 1).is_ok());
    session.queue_translation_input(&pcm16_to_le_bytes(&[0, 8192]));
    let append_event = session.take_next_azure_voice_live_event().expect("take event").expect("audio append");
    assert!(append_event.contains("\"type\":\"input_audio_buffer.append\""));
    let event = r#"{"type":"response.output_audio.delta","response_id":"resp_1","item_id":"item_1","delta":"AAABAA=="}"#;
    let (samples, _) = session.ingest_azure_voice_live_server_event(event).unwrap().unwrap();
    assert_eq!(samples.len(), 2);
    assert_eq!(session.openai_realtime_state().expect("state").audio_delta_count, 1);
}

#[test]
fn no_bridge_without_translate_mode() {
    let mut session = EngineSession::new(bypass_config(), 0.0f32);
    session.start(None).unwrap();
    assert_eq!(
        session.take_next_azure_voice_live_event().unwrap_err().message(),
        "translation bridge is not active"
    );
    assert_eq!(
        session.ingest_azure_voice_live_server_event("{}").unwrap_err().message(),
        "translation bridge is not active"
    );
    assert_eq!(session.translation_state_json(), "{}");
    assert_eq!(session.current_mode(), 0);
    session.set_target_language("fr");
    assert_eq!(session.target_language(), "fr");
}

#[test]
fn start_fails_without_provider_settings() {
    let mut config = bypass_config();
    config.mode = EngineMode::Translate;
    config.translation_provider = virtual_mic::config::TranslationProvider::AzureVoiceLive;
    let mut session = EngineSession::new(config, 0.0f32);
    let err = session.start(None).unwrap_err();
    assert_eq!(err.message(), "azure voice live config is missing");
    assert!(session.push_input_pcm(&[0.0], 1, 1, 48_000, 0).is_err());
}

#[test]
fn frames_are_built_from_host_buffers() {
    let f: AudioFrame<i16> = build_frame(&[1, 2, 3, 4, 5], 2, 2, 48_000, 9);
    assert_eq!(f.data, vec![1, 2, 3, 4]);
    assert_eq!(f.frames(), 2);
    let g = build_frame(&[1, 2, 3], 5, 0, 16_000, 9);
    assert_eq!(g.data, vec![1, 2, 3]);
    assert_eq!(g.frames(), 0);
}
