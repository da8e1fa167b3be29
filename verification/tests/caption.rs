use virtual_mic::caption::{
    check_stt_config, choose_tts_engine, keep_translation, keep_tts_audio, plan_translation,
    should_transcribe, stt_outcome, tts_candidate, CaptionEvent, CaptionPipeline, PostProcessor,
    TranslationStep, TtsEngine, MIN_STT_SAMPLES, VAD_START_LATENCY_MS,
};
use virtual_mic::config::{LocalMtConfig, LocalSttConfig, MtConfig};

#[test]
fn caption_event_json_shape() {
    let ev = CaptionEvent {
        timestamp_ns: 12345,
        original: "hello \"world\"".to_string(),
        translated: Some("你好".to_string()),
        is_final: true,
    };
    let json = ev.to_json();
    assert!(json.contains("\"type\":\"caption\""));
    assert!(json.contains("\"is_final\":true"));
    assert!(json.contains("\"timestamp_ns\":12345"));
    assert!(json.contains("\"text\":\"hello \\\"world\\\"\""));
    assert!(json.contains("\"translation\":\"你好\""));
}

#[test]
fn caption_event_json_without_translation() {
    let ev = CaptionEvent {
        timestamp_ns: 1,
        original: "hi".to_string(),
        translated: None,
        is_final: true,
    };
    let json = ev.to_json();
    assert!(!json.contains("translation"));
    assert!(json.contains("\"text\":\"hi\""));
}

#[test]
fn caption_event_partial_json_shape() {
    let ev = CaptionEvent {
        timestamp_ns: 12345,
        original: "hello worl".to_string(),
        translated: None,
        is_final: false,
    };
    let json = ev.to_json();
    assert!(json.contains("\"is_final\":false"));
    assert!(json.contains("\"text\":\"hello worl\""));
    assert!(!json.contains("translation"));
}

#[test]
fn caption_event_json_exact_with_control_characters() {
    let ev = CaptionEvent {
        timestamp_ns: 7,
        original: "a\tb\u{1}".to_string(),
        translated: Some("x\ny".to_string()),
        is_final: true,
    };
    assert_eq!(
        ev.to_json(),
        "{\"type\":\"caption\",\"is_final\":true,\"timestamp_ns\":7,\"text\":\"a\\tb\\u0001\",\"translation\":\"x\\ny\"}"
    );
}

#[test]
fn tts_fires_on_partial_and_final() {
    let mut last_tts_text = String::new();
    let text = "hello world";
    let should_synthesize = text.trim() != last_tts_text.trim();
    assert!(should_synthesize, "first partial should synthesize");
    last_tts_text = text.to_string();
    let should_synthesize_again = text.trim() != last_tts_text.trim();
    assert!(
        !should_synthesize_again,
        "identical partial should be skipped"
    );
    // Simulate final segment: clear dedup state
    last_tts_text.clear();
    let should_synthesize_after_final = text.trim() != last_tts_text.trim();
    assert!(
        should_synthesize_after_final,
        "after final reset, next partial should synthesize again"
    );

    // The post-processor applies the same rule, and forgets the spoken text
    // at the end of every final transcription.
    let mut pp = PostProcessor::new();
    assert!(pp.should_synthesize(true, text));
    pp.finish_job(false, text, false);
    assert!(pp.should_synthesize(true, text));
    pp.finish_job(true, text, true);
    assert!(pp.should_synthesize(true, text));
    assert!(!pp.should_synthesize(false, text));
    assert!(!pp.should_synthesize(true, "   "));
}

#[test]
fn worker_drops_short_jobs() {
    assert!(!should_transcribe(0));
    assert!(!should_transcribe(MIN_STT_SAMPLES - 1));
    assert!(should_transcribe(MIN_STT_SAMPLES));
}

#[test]
fn worker_outcomes() {
    let failed = stt_outcome(None, true, 5);
    assert!(failed.post_job.is_none() && failed.event.is_none() && failed.clear_busy);
    let blank = stt_outcome(Some("  ".to_string()), false, 5);
    assert!(blank.post_job.is_none() && blank.event.is_none() && blank.clear_busy);
    let partial = stt_outcome(Some("hello".to_string()), false, 5);
    assert!(partial.clear_busy);
    let job = partial.post_job.unwrap();
    assert_eq!(job.original, "hello");
    assert!(!job.is_final);
    let ev = partial.event.unwrap();
    assert_eq!(ev.original, "hello");
    assert!(ev.translated.is_none());
    let final_outcome = stt_outcome(Some("done".to_string()), true, 9);
    assert!(!final_outcome.clear_busy);
    assert_eq!(final_outcome.post_job.unwrap().timestamp_ns, 9);
}

#[test]
fn partial_translation_is_debounced() {
    let mut pp = PostProcessor::new();
    assert!(matches!(pp.translation_step("abc", false), TranslationStep::Skip));
    assert!(matches!(pp.translation_step("hello", false), TranslationStep::Translate));
    let ev = pp.record_translation("hello", false, 1, Some("bonjour".to_string())).unwrap();
    assert_eq!(ev.translated.as_deref(), Some("bonjour"));
    match pp.translation_step(" hello ", false) {
        TranslationStep::Reuse(t) => assert_eq!(t, "bonjour"),
        other => panic!("unexpected: {other:?}"),
    }
    assert!(matches!(pp.translation_step("hello", true), TranslationStep::Translate));
    assert!(pp.record_translation("hello", true, 2, None).is_none());
    // A final transcription forgets the partials.
    assert!(matches!(pp.translation_step("hello", false), TranslationStep::Translate));
}

#[test]
fn translation_results_and_tts_choice() {
    assert!(keep_translation(Some("  ".to_string())).is_none());
    assert!(keep_translation(None).is_none());
    assert_eq!(keep_translation(Some("ok".to_string())).unwrap(), "ok");
    assert_eq!(choose_tts_engine(false, true, true, true), Some(TtsEngine::ElevenLabs));
    assert_eq!(choose_tts_engine(true, true, true, true), Some(TtsEngine::MiniMax));
    assert_eq!(choose_tts_engine(false, false, false, false), None);
    assert!(!keep_tts_audio(TtsEngine::CosyVoice, true, 0));
    assert!(keep_tts_audio(TtsEngine::Sherpa, true, 0));
    assert!(!keep_tts_audio(TtsEngine::Sherpa, false, 10));
    assert_eq!(tts_candidate("orig", &Some("t".to_string())), "t");
    assert_eq!(tts_candidate("orig", &None), "orig");
}

#[test]
fn utterance_partials_and_tail() {
    let mut p: CaptionPipeline<i16, u8> = CaptionPipeline::new(500, 4, 2, true);
    let step = p.push_audio(&[1, 2, 3], true, false, 1_000_000_000, 10, true);
    assert_eq!(step.partial.unwrap(), vec![1, 2, 3]);
    assert_eq!(step.vad_start_latency_ms, Some(VAD_START_LATENCY_MS));
    // Within the partial interval: no new partial.
    let step = p.push_audio(&[4, 5], true, false, 1_100_000_000, 11, true);
    assert!(step.partial.is_none());
    // After the interval: a window of the newest four samples, unless busy.
    let busy = p.push_audio(&[6], true, true, 1_600_000_000, 12, true);
    assert!(busy.partial.is_none());
    let step = p.push_audio(&[7], true, false, 2_200_000_000, 13, true);
    assert_eq!(step.partial.unwrap(), vec![4, 5, 6, 7]);
    // Silence keeps the two-sample tail.
    let step = p.push_audio(&[0, 0], false, false, 2_300_000_000, 14, true);
    assert!(step.partial.is_none());
    let step = p.push_audio(&[8], true, false, 2_400_000_000, 15, false);
    assert_eq!(step.partial.unwrap(), vec![6, 7, 8]);
    assert!(step.vad_start_latency_ms.is_none());
}

#[test]
fn duplicate_final_caption_is_dropped() {
    let mut p: CaptionPipeline<f32, Vec<f32>> = CaptionPipeline::new(500, 16_000, 4_800, true);
    let ev = |text: &str, translated: Option<&str>, is_final: bool, ts: u64| CaptionEvent {
        timestamp_ns: ts,
        original: text.to_string(),
        translated: translated.map(|t| t.to_string()),
        is_final,
    };
    p.accept_event(ev("hello", None, false, 3), 0, false);
    p.accept_event(ev("hello", None, true, 5), 0, false);
    p.accept_event(ev("hello", Some("hola"), true, 4), 0, false);
    assert_eq!(p.last_event_at_ns(), 5);
    assert!(p.take_next_event().unwrap().contains("\"is_final\":false"));
    assert!(p.take_next_event().unwrap().contains("\"translation\":\"hola\""));
    assert!(p.take_next_event().is_none());
    assert!(!p.has_pending_events());
}

#[test]
fn latencies_are_reported_once_per_utterance() {
    let mut p: CaptionPipeline<i16, u32> = CaptionPipeline::new(500, 100, 10, false);
    p.push_audio(&[1], true, false, 0, 1_000_000, true);
    let lat = p.accept_event(
        CaptionEvent { timestamp_ns: 1, original: "a".into(), translated: None, is_final: false },
        251_000_000,
        true,
    );
    assert_eq!(lat.asr_first_partial_ms, Some(250));
    let lat = p.accept_event(
        CaptionEvent { timestamp_ns: 2, original: "ab".into(), translated: None, is_final: false },
        300_000_000,
        true,
    );
    assert!(lat.asr_first_partial_ms.is_none());
    let audio = p.accept_audio(42, 1_500_000, true);
    assert_eq!(audio.end_to_end_first_audio_ms, Some(1));
    assert!(audio.tts_first_audio_ms.is_none());
    assert_eq!(p.take_next_audio(), Some(42));
    let again = p.accept_audio(43, 9_000_000_000, true);
    assert!(again.end_to_end_first_audio_ms.is_none());
}

fn stt(enabled: bool, dir: &str, vad: &str) -> LocalSttConfig {
    LocalSttConfig {
        enabled,
        model_id: "paraformer-zh".into(),
        model_dir: dir.into(),
        vad_model_path: vad.into(),
        language: "zh".into(),
        partial_interval_ms: 500,
        overlap_tail_ms: 300,
        skip_partial_if_busy: true,
    }
}

#[test]
fn stt_settings_are_checked_in_order() {
    assert_eq!(check_stt_config(&stt(false, "", "")).unwrap_err().message(), "local STT is not enabled");
    assert_eq!(check_stt_config(&stt(true, "", "v")).unwrap_err().message(), "local_stt.model_dir is empty");
    assert_eq!(
        check_stt_config(&stt(true, "d", "")).unwrap_err().message(),
        "local_stt.vad_model_path is empty"
    );
    assert!(check_stt_config(&stt(true, "d", "v")).is_ok());
}

fn mt(enabled: bool, key: &str) -> MtConfig {
    MtConfig {
        enabled,
        endpoint: "https://api.openai.com/v1/chat/completions".into(),
        api_key: key.into(),
        api_key_env: "OPENAI_API_KEY".into(),
        model: "gpt-4o-mini".into(),
        target_language: "en".into(),
    }
}

#[test]
fn translation_plan() {
    let err = plan_translation(Some(&mt(true, "")), None, None).unwrap_err();
    assert_eq!(err.message(), "MT enabled but no API key (env OPENAI_API_KEY unset)");
    let p = plan_translation(Some(&mt(true, "")), None, Some("sk-env")).unwrap();
    assert_eq!(p.mt_client.unwrap().model(), "gpt-4o-mini");
    assert_eq!(p.target_lang, "en");
    assert_eq!(p.local_mt_target_lang, "en");
    let local = LocalMtConfig {
        enabled: true,
        model_id: "opus-mt-zh-en".into(),
        model_dir: "/m".into(),
        source_lang: "zh".into(),
        target_lang: "ja".into(),
    };
    let p = plan_translation(Some(&mt(false, "")), Some(&local), None).unwrap();
    assert!(p.mt_client.is_none());
    assert_eq!(p.local_mt_target_lang, "ja");
    let p = plan_translation(None, None, None).unwrap();
    assert_eq!(p.target_lang, "");
}

#[test]
fn only_final_transcriptions_are_spoken_by_the_preferred_engine() {
    let mut pp = PostProcessor::new();
    assert_eq!(pp.speech_engine(false, true, true, true, true, "hello"), None);
    assert_eq!(pp.speech_engine(true, false, true, true, true, "hello"), Some(TtsEngine::ElevenLabs));
    assert_eq!(pp.speech_engine(true, false, false, false, true, "hello"), Some(TtsEngine::Sherpa));
    assert_eq!(pp.speech_engine(true, false, false, false, false, "hello"), None);
    assert_eq!(pp.speech_engine(true, true, false, false, false, "  "), None);
    pp.finish_job(true, "hello", true);
    assert_eq!(pp.speech_engine(true, true, false, false, false, "hello"), Some(TtsEngine::MiniMax));
}

#[test]
fn a_job_stream_speaks_each_final_once() {
    let mut pp = PostProcessor::new();
    let jobs = [("hel", false, 1u64), ("hello", false, 2), ("hello world", true, 3), ("again", false, 4), ("again", true, 5)];
    let mut spoken = Vec::new();
    for (text, is_final, ts) in jobs {
        let _ = pp.record_translation(text, is_final, ts, None);
        if let Some(engine) = pp.speech_engine(is_final, false, false, true, false, text) {
            spoken.push((ts, engine));
        }
        pp.finish_job(is_final, text, true);
    }
    assert_eq!(spoken, vec![(3, TtsEngine::CosyVoice), (5, TtsEngine::CosyVoice)]);
}
