use virtual_mic::stt_models::{
    select_tts_files, tts_file_candidates, tts_model_kind, SttError, TtsFilePresence, TtsModelKind,
};

fn presence(model_int8: bool, model_fp32: bool, voices: bool, tokens: bool, lexicon: bool, data_dir: bool) -> TtsFilePresence {
    TtsFilePresence { model_int8, model_fp32, voices, tokens, lexicon, data_dir }
}

#[test]
fn tts_model_kind_by_prefix() {
    assert_eq!(tts_model_kind("kokoro-multi-lang-v1_0"), TtsModelKind::Kokoro);
    assert_eq!(tts_model_kind("kokoro"), TtsModelKind::Kokoro);
    assert_eq!(tts_model_kind("vits-zh-aishell3"), TtsModelKind::Vits);
    assert_eq!(tts_model_kind("koko"), TtsModelKind::Vits);
}

#[test]
fn tts_candidates_live_under_the_model_directory() {
    let c = tts_file_candidates("/models", "vits-x");
    assert_eq!(c.dir, "/models/vits-x");
    assert_eq!(c.model_int8, "/models/vits-x/model.int8.onnx");
    assert_eq!(c.model_fp32, "/models/vits-x/model.onnx");
    assert_eq!(c.voices, "/models/vits-x/voices.bin");
    assert_eq!(c.tokens, "/models/vits-x/tokens.txt");
    assert_eq!(c.lexicon, "/models/vits-x/lexicon.txt");
    assert_eq!(c.data_dir, "/models/vits-x/espeak-ng-data");
}

#[test]
fn kokoro_prefers_quantised_model_and_needs_voices() {
    let c = tts_file_candidates("/m", "kokoro-en");
    let f = select_tts_files(TtsModelKind::Kokoro, &c, presence(true, true, true, true, true, false)).unwrap();
    assert_eq!(f.model, "/m/kokoro-en/model.int8.onnx");
    assert_eq!(f.voices.as_deref(), Some("/m/kokoro-en/voices.bin"));
    assert_eq!(f.lexicon, None);
    assert_eq!(f.data_dir, None);
    match select_tts_files(TtsModelKind::Kokoro, &c, presence(false, true, false, true, false, false)) {
        Err(SttError::Model(m)) => assert_eq!(m, "TTS file not found: /m/kokoro-en/voices.bin"),
        other => panic!("unexpected {other:?}"),
    }
    match select_tts_files(TtsModelKind::Kokoro, &c, presence(false, false, true, true, false, false)) {
        Err(SttError::Model(m)) => assert_eq!(m, "kokoro model.onnx not found in /m/kokoro-en"),
        other => panic!("unexpected {other:?}"),
    }
}

#[test]
fn vits_uses_optional_lexicon_and_data() {
    let c = tts_file_candidates("/m", "vits-zh");
    let f = select_tts_files(TtsModelKind::Vits, &c, presence(false, true, false, true, true, true)).unwrap();
    assert_eq!(f.model, "/m/vits-zh/model.onnx");
    assert_eq!(f.voices, None);
    assert_eq!(f.lexicon.as_deref(), Some("/m/vits-zh/lexicon.txt"));
    assert_eq!(f.data_dir.as_deref(), Some("/m/vits-zh/espeak-ng-data"));
    match select_tts_files(TtsModelKind::Vits, &c, presence(true, false, false, false, false, false)) {
        Err(SttError::Model(m)) => assert_eq!(m, "TTS file not found: /m/vits-zh/tokens.txt"),
        other => panic!("unexpected {other:?}"),
    }
    match select_tts_files(TtsModelKind::Vits, &c, presence(false, false, false, true, false, false)) {
        Err(SttError::Model(m)) => assert_eq!(m, "vits model.onnx not found in /m/vits-zh"),
        other => panic!("unexpected {other:?}"),
    }
}

#[test]
fn catalogue_totals_are_sums_of_file_sizes() {
    for id in ["paraformer-zh", "paraformer-trilingual", "fire-red-asr-v1", "moonshine-base-en", "zipformer-ctc-zh"] {
        let m = virtual_mic::stt_models::get_model(id).unwrap();
        assert_eq!(m.id, id);
        assert!(!m.files.is_empty());
        assert_eq!(m.files.iter().map(|f| f.size_bytes).sum::<u64>(), m.total_size_bytes);
    }
    let m = virtual_mic::stt_models::get_model("zipformer-ctc-zh").unwrap();
    assert_eq!(m.files[1].url, "https://huggingface.co/csukuangfj/sherpa-onnx-zipformer-ctc-zh-int8-2025-07-03/resolve/main/tokens.txt");
    assert_eq!(m.size_display, "350 MB");
    assert!(virtual_mic::stt_models::get_model("whisper").is_none());
}
