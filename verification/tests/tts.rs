use virtual_mic::config::{ElevenLabsTtsConfig, MiniMaxTtsConfig};
use virtual_mic::tts::{
    build_multipart, reply_pcm16, reply_sample_rate, serde_json_str, speech_text, CosyVoiceClient,
    CosyVoiceConfig, CosyVoiceError, ElevenLabsTtsClient, ElevenLabsTtsError, MiniMaxReply,
    MiniMaxTtsClient, MiniMaxTtsError, SidecarClient, SidecarConfig, SidecarError,
    COSYVOICE_BOUNDARY, COSYVOICE_OUTPUT_SAMPLE_RATE, ELEVENLABS_OUTPUT_SAMPLE_RATE,
    MINIMAX_OUTPUT_SAMPLE_RATE, SIDECAR_DEFAULT_SAMPLE_RATE,
};

#[test]
fn rejects_empty_endpoint() {
    let cfg = CosyVoiceConfig {
        endpoint: String::new(),
        prompt_wav_path: "/tmp/ref.wav".to_string(),
        prompt_text: String::new(),
    };
    assert!(matches!(CosyVoiceClient::new(cfg), Err(CosyVoiceError::Config(_))));
}

#[test]
fn rejects_empty_wav_path() {
    let cfg = CosyVoiceConfig {
        endpoint: "http://127.0.0.1:50000".into(),
        prompt_wav_path: String::new(),
        prompt_text: String::new(),
    };
    assert!(matches!(CosyVoiceClient::new(cfg), Err(CosyVoiceError::Config(_))));
}

#[test]
fn multipart_body_contains_fields() {
    let body = build_multipart("BOUNDARY", "hello world", "reference text", b"WAVDATA");
    let s = String::from_utf8_lossy(&body);
    assert!(s.contains("--BOUNDARY"));
    assert!(s.contains("name=\"tts_text\""));
    assert!(s.contains("hello world"));
    assert!(s.contains("name=\"prompt_text\""));
    assert!(s.contains("reference text"));
    assert!(s.contains("name=\"prompt_wav\""));
    assert!(s.contains("filename=\"ref_voice.wav\""));
    assert!(s.contains("--BOUNDARY--"));
}

#[test]
fn multipart_body_binary_wav_preserved() {
    let wav = vec![0xAB_u8, 0xFF, 0x00];
    let body = build_multipart("B", "txt", "ptxt", &wav);
    let header = b"Content-Type: audio/wav\r\n\r\n";
    let pos = body
        .windows(header.len())
        .position(|w| w == header)
        .expect("header present");
    let after_header = &body[pos + header.len()..];
    assert!(after_header.starts_with(&wav));
}

#[test]
fn multipart_body_exact_bytes() {
    let body = build_multipart("b", "t", "p", &[1, 2]);
    let mut expected = b"--b\r\nContent-Disposition: form-data; name=\"tts_text\"\r\n\r\nt\r\n--b\r\nContent-Disposition: form-data; name=\"prompt_text\"\r\n\r\np\r\n--b\r\nContent-Disposition: form-data; name=\"prompt_wav\"; filename=\"ref_voice.wav\"\r\nContent-Type: audio/wav\r\n\r\n".to_vec();
    expected.extend_from_slice(&[1, 2]);
    expected.extend_from_slice(b"\r\n--b--\r\n");
    assert_eq!(body, expected);
}

#[test]
fn synthesize_returns_empty_for_blank_text() {
    let cfg = CosyVoiceConfig {
        endpoint: "http://127.0.0.1:50000".into(),
        prompt_wav_path: "/tmp/any.wav".into(),
        prompt_text: String::new(),
    };
    let _client = CosyVoiceClient::new(cfg).unwrap();
    // A blank text synthesizes to no samples, at the server's rate.
    assert!(speech_text("   ").is_none());
    assert_eq!(COSYVOICE_OUTPUT_SAMPLE_RATE, 22_050);
}

#[test]
fn cosyvoice_request_targets_zero_shot_endpoint() {
    let client = CosyVoiceClient::new(CosyVoiceConfig {
        endpoint: "http://h:1".into(),
        prompt_wav_path: "/tmp/r.wav".into(),
        prompt_text: "ref".into(),
    })
    .unwrap();
    assert_eq!(client.prompt_wav_path(), "/tmp/r.wav");
    let req = client.request("hi", &[9]);
    assert_eq!(req.url, "http://h:1/inference_zero_shot");
    assert_eq!(req.content_type, format!("multipart/form-data; boundary={COSYVOICE_BOUNDARY}"));
    assert_eq!(req.body, build_multipart(COSYVOICE_BOUNDARY, "hi", "ref", &[9]));
}

#[test]
fn pcm16_reply_ignores_trailing_byte() {
    assert_eq!(reply_pcm16(&[0, 0, 0xFF, 0x7F, 0x00, 0x80, 0x12]), vec![0, i16::MAX, i16::MIN]);
}

#[test]
fn lib_rejects_empty_api_key() {
    let cfg = ElevenLabsTtsConfig {
        api_key: String::new(),
        voice_id: "abc".into(),
        ..Default::default()
    };
    assert!(matches!(ElevenLabsTtsClient::new(cfg), Err(ElevenLabsTtsError::Config(_))));
}

#[test]
fn rejects_empty_voice_id() {
    let cfg = ElevenLabsTtsConfig {
        api_key: "key".into(),
        voice_id: String::new(),
        ..Default::default()
    };
    assert!(matches!(ElevenLabsTtsClient::new(cfg), Err(ElevenLabsTtsError::Config(_))));
}

#[test]
fn lib_synthesize_returns_empty_for_blank_text() {
    let cfg = ElevenLabsTtsConfig {
        enabled: true,
        api_key: "key".into(),
        voice_id: "vid".into(),
        model_id: "eleven_multilingual_v2".into(),
    };
    let _client = ElevenLabsTtsClient::new(cfg).unwrap();
    assert!(speech_text("   ").is_none());
    assert_eq!(ELEVENLABS_OUTPUT_SAMPLE_RATE, 24_000);
}

#[test]
fn json_escaping() {
    let result = serde_json_str("hello \"world\"\nnew");
    assert_eq!(result, r#""hello \"world\"\nnew""#);
}

#[test]
fn elevenlabs_request() {
    let client = ElevenLabsTtsClient::new(ElevenLabsTtsConfig {
        enabled: true,
        api_key: "k1".into(),
        voice_id: "v1".into(),
        model_id: "m1".into(),
    })
    .unwrap();
    let req = client.request("say \"hi\"");
    assert_eq!(
        req.url,
        "https://api.elevenlabs.io/v1/text-to-speech/v1/stream?output_format=pcm_24000"
    );
    assert_eq!(req.api_key, "k1");
    assert_eq!(req.body, r#"{"text":"say \"hi\"","model_id":"m1"}"#);
}

fn minimax_config(api_key: &str, voice: &str, sample_rate: u32) -> MiniMaxTtsConfig {
    MiniMaxTtsConfig {
        enabled: true,
        api_host: String::new(),
        api_key: api_key.into(),
        voice_id: voice.into(),
        model: String::new(),
        emotion: String::new(),
        pitch: -2,
        sample_rate,
    }
}

#[test]
fn minimax_settings_resolution() {
    match MiniMaxTtsClient::new(&minimax_config("", "", 0), None, None) {
        Err(MiniMaxTtsError::Config(m)) => assert_eq!(m, "MINIMAX_API_KEY not set"),
        other => panic!("unexpected: {other:?}"),
    }
    let c = MiniMaxTtsClient::new(&minimax_config("", "", 0), Some("env-key"), None).unwrap();
    let req = c.request("你好");
    assert_eq!(req.url, "https://api.minimaxi.com/v1/t2a_v2");
    assert_eq!(req.authorization, "Bearer env-key");
    assert_eq!(req.model, "speech-01-turbo");
    assert_eq!(req.voice_id, "male-qn-qingse");
    assert_eq!(req.emotion, "happy");
    assert_eq!(req.pitch, -2);
    assert_eq!(req.sample_rate, MINIMAX_OUTPUT_SAMPLE_RATE);
    assert_eq!(req.text, "你好");
    let c = MiniMaxTtsClient::new(&minimax_config("k", "", 16_000), None, Some("env-voice")).unwrap();
    let req = c.request("x");
    assert_eq!(req.voice_id, "env-voice");
    assert_eq!(req.sample_rate, 16_000);
}

#[test]
fn minimax_reply_reading() {
    let c = MiniMaxTtsClient::new(&minimax_config("k", "v", 0), None, None).unwrap();
    let reply = |code: Option<i64>, msg: Option<&str>, audio: Option<&str>| MiniMaxReply {
        status_code: code,
        status_msg: msg.map(|m| m.to_string()),
        audio_hex: audio.map(|a| a.to_string()),
    };
    match c.reply_samples(500, "oops", Ok(reply(None, None, None))) {
        Err(MiniMaxTtsError::Api { status, body }) => {
            assert_eq!(status, 500);
            assert_eq!(body, "oops");
        }
        other => panic!("unexpected: {other:?}"),
    }
    match c.reply_samples(200, "x", Err("bad json".to_string())) {
        Err(e) => assert_eq!(e.display_text(), "decode error: JSON parse: bad json"),
        Ok(_) => panic!("expected an error"),
    }
    match c.reply_samples(200, "", Ok(reply(Some(1004), Some("auth failed"), Some("0000")))) {
        Err(MiniMaxTtsError::ApiError(m)) => assert_eq!(m, "1004: auth failed"),
        other => panic!("unexpected: {other:?}"),
    }
    match c.reply_samples(200, "", Ok(reply(Some(-3), None, Some("0000")))) {
        Err(MiniMaxTtsError::ApiError(m)) => assert_eq!(m, "-3: unknown error"),
        other => panic!("unexpected: {other:?}"),
    }
    match c.reply_samples(200, "", Ok(reply(Some(0), None, None))) {
        Err(MiniMaxTtsError::Decode(m)) => assert_eq!(m, "missing data.audio in response"),
        other => panic!("unexpected: {other:?}"),
    }
    let (samples, rate) = c
        .reply_samples(200, "", Ok(reply(Some(0), Some("success"), Some(" 0000ff7F0080\n"))))
        .unwrap();
    assert_eq!(samples, vec![0, i16::MAX, i16::MIN]);
    assert_eq!(rate, MINIMAX_OUTPUT_SAMPLE_RATE);
    match c.reply_samples(200, "", Ok(reply(None, None, Some("abc")))) {
        Err(MiniMaxTtsError::Decode(m)) => assert!(m.starts_with("hex decode: ")),
        other => panic!("unexpected: {other:?}"),
    }
    match c.reply_samples(200, "", Ok(reply(None, None, Some("zz")))) {
        Err(MiniMaxTtsError::Decode(m)) => assert!(m.starts_with("hex decode: ")),
        other => panic!("unexpected: {other:?}"),
    }
}

#[test]
fn lib_rejects_empty_endpoint() {
    let cfg = SidecarConfig {
        endpoint: String::new(),
        ..Default::default()
    };
    assert!(matches!(SidecarClient::new(cfg), Err(SidecarError::Config(_))));
}

#[test]
fn sidecar_blank_text_is_not_sent() {
    let client = SidecarClient::new(SidecarConfig::default()).unwrap();
    assert!(speech_text("   ").is_none());
    assert_eq!(SIDECAR_DEFAULT_SAMPLE_RATE, 24_000);
    assert_eq!(client.synthesize_url(), "http://127.0.0.1:50001/synthesize");
    assert_eq!(client.models_url(), "http://127.0.0.1:50001/models");
    assert_eq!(client.health_url(), "http://127.0.0.1:50001/health");
    assert_eq!(client.load_model_url("kokoro"), "http://127.0.0.1:50001/models/kokoro/load");
}

#[test]
fn sidecar_request_and_sample_rate() {
    let client = SidecarClient::new(SidecarConfig {
        voice_name: Some("af_heart".into()),
        ..Default::default()
    })
    .unwrap();
    let req = client.synthesize_request("hello");
    assert_eq!(req.engine, "kokoro");
    assert_eq!(req.language, "en");
    assert_eq!(req.voice_name.as_deref(), Some("af_heart"));
    assert!(req.seed.is_none() && req.instruct.is_none() && req.ref_audio.is_none());
    assert_eq!(reply_sample_rate(Some("48000")), 48_000);
    assert_eq!(reply_sample_rate(Some("+16000")), 16_000);
    assert_eq!(reply_sample_rate(Some("4294967296")), 24_000);
    assert_eq!(reply_sample_rate(Some("abc")), 24_000);
    assert_eq!(reply_sample_rate(None), 24_000);
}

#[test]
fn error_display_texts() {
    assert_eq!(
        CosyVoiceError::Api { status: 503, body: "busy".into() }.display_text(),
        "api error: HTTP 503: busy"
    );
    assert_eq!(CosyVoiceError::Io("x".into()).display_text(), "io error reading reference wav: x");
    assert_eq!(ElevenLabsTtsError::Decode("d".into()).display_text(), "decode error: d");
    assert_eq!(MiniMaxTtsError::ApiError("1: m".into()).display_text(), "api returned error: 1: m");
    assert_eq!(SidecarError::Network("n".into()).display_text(), "network error: n");
}
