use virtual_mic::base64::{base64_decode, base64_encode};
use virtual_mic::metrics::{EngineMetrics, LatencyTracker};
use virtual_mic::shared_output::{
    decode_header, encode_header, SharedBufferHeader, SharedOutputBuffer, SHARED_BUFFER_MAGIC,
    SHARED_BUFFER_VERSION,
};
use virtual_mic::stt_models::{
    downloaded_file_paths, get_model, is_model_downloaded, model_file_path, plan_backend,
    BackendKind, BackendPlan, ManagedTranscriber, SttError,
};
use virtual_mic::wire::{escape_json, json_escape, pcm16_to_le_bytes, pcm16le_bytes_to_i16, percent_encode};

#[test]
fn base64_round_trip() {
    for bytes in [vec![], vec![0u8], vec![1, 2], vec![255, 254, 253], vec![0, 0, 1, 0]] {
        let text = base64_encode(&bytes);
        assert_eq!(base64_decode(&text).unwrap(), bytes);
    }
    assert_eq!(base64_encode(b"hello"), "aGVsbG8=");
    assert_eq!(base64_decode("AAABAA==").unwrap(), vec![0, 0, 1, 0]);
    assert!(base64_decode("A").is_err());
    assert!(base64_decode("A*==").is_err());
}

#[test]
fn pcm16_round_trip() {
    let samples = vec![0i16, 1, -1, i16::MAX, i16::MIN, 12345];
    assert_eq!(pcm16le_bytes_to_i16(&pcm16_to_le_bytes(&samples)), samples);
    assert_eq!(pcm16_to_le_bytes(&[0x1234]), vec![0x34, 0x12]);
}

#[test]
fn text_escapes() {
    assert_eq!(escape_json("a\"b\\c\u{2}"), "a\\\"b\\\\c\\u0002");
    assert_eq!(percent_encode("a b/é"), "a%20b%2F%C3%A9");
}

#[test]
fn latency_tracker_reports_last_value() {
    let mut t = LatencyTracker::new();
    assert_eq!(t.get_ms(), 0);
    t.record(120);
    assert_eq!(t.get_ms(), 120);
    t.record(u64::MAX);
    assert_eq!(t.get_ms(), 0);
}

#[test]
fn metrics_json_counts_events() {
    let mut m = EngineMetrics::new();
    m.record_capture(10, 20);
    m.record_underrun();
    m.record_overflow();
    m.record_overflow();
    m.record_asr_final(42);
    let json = m.to_json(7);
    assert!(json.starts_with("{\"mic_capture_gap_ms\":0,\"vad_start_latency_ms\":0,"));
    assert!(json.contains("\"asr_final_ms\":42"));
    assert!(json.contains("\"capture_frames\":10"));
    assert!(json.contains("\"pushed_samples\":20"));
    assert!(json.contains("\"output_queue_depth_ms\":7"));
    assert!(json.contains("\"underrun_count\":1"));
    assert!(json.contains("\"overflow_count\":2"));
    assert!(json.ends_with("\"fallback_count\":0}"));
}

#[test]
fn header_round_trip() {
    let h = SharedBufferHeader {
        magic: SHARED_BUFFER_MAGIC,
        version: SHARED_BUFFER_VERSION,
        channel_count: 2,
        sample_rate: 48_000,
        capacity_frames: 960,
        reserved: 0,
        write_index_frames: 123_456_789_012,
        read_index_frames: 5,
        last_timestamp_ns: u64::MAX,
    };
    let bytes = encode_header(&h);
    assert_eq!(bytes.len(), 48);
    let d = decode_header(&bytes);
    assert_eq!(d.magic, h.magic);
    assert_eq!(d.channel_count, 2);
    assert_eq!(d.write_index_frames, 123_456_789_012);
    assert_eq!(d.last_timestamp_ns, u64::MAX);
}

#[test]
fn writes_and_reads_interleaved_pcm() {
    let mut buffer = SharedOutputBuffer::new(4, 1, 48_000, 0.0f32).expect("buffer");
    buffer.write_frame(&[0.1, 0.2, 0.3], 1, 48_000, 55).expect("write");
    let mut out = vec![0.0; 4];
    let (frames, ts) = buffer.read_into(&mut out, 1, 0.0).expect("read");
    assert_eq!(frames, 3);
    assert_eq!(ts, 55);
    assert_eq!(&out[..3], &[0.1, 0.2, 0.3]);
    assert_eq!(out[3], 0.0);
}

#[test]
fn shared_ring_keeps_newest_frames() {
    let mut buffer = SharedOutputBuffer::new(2, 2, 16_000, 0i16).unwrap();
    buffer.write_frame(&[1, 2, 3, 4, 5, 6], 2, 16_000, 1).unwrap();
    let mut out = vec![0i16; 6];
    let (frames, _) = buffer.read_into(&mut out, 2, -1).unwrap();
    assert_eq!(frames, 2);
    assert_eq!(out, vec![3, 4, 5, 6, -1, -1]);
    assert!(buffer.write_frame(&[1], 2, 8_000, 2).is_err());
    assert!(buffer.read_into(&mut out, 1, 0).is_err());
}

#[test]
fn stt_catalogue_and_paths() {
    let m = get_model("moonshine-base-en").unwrap();
    assert_eq!(m.backend, BackendKind::Moonshine);
    assert_eq!(m.files.len(), 5);
    assert!(get_model("whisper").is_none());
    assert_eq!(model_file_path("/m", "paraformer-zh", "tokens.txt"), "/m/paraformer-zh/tokens.txt");
    let paths = downloaded_file_paths("/m", "paraformer-zh").unwrap();
    assert_eq!(paths, vec!["/m/paraformer-zh/model.int8.onnx", "/m/paraformer-zh/tokens.txt"]);
    assert!(is_model_downloaded("paraformer-zh", &[Some(10), Some(1)]));
    assert!(is_model_downloaded("paraformer-zh", &[Some(10), Some(0)]));
    assert!(!is_model_downloaded("paraformer-zh", &[Some(10), None]));
    assert!(!is_model_downloaded("paraformer-zh", &[Some(10)]));
    assert!(!is_model_downloaded("unknown", &[]));
    match plan_backend("zipformer-ctc-zh", "/m").unwrap() {
        BackendPlan::ZipformerCtc { model, tokens } => {
            assert_eq!(model, "/m/zipformer-ctc-zh/model.int8.onnx");
            assert_eq!(tokens, "/m/zipformer-ctc-zh/tokens.txt");
        }
        other => panic!("unexpected: {other:?}"),
    }
    match plan_backend("nope", "/m") {
        Err(e) => assert_eq!(e.display_text(), "model error: unknown model id: nope"),
        Ok(_) => panic!("expected an error"),
    }
}

#[test]
fn managed_transcriber_slot() {
    let mut t: ManagedTranscriber<u32> = ManagedTranscriber::new();
    assert!(!t.is_loaded());
    match t.backend() {
        Err(SttError::Backend(m)) => assert_eq!(m, "no backend loaded"),
        other => panic!("unexpected: {other:?}"),
    }
    t.load(7);
    assert_eq!(*t.backend().unwrap(), 7);
    t.unload();
    assert!(!t.is_loaded());
}

#[test]
fn json_escape_escapes_quotes_backslashes_and_whitespace_controls() {
    assert_eq!(json_escape("a\"b\\c\nd\te\rf"), "a\\\"b\\\\c\\nd\\te\\rf");
    assert_eq!(json_escape("plain 中文"), "plain 中文");
}

#[test]
fn shared_ring_reads_back_a_write_after_wrapping() {
    let mut buffer = SharedOutputBuffer::new(3, 2, 48_000, 0i16).unwrap();
    buffer.write_frame(&[1, 1, 2, 2], 2, 48_000, 10).unwrap();
    let mut first = vec![0i16; 4];
    assert_eq!(buffer.read_into(&mut first, 2, 0).unwrap(), (2, 10));
    let data = [5i16, -5, 6, -6, 7, -7];
    buffer.write_frame(&data, 2, 48_000, 20).unwrap();
    let mut out = vec![0i16; 6];
    assert_eq!(buffer.read_into(&mut out, 2, 0).unwrap(), (3, 20));
    assert_eq!(out, data.to_vec());
}

#[test]
fn base64_length_and_alphabet() {
    for n in 0usize..10 {
        let bytes: Vec<u8> = (0..n as u8).map(|b| b.wrapping_mul(97)).collect();
        let e = base64_encode(&bytes);
        assert_eq!(e.len(), 4 * ((n + 2) / 3));
        let body = e.trim_end_matches('=');
        assert!(e.len() - body.len() <= 2);
        assert!(body.chars().all(|c| c.is_ascii_alphanumeric() || c == '+' || c == '/'));
    }
}
