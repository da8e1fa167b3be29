use virtual_mic::mt_local::{
    bos_token_id, check_encoder, check_tokenizer, choose_decoder, decode_text, encode_text,
    encoder_input_ids, eos_token_id, get_model, iso_to_nllb, language_token_id, language_token_tag,
    madlad_reply, madlad_target, marian_model_paths, model_dir_path, model_family, special_token_id, translation_input, translation_output, GreedyDecode,
    tokenizer_from_json, MtLocalError, MtModelFamily, MtTokenizer, DEFAULT_MAX_LENGTH,
};

#[test]
fn iso_to_nllb_basic() {
    assert_eq!(iso_to_nllb("zh"), "zho_Hans");
    assert_eq!(iso_to_nllb("en"), "eng_Latn");
    assert_eq!(iso_to_nllb("ja"), "jpn_Jpan");
}

#[test]
fn iso_to_nllb_tags_and_unknown_codes() {
    assert_eq!(iso_to_nllb("zh-TW"), "zho_Hant");
    assert_eq!(iso_to_nllb("arb_Arab"), "arb_Arab");
    assert_eq!(iso_to_nllb("ru"), "rus_Cyrl");
    assert_eq!(iso_to_nllb("pt"), "pt");
}

#[test]
fn catalogue_lookup() {
    let m = get_model("nllb-200-distilled-600M").unwrap();
    assert_eq!(m.family, MtModelFamily::Nllb200);
    assert_eq!(m.src_lang, "multilingual");
    assert!(get_model("opus-mt-xx").is_none());
    assert_eq!(model_family("opus-mt-ja-en"), MtModelFamily::OpusMt);
    assert_eq!(model_family("google/madlad400-3b-mt"), MtModelFamily::Madlad400);
    assert_eq!(model_family("unknown-model"), MtModelFamily::OpusMt);
}

#[test]
fn madlad_targets() {
    assert_eq!(madlad_target("zh-TW"), "zh");
    assert_eq!(madlad_target("eng_Latn"), "en");
    assert_eq!(madlad_target("ru"), "ru");
}

#[test]
fn language_tokens_only_for_nllb() {
    assert_eq!(language_token_tag(MtModelFamily::Nllb200, "ko").unwrap(), "kor_Hang");
    assert!(language_token_tag(MtModelFamily::OpusMt, "ko").is_none());
}

#[test]
fn model_file_checks() {
    assert!(check_encoder("/m", true).is_ok());
    match check_encoder("/m", false) {
        Err(MtLocalError::Model(m)) => assert_eq!(m, "encoder_model.onnx not found in /m"),
        other => panic!("unexpected: {other:?}"),
    }
    assert!(choose_decoder("/m", true, true).unwrap());
    assert!(!choose_decoder("/m", false, true).unwrap());
    match choose_decoder("/m", false, false) {
        Err(MtLocalError::Model(m)) => {
            assert_eq!(m, "neither decoder_model_merged.onnx nor decoder_model.onnx found in /m")
        }
        other => panic!("unexpected: {other:?}"),
    }
    match check_tokenizer("/m", false) {
        Err(e) => assert_eq!(e.display_text(), "tokenizer error: tokenizer.json not found in /m"),
        Ok(()) => panic!("expected an error"),
    }
}

#[test]
fn special_tokens_fall_back() {
    assert_eq!(special_token_id(Some(58100), Some(1), 0), 58100);
    assert_eq!(special_token_id(None, Some(7), 0), 7);
    assert_eq!(special_token_id(None, None, 2), 2);
}

#[test]
fn encoder_ids_get_language_token_and_single_eos() {
    assert_eq!(encoder_input_ids(vec![5, 6], Some(9), 2), vec![9, 5, 6, 2]);
    assert_eq!(encoder_input_ids(vec![5, 2], None, 2), vec![5, 2]);
    assert_eq!(encoder_input_ids(vec![], None, 2), vec![2]);
}

#[test]
fn greedy_decode_stops_at_eos_and_strips_first_token() {
    let mut d = GreedyDecode::new(None, 0, 2);
    assert_eq!(d.decoder_input(), &[0]);
    assert!(d.accept(11));
    assert!(d.accept(12));
    assert_eq!(d.decoder_input(), &[0, 11, 12]);
    assert!(!d.accept(2));
    assert_eq!(d.finish(), vec![11, 12]);
}

#[test]
fn greedy_decode_starts_with_target_token_and_caps_length() {
    let mut d = GreedyDecode::new(Some(256_047), 0, 2);
    assert_eq!(d.decoder_input(), &[256_047]);
    let mut steps = 0;
    while d.accept(7) {
        steps += 1;
    }
    assert_eq!(steps + 1, DEFAULT_MAX_LENGTH);
    let out = d.finish();
    assert_eq!(out.len(), DEFAULT_MAX_LENGTH);
    assert!(out.iter().all(|&t| t == 7));
}

#[test]
fn blank_text_is_not_translated() {
    assert!(translation_input(" \n ").is_none());
    assert_eq!(translation_input("  你好 ").unwrap(), "你好");
}

fn toy_tokenizer(vocab: &str) -> MtTokenizer {
    let json = format!(
        "{{\"version\":\"1.0\",\"truncation\":null,\"padding\":null,\"added_tokens\":[],\"normalizer\":null,\"pre_tokenizer\":{{\"type\":\"Whitespace\"}},\"post_processor\":null,\"decoder\":null,\"model\":{{\"type\":\"WordLevel\",\"vocab\":{{{vocab}}},\"unk_token\":\"[UNK]\"}}}}"
    );
    match tokenizer_from_json(json.as_bytes()) {
        Ok(t) => t,
        Err(e) => panic!("toy tokenizer: {}", e.display_text()),
    }
}

const TOY_VOCAB: &str = "\"<pad>\":0,\"</s>\":1,\"hello\":2,\"world\":3,\"eng_Latn\":4,\"zho_Hans\":5,\"[UNK]\":6";

#[test]
fn tokenizer_special_tokens_come_from_vocabulary() {
    let tok = toy_tokenizer(TOY_VOCAB);
    assert_eq!(bos_token_id(&tok), 0);
    assert_eq!(eos_token_id(&tok), 1);
    let bare = toy_tokenizer("\"a\":5,\"[UNK]\":6");
    assert_eq!(bos_token_id(&bare), 0);
    assert_eq!(eos_token_id(&bare), 2);
    let alt = toy_tokenizer("\"[BOS]\":9,\"[EOS]\":8,\"[UNK]\":6");
    assert_eq!(bos_token_id(&alt), 9);
    assert_eq!(eos_token_id(&alt), 8);
}

#[test]
fn encode_text_adds_language_and_end_tokens() {
    let tok = toy_tokenizer(TOY_VOCAB);
    assert_eq!(encode_text(&tok, MtModelFamily::OpusMt, "en", "hello world").unwrap(), vec![2, 3, 1]);
    assert_eq!(encode_text(&tok, MtModelFamily::Nllb200, "en", "hello world").unwrap(), vec![4, 2, 3, 1]);
    assert_eq!(language_token_id(&tok, MtModelFamily::Nllb200, "zh"), Some(5));
    assert_eq!(language_token_id(&tok, MtModelFamily::Nllb200, "ko"), None);
    assert_eq!(language_token_id(&tok, MtModelFamily::OpusMt, "zh"), None);
}

#[test]
fn decode_text_joins_tokens() {
    let tok = toy_tokenizer(TOY_VOCAB);
    assert_eq!(decode_text(&tok, &[2, 3]).unwrap(), "hello world");
}

#[test]
fn madlad_reply_error_and_translation() {
    match madlad_reply(Some("boom"), Some("x")) {
        Err(MtLocalError::Inference(m)) => assert_eq!(m, "madlad error: boom"),
        other => panic!("unexpected {other:?}"),
    }
    assert_eq!(madlad_reply(None, Some("  bonjour \n")).unwrap(), "bonjour");
    assert_eq!(madlad_reply(None, None).unwrap(), "");
}

#[test]
fn iso_to_nllb_twice_is_once() {
    for lang in ["zh", "zh-TW", "en", "jpn_Jpan", "ar", "pt", ""] {
        let once = iso_to_nllb(lang);
        assert_eq!(iso_to_nllb(&once), once);
    }
}

#[test]
fn marian_files_and_trimmed_output() {
    let dir = model_dir_path("/models", "opus-mt-zh-en");
    assert_eq!(dir, "/models/opus-mt-zh-en");
    let (enc, merged, plain, tok) = marian_model_paths(&dir);
    assert_eq!(enc, "/models/opus-mt-zh-en/encoder_model.onnx");
    assert_eq!(merged, "/models/opus-mt-zh-en/decoder_model_merged.onnx");
    assert_eq!(plain, "/models/opus-mt-zh-en/decoder_model.onnx");
    assert_eq!(tok, "/models/opus-mt-zh-en/tokenizer.json");
    assert_eq!(translation_output("  Hello world \n"), "Hello world");
}

#[test]
fn tokenizer_from_bad_json_is_a_load_error() {
    match tokenizer_from_json(b"{not json") {
        Err(MtLocalError::Tokenizer(m)) => assert!(m.starts_with("load tokenizer: ")),
        Err(other) => panic!("unexpected {}", other.display_text()),
        Ok(_) => panic!("expected an error"),
    }
}
