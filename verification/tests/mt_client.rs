use virtual_mic::mt_client::{
    api_error, build_system_prompt, reply_translation, MtClient, MtClientConfig, MtError,
    DEFAULT_ENDPOINT, DEFAULT_MODEL,
};

#[test]
fn config_defaults_sensible() {
    let c = MtClientConfig::new("sk-test");
    assert_eq!(c.endpoint, DEFAULT_ENDPOINT);
    assert_eq!(c.model, DEFAULT_MODEL);
}

#[test]
fn config_overrides_apply() {
    let c = MtClientConfig::new("sk-test")
        .with_endpoint("http://localhost:8080/v1/chat/completions")
        .with_model("qwen2.5-7b");
    assert_eq!(c.endpoint, "http://localhost:8080/v1/chat/completions");
    assert_eq!(c.model, "qwen2.5-7b");
}

#[test]
fn rejects_empty_api_key() {
    let res = MtClient::new(MtClientConfig::new(""));
    assert!(matches!(res, Err(MtError::Config(_))));
}

#[test]
fn translate_skips_empty_input() {
    let client = MtClient::new(MtClientConfig::new("sk-test")).unwrap();
    // A blank caption translates to the empty text without any request.
    assert!(client.chat_request("   ", "zh").is_none());
}

#[test]
fn system_prompt_includes_target_lang() {
    let p = build_system_prompt("Japanese");
    assert!(p.contains("Japanese"));
}

#[test]
fn system_prompt_exact_text() {
    assert_eq!(
        build_system_prompt("French"),
        "You are a translator. Translate the user's text into French. Output ONLY the translated text. No quotes, no explanations, no extra punctuation. Preserve proper nouns and code/technical terms."
    );
}

#[test]
fn client_validation_order() {
    let blank_endpoint = MtClientConfig::new("k").with_endpoint("  ");
    match MtClient::new(blank_endpoint) {
        Err(MtError::Config(m)) => assert_eq!(m, "endpoint is empty"),
        other => panic!("unexpected: {other:?}"),
    }
    let blank_model = MtClientConfig::new("k").with_model("");
    match MtClient::new(blank_model) {
        Err(MtError::Config(m)) => assert_eq!(m, "model is empty"),
        other => panic!("unexpected: {other:?}"),
    }
    match MtClient::new(MtClientConfig::new(" \t")) {
        Err(MtError::Config(m)) => assert_eq!(m, "api_key is empty"),
        other => panic!("unexpected: {other:?}"),
    }
}

#[test]
fn chat_request_carries_trimmed_text_and_bearer_key() {
    let client = MtClient::new(MtClientConfig::new("sk-abc").with_model("m1")).unwrap();
    assert_eq!(client.model(), "m1");
    let q = client.chat_request("  hello world \n", "German").unwrap();
    assert_eq!(q.user_text, "hello world");
    assert_eq!(q.authorization, "Bearer sk-abc");
    assert_eq!(q.endpoint, DEFAULT_ENDPOINT);
    assert_eq!(q.model, "m1");
    assert_eq!(q.system_prompt, build_system_prompt("German"));
}

#[test]
fn reply_translation_cases() {
    match reply_translation(None) {
        Err(MtError::InvalidResponse(m)) => assert_eq!(m, "missing 'choices'"),
        other => panic!("unexpected: {other:?}"),
    }
    match reply_translation(Some(vec![])) {
        Err(MtError::InvalidResponse(m)) => assert_eq!(m, "empty 'choices'"),
        other => panic!("unexpected: {other:?}"),
    }
    let ok = reply_translation(Some(vec![" Bonjour \n".to_string(), "second".to_string()])).unwrap();
    assert_eq!(ok, "Bonjour");
}

#[test]
fn api_error_and_display_text() {
    let e = api_error(429, "slow down");
    assert_eq!(e.display_text(), "api error: HTTP 429: slow down");
    assert_eq!(MtError::Network("down".into()).display_text(), "network error: down");
    assert_eq!(MtError::InvalidResponse("x".into()).display_text(), "invalid response: x");
    assert_eq!(MtError::Config("y".into()).display_text(), "config error: y");
}
