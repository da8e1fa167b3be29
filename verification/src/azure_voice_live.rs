//! Azure Voice Live session protocol: connection plan, outgoing events and
//! the bookkeeping of incoming server events.

use std::collections::VecDeque;
use vstd::prelude::*;
use vstd::utf8::encode_utf8;
use crate::base64::{base64_decode, base64_encode, base64_encoding, base64_failure_message, spec_base64_decode};
use crate::config::{
    copy_string, or_default, AzureVoiceLiveConfig, AzureVoiceLiveSettings, EngineConfig,
    EngineError, TranslationProvider,
};
use crate::text::str_eq;
use crate::wire::{
    extract_json_string, extract_nested_json_string, json_escaped, json_string,
    lemma_json_string_len, nested_json_string, pcm16le_bytes_to_i16, pcm16le_samples,
    percent_encode, percent_encoding, push_json_escaped, push_trim_end_slashes, trim_end_slashes,
};
use crate::base64::lemma_decoded_len;

verus! {

/// Counters and identifiers of the server events applied so far.
#[derive(Clone, Debug)]
pub struct AzureVoiceLiveRuntimeState {
    pub audio_delta_count: u64,
    pub audio_done_count: u64,
    pub transcript_delta_count: u64,
    pub translated_audio_samples: u64,
    pub last_response_id: String,
    pub last_item_id: String,
}

/// The contents of an [`AzureVoiceLiveRuntimeState`].
pub struct AzureRuntimeView {
    pub audio_delta_count: int,
    pub audio_done_count: int,
    pub transcript_delta_count: int,
    pub translated_audio_samples: int,
    pub last_response_id: Seq<char>,
    pub last_item_id: Seq<char>,
}

impl View for AzureVoiceLiveRuntimeState {
    type V = AzureRuntimeView;

    open spec fn view(&self) -> AzureRuntimeView {
        AzureRuntimeView {
            audio_delta_count: self.audio_delta_count as int,
            audio_done_count: self.audio_done_count as int,
            transcript_delta_count: self.transcript_delta_count as int,
            translated_audio_samples: self.translated_audio_samples as int,
            last_response_id: self.last_response_id@,
            last_item_id: self.last_item_id@,
        }
    }
}

impl AzureVoiceLiveRuntimeState {
    /// All counters zero, identifiers empty.
    pub fn new() -> (r: Self)
        ensures
            r@ == (AzureRuntimeView {
                audio_delta_count: 0,
                audio_done_count: 0,
                transcript_delta_count: 0,
                translated_audio_samples: 0,
                last_response_id: Seq::empty(),
                last_item_id: Seq::empty(),
            }),
    {
        AzureVoiceLiveRuntimeState {
            audio_delta_count: 0,
            audio_done_count: 0,
            transcript_delta_count: 0,
            translated_audio_samples: 0,
            last_response_id: String::new(),
            last_item_id: String::new(),
        }
    }
}

/// An event sent by the Voice Live service.
#[derive(Clone, Debug)]
pub enum AzureVoiceLiveServerEvent {
    ResponseAudioDelta { response_id: String, item_id: String, audio_bytes: Vec<u8> },
    ResponseAudioDone { response_id: String, item_id: String },
    ResponseTranscriptDelta { response_id: String, item_id: String, delta: String },
    Error { code: String, message: String },
    Unknown { event_type: String },
}

/// The contents of an [`AzureVoiceLiveServerEvent`].
pub enum AzureEventView {
    ResponseAudioDelta { response_id: Seq<char>, item_id: Seq<char>, audio_bytes: Seq<u8> },
    ResponseAudioDone { response_id: Seq<char>, item_id: Seq<char> },
    ResponseTranscriptDelta { response_id: Seq<char>, item_id: Seq<char>, delta: Seq<char> },
    Error { code: Seq<char>, message: Seq<char> },
    Unknown { event_type: Seq<char> },
}

impl View for AzureVoiceLiveServerEvent {
    type V = AzureEventView;

    open spec fn view(&self) -> AzureEventView {
        match self {
            AzureVoiceLiveServerEvent::ResponseAudioDelta { response_id, item_id, audio_bytes } =>
                AzureEventView::ResponseAudioDelta {
                response_id: response_id@,
                item_id: item_id@,
                audio_bytes: audio_bytes@,
            },
            AzureVoiceLiveServerEvent::ResponseAudioDone { response_id, item_id } =>
                AzureEventView::ResponseAudioDone { response_id: response_id@, item_id: item_id@ },
            AzureVoiceLiveServerEvent::ResponseTranscriptDelta { response_id, item_id, delta } =>
                AzureEventView::ResponseTranscriptDelta {
                response_id: response_id@,
                item_id: item_id@,
                delta: delta@,
            },
            AzureVoiceLiveServerEvent::Error { code, message } => AzureEventView::Error {
                code: code@,
                message: message@,
            },
            AzureVoiceLiveServerEvent::Unknown { event_type } => AzureEventView::Unknown {
                event_type: event_type@,
            },
        }
    }
}

/// What the service is told to do, fixed when a session starts.
#[derive(Clone, Debug)]
pub struct AzureVoiceLivePlan {
    pub websocket_url: String,
    pub auth_headers: Vec<(String, String)>,
    pub session_update_event: String,
    pub response_create_event: String,
    pub input_audio_commit_event: String,
}

/// The contents of an [`AzureVoiceLivePlan`].
pub struct AzurePlanView {
    pub websocket_url: Seq<char>,
    pub auth_headers: Seq<(Seq<char>, Seq<char>)>,
    pub session_update_event: Seq<char>,
    pub response_create_event: Seq<char>,
    pub input_audio_commit_event: Seq<char>,
}

/// The contents of header pairs.
pub open spec fn header_views(h: Seq<(String, String)>) -> Seq<(Seq<char>, Seq<char>)> {
    h.map_values(|p: (String, String)| (p.0@, p.1@))
}

impl View for AzureVoiceLivePlan {
    type V = AzurePlanView;

    open spec fn view(&self) -> AzurePlanView {
        AzurePlanView {
            websocket_url: self.websocket_url@,
            auth_headers: header_views(self.auth_headers@),
            session_update_event: self.session_update_event@,
            response_create_event: self.response_create_event@,
            input_audio_commit_event: self.input_audio_commit_event@,
        }
    }
}

/// The websocket URL of a Voice Live session.
pub open spec fn spec_websocket_url(c: AzureVoiceLiveSettings) -> Seq<char> {
    trim_end_slashes(c.endpoint) + "/voice-live/realtime?api-version="@ + percent_encoding(
        encode_utf8(c.api_version),
    ) + "&model="@ + percent_encoding(encode_utf8(c.model))
}

/// Builds the websocket URL: the endpoint without trailing slashes, the
/// realtime path, and the percent-encoded API version and model.
pub fn build_websocket_url(config: &AzureVoiceLiveConfig) -> (r: String)
    ensures
        r@ == spec_websocket_url(config@),
{
    let mut url = String::new();
    push_trim_end_slashes(&mut url, config.endpoint.as_str());
    url.append("/voice-live/realtime?api-version=");
    let v = percent_encode(config.api_version.as_str());
    url.append(v.as_str());
    url.append("&model=");
    let m = percent_encode(config.model.as_str());
    url.append(m.as_str());
    url
}

/// The interpreter instructions for a pair of locales.
pub open spec fn spec_interpreter_instructions(source: Seq<char>, target: Seq<char>) -> Seq<char> {
    if source == "auto"@ {
        "You are a live interpreter. Continuously detect the speaker language and translate it into "@
            + target
            + ". Respond only with translated speech in a natural voice. Do not add commentary."@
    } else {
        "You are a live interpreter. Translate spoken "@ + source + " into "@ + target
            + ". Respond only with translated speech in a natural voice. Do not add commentary."@
    }
}

/// The interpreter instructions sent with the session update.
pub fn interpreter_instructions(source_locale: &str, target_locale: &str) -> (r: String)
    ensures
        r@ == spec_interpreter_instructions(source_locale@, target_locale@),
{
    if str_eq(source_locale, "auto") {
        let mut s = String::from_str(
            "You are a live interpreter. Continuously detect the speaker language and translate it into ",
        );
        s.append(target_locale);
        s.append(". Respond only with translated speech in a natural voice. Do not add commentary.");
        s
    } else {
        let mut s = String::from_str("You are a live interpreter. Translate spoken ");
        s.append(source_locale);
        s.append(" into ");
        s.append(target_locale);
        s.append(". Respond only with translated speech in a natural voice. Do not add commentary.");
        s
    }
}

/// The `session.update` event of a Voice Live session.
pub open spec fn spec_session_update_event(c: AzureVoiceLiveSettings) -> Seq<char> {
    let turn = if c.enable_server_vad {
        "\"turn_detection\":{\"type\":\"azure_semantic_vad\"},"@
    } else {
        Seq::empty()
    };
    "{\"type\":\"session.update\",\"session\":{\"modalities\":[\"audio\"],\"instructions\":\""@
        + json_escaped(spec_interpreter_instructions(c.source_locale, c.target_locale), false)
        + "\",\"voice\":\""@ + json_escaped(c.voice_name, false)
        + "\",\"input_audio_format\":\"pcm16\",\"output_audio_format\":\"pcm16\",\"input_audio_sampling_rate\":24000,"@
        + turn + "\"input_audio_noise_reduction\":{\"type\":\"azure_deep_noise_suppression\"}}}"@
}

/// Builds the `session.update` event: audio modality, escaped interpreter
/// instructions and voice, PCM16 at 24 kHz, semantic VAD when enabled, and
/// deep noise suppression.
pub fn build_session_update_event(config: &AzureVoiceLiveConfig) -> (r: String)
    ensures
        r@ == spec_session_update_event(config@),
{
    let instructions = interpreter_instructions(
        config.source_locale.as_str(),
        config.target_locale.as_str(),
    );
    let mut s = String::from_str(
        "{\"type\":\"session.update\",\"session\":{\"modalities\":[\"audio\"],\"instructions\":\"",
    );
    push_json_escaped(&mut s, instructions.as_str(), false);
    s.append("\",\"voice\":\"");
    push_json_escaped(&mut s, config.voice_name.as_str(), false);
    s.append(
        "\",\"input_audio_format\":\"pcm16\",\"output_audio_format\":\"pcm16\",\"input_audio_sampling_rate\":24000,",
    );
    if config.enable_server_vad {
        s.append("\"turn_detection\":{\"type\":\"azure_semantic_vad\"},");
    }
    s.append("\"input_audio_noise_reduction\":{\"type\":\"azure_deep_noise_suppression\"}}}");
    proof {
        if !config.enable_server_vad {
            assert(s@ =~= spec_session_update_event(config@));
        }
    }
    s
}

/// The `response.create` event.
pub fn build_response_create_event() -> (r: String)
    ensures
        r@ == "{\"type\":\"response.create\",\"response\":{\"modalities\":[\"audio\"]}}"@,
{
    String::from_str("{\"type\":\"response.create\",\"response\":{\"modalities\":[\"audio\"]}}")
}

/// The `input_audio_buffer.append` event carrying PCM16 bytes.
pub open spec fn spec_input_audio_append_event(pcm: Seq<u8>) -> Seq<char> {
    "{\"type\":\"input_audio_buffer.append\",\"audio\":\""@ + base64_encoding(pcm) + "\"}"@
}

/// Builds the `input_audio_buffer.append` event for little-endian PCM16 bytes
/// (Base64 in the `audio` field).
pub fn build_input_audio_append_event(pcm_bytes: &[u8]) -> (r: String)
    ensures
        r@ == spec_input_audio_append_event(pcm_bytes@),
{
    let audio = base64_encode(pcm_bytes);
    let mut s = String::from_str("{\"type\":\"input_audio_buffer.append\",\"audio\":\"");
    s.append(audio.as_str());
    s.append("\"}");
    s
}

/// The API key: the configured one, else the value of the configured
/// environment variable (`env_api_key`), else an error naming that variable.
pub open spec fn spec_api_key(c: AzureVoiceLiveSettings, env_api_key: Option<Seq<char>>) -> Result<
    Seq<char>,
    Seq<char>,
> {
    if c.api_key.len() != 0 {
        Ok(c.api_key)
    } else {
        match env_api_key {
            Some(k) => Ok(k),
            None => Err(
                "azure voice live api key is missing; set "@ + c.api_key_env
                    + " or provide azure_voice_live_api_key"@,
            ),
        }
    }
}

/// Picks the API key; `env_api_key` is the value of the environment variable
/// that the configuration names, when it is set.
pub fn resolve_api_key(config: &AzureVoiceLiveConfig, env_api_key: Option<&str>) -> (r: Result<
    String,
    EngineError,
>)
    ensures
        match r {
            Ok(k) => spec_api_key(config@, crate::config::str_opt(env_api_key)) == Ok::<
                Seq<char>,
                Seq<char>,
            >(k@),
            Err(e) => spec_api_key(config@, crate::config::str_opt(env_api_key)) == Err::<
                Seq<char>,
                Seq<char>,
            >(e.spec_message()),
        },
{
    if !config.api_key.as_str().is_empty() {
        return Ok(copy_string(&config.api_key));
    }
    match env_api_key {
        Some(k) => Ok(String::from_str(k)),
        None => {
            let mut m = String::from_str("azure voice live api key is missing; set ");
            m.append(config.api_key_env.as_str());
            m.append(" or provide azure_voice_live_api_key");
            Err(EngineError::new(m))
        },
    }
}

/// The authentication headers for an API key.
pub open spec fn spec_auth_headers(key: Seq<char>) -> Seq<(Seq<char>, Seq<char>)> {
    seq![("x-ms-client-request-id"@, "translator-virtual-mic"@), ("api-key"@, key)]
}

/// Builds the authentication headers: a client request id and `api-key`.
pub fn build_auth_headers(config: &AzureVoiceLiveConfig, env_api_key: Option<&str>) -> (r: Result<
    Vec<(String, String)>,
    EngineError,
>)
    ensures
        match r {
            Ok(h) => spec_api_key(config@, crate::config::str_opt(env_api_key)) is Ok
                && header_views(h@) == spec_auth_headers(
                spec_api_key(config@, crate::config::str_opt(env_api_key))->Ok_0,
            ),
            Err(e) => spec_api_key(config@, crate::config::str_opt(env_api_key)) == Err::<
                Seq<char>,
                Seq<char>,
            >(e.spec_message()),
        },
{
    let api_key = resolve_api_key(config, env_api_key)?;
    let mut h: Vec<(String, String)> = Vec::new();
    h.push((String::from_str("x-ms-client-request-id"), String::from_str("translator-virtual-mic")));
    h.push((String::from_str("api-key"), api_key));
    assert(header_views(h@) =~= spec_auth_headers(
        spec_api_key(config@, crate::config::str_opt(env_api_key))->Ok_0,
    ));
    Ok(h)
}

/// The plan for `config`, or the reason there is none.
pub open spec fn spec_plan(
    provider: TranslationProvider,
    azure: Option<AzureVoiceLiveSettings>,
    env_api_key: Option<Seq<char>>,
) -> Result<AzurePlanView, Seq<char>> {
    if provider != TranslationProvider::AzureVoiceLive {
        Err("translation provider is not azure_voice_live"@)
    } else {
        match azure {
            None => Err("azure voice live config is missing"@),
            Some(c) => match spec_api_key(c, env_api_key) {
                Err(m) => Err(m),
                Ok(k) => Ok(
                    AzurePlanView {
                        websocket_url: spec_websocket_url(c),
                        auth_headers: spec_auth_headers(k),
                        session_update_event: spec_session_update_event(c),
                        response_create_event: "{\"type\":\"response.create\",\"response\":{\"modalities\":[\"audio\"]}}"@,
                        input_audio_commit_event: "{\"type\":\"input_audio_buffer.commit\"}"@,
                    },
                ),
            },
        }
    }
}

/// The plan result as a view.
pub open spec fn plan_result_view(r: Result<AzureVoiceLivePlan, EngineError>) -> Result<
    AzurePlanView,
    Seq<char>,
> {
    match r {
        Ok(p) => Ok(p@),
        Err(e) => Err(e.spec_message()),
    }
}

impl AzureVoiceLivePlan {
    /// The session plan of `config`; `env_api_key` is the value of the
    /// environment variable that the Azure block names, when it is set.
    pub fn from_config(config: &EngineConfig, env_api_key: Option<&str>) -> (r: Result<
        Self,
        EngineError,
    >)
        ensures
            plan_result_view(r) == spec_plan(
                config.translation_provider,
                crate::config::view_opt(config.azure_voice_live),
                crate::config::str_opt(env_api_key),
            ),
    {
        if config.translation_provider != TranslationProvider::AzureVoiceLive {
            return Err(EngineError::from_text("translation provider is not azure_voice_live"));
        }
        let azure = match &config.azure_voice_live {
            Some(a) => a,
            None => return Err(EngineError::from_text("azure voice live config is missing")),
        };
        let auth_headers = build_auth_headers(azure, env_api_key)?;
        Ok(
            AzureVoiceLivePlan {
                websocket_url: build_websocket_url(azure),
                auth_headers,
                session_update_event: build_session_update_event(azure),
                response_create_event: build_response_create_event(),
                input_audio_commit_event: String::from_str("{\"type\":\"input_audio_buffer.commit\"}"),
            },
        )
    }
}

/// The event that `raw` describes, or the reason it cannot be read.
pub open spec fn spec_parse_server_event(raw: Seq<char>) -> Result<AzureEventView, Seq<char>> {
    let t = or_default(json_string(raw, "type"@), Seq::empty());
    let response_id = or_default(json_string(raw, "response_id"@), Seq::empty());
    let item_id = or_default(json_string(raw, "item_id"@), Seq::empty());
    if t == "response.audio.delta"@ {
        match json_string(raw, "delta"@) {
            None => Err("missing audio delta"@),
            Some(d) => match spec_base64_decode(d) {
                Err(f) => Err(base64_failure_message(f)),
                Ok(bytes) => Ok(
                    AzureEventView::ResponseAudioDelta { response_id, item_id, audio_bytes: bytes },
                ),
            },
        }
    } else if t == "response.audio.done"@ {
        Ok(AzureEventView::ResponseAudioDone { response_id, item_id })
    } else if t == "response.audio_transcript.delta"@ || t == "response.text.delta"@ {
        Ok(
            AzureEventView::ResponseTranscriptDelta {
                response_id,
                item_id,
                delta: or_default(json_string(raw, "delta"@), Seq::empty()),
            },
        )
    } else if t == "error"@ {
        Ok(
            AzureEventView::Error {
                code: or_default(nested_json_string(raw, "error"@, "code"@), Seq::empty()),
                message: or_default(nested_json_string(raw, "error"@, "message"@), raw),
            },
        )
    } else {
        Ok(AzureEventView::Unknown { event_type: t })
    }
}

fn json_string_or_empty(raw: &str, key: &str) -> (r: String)
    ensures
        r@ == or_default(json_string(raw@, key@), Seq::empty()),
{
    match extract_json_string(raw, key) {
        Some(v) => v,
        None => String::new(),
    }
}

/// Reads a server event: audio deltas (Base64 PCM16), audio completion,
/// transcript or text deltas, errors, and anything else as `Unknown`.
pub fn parse_server_event(raw: &str) -> (r: Result<AzureVoiceLiveServerEvent, EngineError>)
    ensures
        match r {
            Ok(e) => spec_parse_server_event(raw@) == Ok::<AzureEventView, Seq<char>>(e@),
            Err(e) => spec_parse_server_event(raw@) == Err::<AzureEventView, Seq<char>>(
                e.spec_message(),
            ),
        },
{
    let event_type = json_string_or_empty(raw, "type");
    if str_eq(event_type.as_str(), "response.audio.delta") {
        let delta = match extract_json_string(raw, "delta") {
            Some(d) => d,
            None => return Err(EngineError::from_text("missing audio delta")),
        };
        let response_id = json_string_or_empty(raw, "response_id");
        let item_id = json_string_or_empty(raw, "item_id");
        let audio_bytes = base64_decode(delta.as_str())?;
        Ok(AzureVoiceLiveServerEvent::ResponseAudioDelta { response_id, item_id, audio_bytes })
    } else if str_eq(event_type.as_str(), "response.audio.done") {
        let response_id = json_string_or_empty(raw, "response_id");
        let item_id = json_string_or_empty(raw, "item_id");
        Ok(AzureVoiceLiveServerEvent::ResponseAudioDone { response_id, item_id })
    } else if str_eq(event_type.as_str(), "response.audio_transcript.delta") || str_eq(
        event_type.as_str(),
        "response.text.delta",
    ) {
        let response_id = json_string_or_empty(raw, "response_id");
        let item_id = json_string_or_empty(raw, "item_id");
        let delta = json_string_or_empty(raw, "delta");
        Ok(AzureVoiceLiveServerEvent::ResponseTranscriptDelta { response_id, item_id, delta })
    } else if str_eq(event_type.as_str(), "error") {
        let code = match extract_nested_json_string(raw, "error", "code") {
            Some(c) => c,
            None => String::new(),
        };
        let message = match extract_nested_json_string(raw, "error", "message") {
            Some(m) => m,
            None => String::from_str(raw),
        };
        Ok(AzureVoiceLiveServerEvent::Error { code, message })
    } else {
        Ok(AzureVoiceLiveServerEvent::Unknown { event_type })
    }
}

/// Whether applying `e` to `s` keeps every counter within `u64`.
pub open spec fn apply_fits(s: AzureRuntimeView, e: AzureEventView) -> bool {
    match e {
        AzureEventView::ResponseAudioDelta { audio_bytes, .. } => s.audio_delta_count < u64::MAX
            && s.translated_audio_samples + audio_bytes.len() / 2 <= u64::MAX,
        AzureEventView::ResponseAudioDone { .. } => s.audio_done_count < u64::MAX,
        AzureEventView::ResponseTranscriptDelta { .. } => s.transcript_delta_count < u64::MAX,
        _ => true,
    }
}

/// The state after `e`, and the decoded samples an audio delta carries.
pub open spec fn spec_apply_server_event(s: AzureRuntimeView, e: AzureEventView) -> (
    AzureRuntimeView,
    Option<Seq<i16>>,
) {
    match e {
        AzureEventView::ResponseAudioDelta { response_id, item_id, audio_bytes } => (
            AzureRuntimeView {
                audio_delta_count: s.audio_delta_count + 1,
                translated_audio_samples: s.translated_audio_samples + audio_bytes.len() / 2,
                last_response_id: response_id,
                last_item_id: item_id,
                ..s
            },
            Some(pcm16le_samples(audio_bytes)),
        ),
        AzureEventView::ResponseAudioDone { response_id, item_id } => (
            AzureRuntimeView {
                audio_done_count: s.audio_done_count + 1,
                last_response_id: response_id,
                last_item_id: item_id,
                ..s
            },
            None,
        ),
        AzureEventView::ResponseTranscriptDelta { response_id, item_id, .. } => (
            AzureRuntimeView {
                transcript_delta_count: s.transcript_delta_count + 1,
                last_response_id: response_id,
                last_item_id: item_id,
                ..s
            },
            None,
        ),
        _ => (s, None),
    }
}

/// The view of optional samples.
pub open spec fn samples_opt(o: Option<Vec<i16>>) -> Option<Seq<i16>> {
    match o {
        Some(v) => Some(v@),
        None => None,
    }
}

/// Applies a server event to the runtime state: audio deltas, audio
/// completions and transcript deltas are counted and record their response
/// and item ids; audio deltas also count and return their decoded samples.
pub fn apply_server_event(
    state: &mut AzureVoiceLiveRuntimeState,
    event: &AzureVoiceLiveServerEvent,
) -> (r: Option<Vec<i16>>)
    requires
        apply_fits(old(state)@, event@),
    ensures
        (final(state)@, samples_opt(r)) == spec_apply_server_event(old(state)@, event@),
{
    match event {
        AzureVoiceLiveServerEvent::ResponseAudioDelta { response_id, item_id, audio_bytes } => {
            state.audio_delta_count = state.audio_delta_count + 1;
            state.last_response_id = copy_string(response_id);
            state.last_item_id = copy_string(item_id);
            let samples = pcm16le_bytes_to_i16(audio_bytes.as_slice());
            state.translated_audio_samples = state.translated_audio_samples + samples.len() as u64;
            Some(samples)
        },
        AzureVoiceLiveServerEvent::ResponseAudioDone { response_id, item_id } => {
            state.audio_done_count = state.audio_done_count + 1;
            state.last_response_id = copy_string(response_id);
            state.last_item_id = copy_string(item_id);
            None
        },
        AzureVoiceLiveServerEvent::ResponseTranscriptDelta { response_id, item_id, .. } => {
            state.transcript_delta_count = state.transcript_delta_count + 1;
            state.last_response_id = copy_string(response_id);
            state.last_item_id = copy_string(item_id);
            None
        },
        _ => None,
    }
}

/// An audio delta read from `raw` holds no more bytes than `raw` has characters.
pub proof fn lemma_parsed_audio_len(raw: Seq<char>)
    ensures
        spec_parse_server_event(raw) matches Ok(AzureEventView::ResponseAudioDelta { audio_bytes, .. })
            ==> audio_bytes.len() <= raw.len(),
{
    if let Some(d) = json_string(raw, "delta"@) {
        lemma_json_string_len(raw, "delta"@);
        lemma_decoded_len(d);
    }
}

/// A live Voice Live session: its plan, the events waiting to be sent and the
/// bookkeeping of received events.
#[derive(Clone, Debug)]
pub struct AzureVoiceLiveBridge {
    plan: AzureVoiceLivePlan,
    pending_events: VecDeque<String>,
    runtime_state: AzureVoiceLiveRuntimeState,
}

/// The contents of queued event texts.
pub open spec fn text_views(q: Seq<String>) -> Seq<Seq<char>> {
    q.map_values(|s: String| s@)
}

impl AzureVoiceLiveBridge {
    /// The events waiting to be sent, oldest first.
    pub closed spec fn pending(&self) -> Seq<Seq<char>> {
        text_views(self.pending_events@)
    }

    /// The plan of the session.
    pub closed spec fn spec_plan(&self) -> AzurePlanView {
        self.plan@
    }

    /// The bookkeeping of received events.
    pub closed spec fn spec_state(&self) -> AzureRuntimeView {
        self.runtime_state@
    }

    /// Opens a session plan and queues the `session.update` and
    /// `response.create` events.
    pub fn from_config(config: &EngineConfig, env_api_key: Option<&str>) -> (r: Result<
        Self,
        EngineError,
    >)
        ensures
            match r {
                Ok(b) => spec_plan(
                    config.translation_provider,
                    crate::config::view_opt(config.azure_voice_live),
                    crate::config::str_opt(env_api_key),
                ) == Ok::<AzurePlanView, Seq<char>>(b.spec_plan()) && b.pending() == seq![
                    b.spec_plan().session_update_event,
                    b.spec_plan().response_create_event,
                ] && b.spec_state() == AzureVoiceLiveRuntimeState::new_view(),
                Err(e) => spec_plan(
                    config.translation_provider,
                    crate::config::view_opt(config.azure_voice_live),
                    crate::config::str_opt(env_api_key),
                ) == Err::<AzurePlanView, Seq<char>>(e.spec_message()),
            },
    {
        let plan = AzureVoiceLivePlan::from_config(config, env_api_key)?;
        let mut pending_events: VecDeque<String> = VecDeque::new();
        pending_events.push_back(copy_string(&plan.session_update_event));
        pending_events.push_back(copy_string(&plan.response_create_event));
        let b = AzureVoiceLiveBridge {
            plan,
            pending_events,
            runtime_state: AzureVoiceLiveRuntimeState::new(),
        };
        assert(b.pending() =~= seq![b.spec_plan().session_update_event, b.spec_plan().response_create_event]);
        Ok(b)
    }

    /// Queues an `input_audio_buffer.append` event for 24 kHz PCM16 bytes.
    pub fn queue_input_audio_pcm16(&mut self, pcm_bytes: &[u8])
        ensures
            final(self).pending() == old(self).pending().push(
                spec_input_audio_append_event(pcm_bytes@),
            ),
            final(self).spec_plan() == old(self).spec_plan(),
            final(self).spec_state() == old(self).spec_state(),
    {
        let event = build_input_audio_append_event(pcm_bytes);
        self.pending_events.push_back(event);
        assert(self.pending() =~= old(self).pending().push(spec_input_audio_append_event(pcm_bytes@)));
    }

    /// Takes the oldest event waiting to be sent.
    pub fn take_next_event(&mut self) -> (r: Option<String>)
        ensures
            match r {
                Some(e) => old(self).pending().len() > 0 && e@ == old(self).pending()[0]
                    && final(self).pending() == old(self).pending().drop_first(),
                None => old(self).pending().len() == 0 && final(self).pending() == old(
                    self,
                ).pending(),
            },
            final(self).spec_plan() == old(self).spec_plan(),
            final(self).spec_state() == old(self).spec_state(),
    {
        let r = self.pending_events.pop_front();
        assert(self.pending() =~= old(self).pending().drop_first() || r is None);
        r
    }

    /// Reads and applies a server event; returns the decoded samples of an
    /// audio delta.
    pub fn ingest_server_event(&mut self, raw: &str) -> (r: Result<Option<Vec<i16>>, EngineError>)
        requires
            old(self).spec_state().audio_delta_count < u64::MAX,
            old(self).spec_state().audio_done_count < u64::MAX,
            old(self).spec_state().transcript_delta_count < u64::MAX,
            old(self).spec_state().translated_audio_samples + raw@.len() <= u64::MAX,
        ensures
            final(self).spec_plan() == old(self).spec_plan(),
            final(self).pending() == old(self).pending(),
            match r {
                Ok(samples) => spec_parse_server_event(raw@) is Ok && (
                    final(self).spec_state(),
                    samples_opt(samples),
                ) == spec_apply_server_event(
                    old(self).spec_state(),
                    spec_parse_server_event(raw@)->Ok_0,
                ),
                Err(e) => spec_parse_server_event(raw@) == Err::<AzureEventView, Seq<char>>(
                    e.spec_message(),
                ) && final(self).spec_state() == old(self).spec_state(),
            },
    {
        let event = parse_server_event(raw)?;
        proof {
            lemma_parsed_audio_len(raw@);
        }
        Ok(apply_server_event(&mut self.runtime_state, &event))
    }

    /// The bookkeeping of received events.
    pub fn state(&self) -> (r: &AzureVoiceLiveRuntimeState)
        ensures
            r@ == self.spec_state(),
    {
        &self.runtime_state
    }

    /// The plan of the session.
    pub fn plan(&self) -> (r: &AzureVoiceLivePlan)
        ensures
            r@ == self.spec_plan(),
    {
        &self.plan
    }
}

impl AzureVoiceLiveRuntimeState {
    /// The state before any event: counters zero, identifiers empty.
    pub open spec fn new_view() -> AzureRuntimeView {
        AzureRuntimeView {
            audio_delta_count: 0,
            audio_done_count: 0,
            transcript_delta_count: 0,
            translated_audio_samples: 0,
            last_response_id: Seq::empty(),
            last_item_id: Seq::empty(),
        }
    }
}

} // verus!
