//! OpenAI Realtime session protocol: connection plan, outgoing events and
//! the bookkeeping of incoming server events.

use std::collections::VecDeque;
use vstd::prelude::*;
use vstd::utf8::encode_utf8;
use crate::base64::{base64_decode, base64_encode, base64_encoding, base64_failure_message, spec_base64_decode};
use crate::azure_voice_live::{
    header_views, interpreter_instructions, samples_opt, spec_interpreter_instructions, text_views,
};
use crate::config::{
    copy_string, or_default, EngineConfig, EngineError, OpenAIRealtimeConfig,
    OpenAIRealtimeSettings, TranslationProvider,
};
use crate::text::str_eq;
use crate::wire::{
    extract_json_string, extract_nested_json_string, json_escaped, json_string,
    lemma_json_string_len, nested_json_string, pcm16le_bytes_to_i16, pcm16le_samples,
    percent_encode, percent_encoding, push_json_escaped, push_trim_end_slashes, trim_end_slashes,
};
use crate::base64::lemma_decoded_len;

verus! {

/// Counters and identifiers of the server events applied so far.
#[derive(Clone, Debug)]
pub struct OpenAIRealtimeRuntimeState {
    pub audio_delta_count: u64,
    pub audio_done_count: u64,
    pub transcript_delta_count: u64,
    pub translated_audio_samples: u64,
    pub last_response_id: String,
    pub last_item_id: String,
}

/// The contents of an [`OpenAIRealtimeRuntimeState`].
pub struct OpenAIRuntimeView {
    pub audio_delta_count: int,
    pub audio_done_count: int,
    pub transcript_delta_count: int,
    pub translated_audio_samples: int,
    pub last_response_id: Seq<char>,
    pub last_item_id: Seq<char>,
}

impl View for OpenAIRealtimeRuntimeState {
    type V = OpenAIRuntimeView;

    open spec fn view(&self) -> OpenAIRuntimeView {
        OpenAIRuntimeView {
            audio_delta_count: self.audio_delta_count as int,
            audio_done_count: self.audio_done_count as int,
            transcript_delta_count: self.transcript_delta_count as int,
            translated_audio_samples: self.translated_audio_samples as int,
            last_response_id: self.last_response_id@,
            last_item_id: self.last_item_id@,
        }
    }
}

impl OpenAIRealtimeRuntimeState {
    /// All counters zero, identifiers empty.
    pub fn new() -> (r: Self)
        ensures
            r@ == (OpenAIRuntimeView {
                audio_delta_count: 0,
                audio_done_count: 0,
                transcript_delta_count: 0,
                translated_audio_samples: 0,
                last_response_id: Seq::empty(),
                last_item_id: Seq::empty(),
            }),
    {
        OpenAIRealtimeRuntimeState {
            audio_delta_count: 0,
            audio_done_count: 0,
            transcript_delta_count: 0,
            translated_audio_samples: 0,
            last_response_id: String::new(),
            last_item_id: String::new(),
        }
    }
}

/// An event sent by the Realtime service.
#[derive(Clone, Debug)]
pub enum OpenAIRealtimeServerEvent {
    ResponseAudioDelta { response_id: String, item_id: String, audio_bytes: Vec<u8> },
    ResponseAudioDone { response_id: String, item_id: String },
    ResponseTranscriptDelta { response_id: String, item_id: String, delta: String },
    Error { code: String, message: String },
    Unknown { event_type: String },
}

/// The contents of an [`OpenAIRealtimeServerEvent`].
pub enum OpenAIEventView {
    ResponseAudioDelta { response_id: Seq<char>, item_id: Seq<char>, audio_bytes: Seq<u8> },
    ResponseAudioDone { response_id: Seq<char>, item_id: Seq<char> },
    ResponseTranscriptDelta { response_id: Seq<char>, item_id: Seq<char>, delta: Seq<char> },
    Error { code: Seq<char>, message: Seq<char> },
    Unknown { event_type: Seq<char> },
}

impl View for OpenAIRealtimeServerEvent {
    type V = OpenAIEventView;

    open spec fn view(&self) -> OpenAIEventView {
        match self {
            OpenAIRealtimeServerEvent::ResponseAudioDelta { response_id, item_id, audio_bytes } =>
                OpenAIEventView::ResponseAudioDelta {
                response_id: response_id@,
                item_id: item_id@,
                audio_bytes: audio_bytes@,
            },
            OpenAIRealtimeServerEvent::ResponseAudioDone { response_id, item_id } =>
                OpenAIEventView::ResponseAudioDone { response_id: response_id@, item_id: item_id@ },
            OpenAIRealtimeServerEvent::ResponseTranscriptDelta { response_id, item_id, delta } =>
                OpenAIEventView::ResponseTranscriptDelta {
                response_id: response_id@,
                item_id: item_id@,
                delta: delta@,
            },
            OpenAIRealtimeServerEvent::Error { code, message } => OpenAIEventView::Error {
                code: code@,
                message: message@,
            },
            OpenAIRealtimeServerEvent::Unknown { event_type } => OpenAIEventView::Unknown {
                event_type: event_type@,
            },
        }
    }
}

/// What the service is told to do, fixed when a session starts.
#[derive(Clone, Debug)]
pub struct OpenAIRealtimePlan {
    pub websocket_url: String,
    pub auth_headers: Vec<(String, String)>,
    pub session_update_event: String,
}

/// The contents of an [`OpenAIRealtimePlan`].
pub struct OpenAIPlanView {
    pub websocket_url: Seq<char>,
    pub auth_headers: Seq<(Seq<char>, Seq<char>)>,
    pub session_update_event: Seq<char>,
}

impl View for OpenAIRealtimePlan {
    type V = OpenAIPlanView;

    open spec fn view(&self) -> OpenAIPlanView {
        OpenAIPlanView {
            websocket_url: self.websocket_url@,
            auth_headers: header_views(self.auth_headers@),
            session_update_event: self.session_update_event@,
        }
    }
}

/// The websocket URL of a Realtime session.
pub open spec fn spec_websocket_url(c: OpenAIRealtimeSettings) -> Seq<char> {
    trim_end_slashes(c.endpoint) + "?model="@ + percent_encoding(encode_utf8(c.model))
}

/// Builds the websocket URL: the endpoint without trailing slashes and the
/// percent-encoded model.
pub fn build_websocket_url(config: &OpenAIRealtimeConfig) -> (r: String)
    ensures
        r@ == spec_websocket_url(config@),
{
    let mut url = String::new();
    push_trim_end_slashes(&mut url, config.endpoint.as_str());
    url.append("?model=");
    let m = percent_encode(config.model.as_str());
    url.append(m.as_str());
    url
}

/// The `session.update` event of a Realtime session.
pub open spec fn spec_session_update_event(c: OpenAIRealtimeSettings) -> Seq<char> {
    let turn = if c.enable_server_vad {
        ",\"turn_detection\":{\"type\":\"semantic_vad\"}"@
    } else {
        ",\"turn_detection\":null"@
    };
    "{\"type\":\"session.update\",\"session\":{\"type\":\"realtime\",\"model\":\""@ + json_escaped(
        c.model,
        false,
    ) + "\",\"output_modalities\":[\"audio\"],\"audio\":{\"input\":{\"format\":{\"type\":\"audio/pcm\",\"rate\":24000}"@
        + turn + "},\"output\":{\"format\":{\"type\":\"audio/pcm\"},\"voice\":\""@ + json_escaped(
        c.voice_name,
        false,
    ) + "\"}},\"instructions\":\""@ + json_escaped(
        spec_interpreter_instructions(c.source_locale, c.target_locale),
        false,
    ) + "\"}}"@
}

/// Builds the `session.update` event: realtime session with the escaped
/// model, audio output, 24 kHz PCM input with semantic VAD (or none), the
/// escaped voice and interpreter instructions.
pub fn build_session_update_event(config: &OpenAIRealtimeConfig) -> (r: String)
    ensures
        r@ == spec_session_update_event(config@),
{
    let instructions = interpreter_instructions(
        config.source_locale.as_str(),
        config.target_locale.as_str(),
    );
    let mut s = String::from_str(
        "{\"type\":\"session.update\",\"session\":{\"type\":\"realtime\",\"model\":\"",
    );
    push_json_escaped(&mut s, config.model.as_str(), false);
    s.append(
        "\",\"output_modalities\":[\"audio\"],\"audio\":{\"input\":{\"format\":{\"type\":\"audio/pcm\",\"rate\":24000}",
    );
    if config.enable_server_vad {
        s.append(",\"turn_detection\":{\"type\":\"semantic_vad\"}");
    } else {
        s.append(",\"turn_detection\":null");
    }
    s.append("},\"output\":{\"format\":{\"type\":\"audio/pcm\"},\"voice\":\"");
    push_json_escaped(&mut s, config.voice_name.as_str(), false);
    s.append("\"}},\"instructions\":\"");
    push_json_escaped(&mut s, instructions.as_str(), false);
    s.append("\"}}");
    s
}

/// The `input_audio_buffer.append` event carrying PCM16 bytes.
pub open spec fn spec_input_audio_append_event(pcm: Seq<u8>) -> Seq<char> {
    "{\"type\":\"input_audio_buffer.append\",\"audio\":\""@ + base64_encoding(pcm) + "\"}"@
}

/// Builds the `input_audio_buffer.append` event for little-endian PCM16 bytes
/// (Base64 in the `audio` field).
pub fn build_input_audio_append_event(pcm_bytes: &[u8]) -> (r: String)
    ensures
        r@ == spec_input_audio_append_event(pcm_bytes@),
{
    let audio = base64_encode(pcm_bytes);
    let mut s = String::from_str("{\"type\":\"input_audio_buffer.append\",\"audio\":\"");
    s.append(audio.as_str());
    s.append("\"}");
    s
}

/// The API key: the configured one, else the value of the configured
/// environment variable (`env_api_key`), else an error naming that variable.
pub open spec fn spec_api_key(c: OpenAIRealtimeSettings, env_api_key: Option<Seq<char>>) -> Result<
    Seq<char>,
    Seq<char>,
> {
    if c.api_key.len() != 0 {
        Ok(c.api_key)
    } else {
        match env_api_key {
            Some(k) => Ok(k),
            None => Err(
                "openai realtime api key is missing; set "@ + c.api_key_env
                    + " or provide openai_realtime_api_key"@,
            ),
        }
    }
}

/// Picks the API key; `env_api_key` is the value of the environment variable
/// that the configuration names, when it is set.
pub fn resolve_api_key(config: &OpenAIRealtimeConfig, env_api_key: Option<&str>) -> (r: Result<
    String,
    EngineError,
>)
    ensures
        match r {
            Ok(k) => spec_api_key(config@, crate::config::str_opt(env_api_key)) == Ok::<
                Seq<char>,
                Seq<char>,
            >(k@),
            Err(e) => spec_api_key(config@, crate::config::str_opt(env_api_key)) == Err::<
                Seq<char>,
                Seq<char>,
            >(e.spec_message()),
        },
{
    if !config.api_key.as_str().is_empty() {
        return Ok(copy_string(&config.api_key));
    }
    match env_api_key {
        Some(k) => Ok(String::from_str(k)),
        None => {
            let mut m = String::from_str("openai realtime api key is missing; set ");
            m.append(config.api_key_env.as_str());
            m.append(" or provide openai_realtime_api_key");
            Err(EngineError::new(m))
        },
    }
}

/// The authentication headers for an API key.
pub open spec fn spec_auth_headers(key: Seq<char>) -> Seq<(Seq<char>, Seq<char>)> {
    seq![("Authorization"@, "Bearer "@ + key)]
}

/// Builds the authentication header `Authorization: Bearer <key>`.
pub fn build_auth_headers(config: &OpenAIRealtimeConfig, env_api_key: Option<&str>) -> (r: Result<
    Vec<(String, String)>,
    EngineError,
>)
    ensures
        match r {
            Ok(h) => spec_api_key(config@, crate::config::str_opt(env_api_key)) is Ok
                && header_views(h@) == spec_auth_headers(
                spec_api_key(config@, crate::config::str_opt(env_api_key))->Ok_0,
            ),
            Err(e) => spec_api_key(config@, crate::config::str_opt(env_api_key)) == Err::<
                Seq<char>,
                Seq<char>,
            >(e.spec_message()),
        },
{
    let api_key = resolve_api_key(config, env_api_key)?;
    let mut h: Vec<(String, String)> = Vec::new();
    let mut bearer = String::from_str("Bearer ");
    bearer.append(api_key.as_str());
    h.push((String::from_str("Authorization"), bearer));
    assert(header_views(h@) =~= spec_auth_headers(
        spec_api_key(config@, crate::config::str_opt(env_api_key))->Ok_0,
    ));
    Ok(h)
}

/// The plan for `config`, or the reason there is none.
pub open spec fn spec_plan(
    provider: TranslationProvider,
    openai: Option<OpenAIRealtimeSettings>,
    env_api_key: Option<Seq<char>>,
) -> Result<OpenAIPlanView, Seq<char>> {
    if provider != TranslationProvider::OpenAIRealtime {
        Err("translation provider is not openai_realtime"@)
    } else {
        match openai {
            None => Err("openai realtime config is missing"@),
            Some(c) => match spec_api_key(c, env_api_key) {
                Err(m) => Err(m),
                Ok(k) => Ok(
                    OpenAIPlanView {
                        websocket_url: spec_websocket_url(c),
                        auth_headers: spec_auth_headers(k),
                        session_update_event: spec_session_update_event(c),
                    },
                ),
            },
        }
    }
}

/// The plan result as a view.
pub open spec fn plan_result_view(r: Result<OpenAIRealtimePlan, EngineError>) -> Result<
    OpenAIPlanView,
    Seq<char>,
> {
    match r {
        Ok(p) => Ok(p@),
        Err(e) => Err(e.spec_message()),
    }
}

impl OpenAIRealtimePlan {
    /// The session plan of `config`; `env_api_key` is the value of the
    /// environment variable that the Realtime block names, when it is set.
    pub fn from_config(config: &EngineConfig, env_api_key: Option<&str>) -> (r: Result<
        Self,
        EngineError,
    >)
        ensures
            plan_result_view(r) == spec_plan(
                config.translation_provider,
                crate::config::view_opt(config.openai_realtime),
                crate::config::str_opt(env_api_key),
            ),
    {
        if config.translation_provider != TranslationProvider::OpenAIRealtime {
            return Err(EngineError::from_text("translation provider is not openai_realtime"));
        }
        let openai = match &config.openai_realtime {
            Some(a) => a,
            None => return Err(EngineError::from_text("openai realtime config is missing")),
        };
        let auth_headers = build_auth_headers(openai, env_api_key)?;
        Ok(
            OpenAIRealtimePlan {
                websocket_url: build_websocket_url(openai),
                auth_headers,
                session_update_event: build_session_update_event(openai),
            },
        )
    }
}

/// The event that `raw` describes, or the reason it cannot be read.
pub open spec fn spec_parse_server_event(raw: Seq<char>) -> Result<OpenAIEventView, Seq<char>> {
    let t = or_default(json_string(raw, "type"@), Seq::empty());
    let response_id = or_default(
        json_string(raw, "response_id"@),
        or_default(nested_json_string(raw, "response"@, "id"@), Seq::empty()),
    );
    let item_id = or_default(json_string(raw, "item_id"@), Seq::empty());
    if t == "response.audio.delta"@ || t == "response.output_audio.delta"@ {
        match json_string(raw, "delta"@) {
            None => Err("missing audio delta"@),
            Some(d) => match spec_base64_decode(d) {
                Err(f) => Err(base64_failure_message(f)),
                Ok(bytes) => Ok(
                    OpenAIEventView::ResponseAudioDelta { response_id, item_id, audio_bytes: bytes },
                ),
            },
        }
    } else if t == "response.audio.done"@ || t == "response.output_audio.done"@ {
        Ok(OpenAIEventView::ResponseAudioDone { response_id, item_id })
    } else if t == "response.audio_transcript.delta"@ || t
        == "response.output_audio_transcript.delta"@ || t == "response.text.delta"@ || t
        == "response.output_text.delta"@ {
        Ok(
            OpenAIEventView::ResponseTranscriptDelta {
                response_id,
                item_id,
                delta: or_default(json_string(raw, "delta"@), Seq::empty()),
            },
        )
    } else if t == "error"@ {
        Ok(
            OpenAIEventView::Error {
                code: or_default(nested_json_string(raw, "error"@, "code"@), Seq::empty()),
                message: or_default(nested_json_string(raw, "error"@, "message"@), raw),
            },
        )
    } else {
        Ok(OpenAIEventView::Unknown { event_type: t })
    }
}

fn response_id_of(raw: &str) -> (r: String)
    ensures
        r@ == or_default(
            json_string(raw@, "response_id"@),
            or_default(nested_json_string(raw@, "response"@, "id"@), Seq::empty()),
        ),
{
    match extract_json_string(raw, "response_id") {
        Some(v) => v,
        None => match extract_nested_json_string(raw, "response", "id") {
            Some(v) => v,
            None => String::new(),
        },
    }
}

fn json_string_or_empty(raw: &str, key: &str) -> (r: String)
    ensures
        r@ == or_default(json_string(raw@, key@), Seq::empty()),
{
    match extract_json_string(raw, key) {
        Some(v) => v,
        None => String::new(),
    }
}

/// Reads a server event: audio deltas (Base64 PCM16), audio completion,
/// transcript or text deltas (both event-name generations), errors, and anything else as `Unknown`.
pub fn parse_server_event(raw: &str) -> (r: Result<OpenAIRealtimeServerEvent, EngineError>)
    ensures
        match r {
            Ok(e) => spec_parse_server_event(raw@) == Ok::<OpenAIEventView, Seq<char>>(e@),
            Err(e) => spec_parse_server_event(raw@) == Err::<OpenAIEventView, Seq<char>>(
                e.spec_message(),
            ),
        },
{
    let event_type = json_string_or_empty(raw, "type");
    if str_eq(event_type.as_str(), "response.audio.delta") || str_eq(
        event_type.as_str(),
        "response.output_audio.delta",
    ) {
        let delta = match extract_json_string(raw, "delta") {
            Some(d) => d,
            None => return Err(EngineError::from_text("missing audio delta")),
        };
        let response_id = response_id_of(raw);
        let item_id = json_string_or_empty(raw, "item_id");
        let audio_bytes = base64_decode(delta.as_str())?;
        Ok(OpenAIRealtimeServerEvent::ResponseAudioDelta { response_id, item_id, audio_bytes })
    } else if str_eq(event_type.as_str(), "response.audio.done") || str_eq(
        event_type.as_str(),
        "response.output_audio.done",
    ) {
        let response_id = response_id_of(raw);
        let item_id = json_string_or_empty(raw, "item_id");
        Ok(OpenAIRealtimeServerEvent::ResponseAudioDone { response_id, item_id })
    } else if str_eq(event_type.as_str(), "response.audio_transcript.delta") || str_eq(
        event_type.as_str(),
        "response.output_audio_transcript.delta",
    ) || str_eq(event_type.as_str(), "response.text.delta") || str_eq(
        event_type.as_str(),
        "response.output_text.delta",
    ) {
        let response_id = response_id_of(raw);
        let item_id = json_string_or_empty(raw, "item_id");
        let delta = json_string_or_empty(raw, "delta");
        Ok(OpenAIRealtimeServerEvent::ResponseTranscriptDelta { response_id, item_id, delta })
    } else if str_eq(event_type.as_str(), "error") {
        let code = match extract_nested_json_string(raw, "error", "code") {
            Some(c) => c,
            None => String::new(),
        };
        let message = match extract_nested_json_string(raw, "error", "message") {
            Some(m) => m,
            None => String::from_str(raw),
        };
        Ok(OpenAIRealtimeServerEvent::Error { code, message })
    } else {
        Ok(OpenAIRealtimeServerEvent::Unknown { event_type })
    }
}

/// Whether applying `e` to `s` keeps every counter within `u64`.
pub open spec fn apply_fits(s: OpenAIRuntimeView, e: OpenAIEventView) -> bool {
    match e {
        OpenAIEventView::ResponseAudioDelta { audio_bytes, .. } => s.audio_delta_count < u64::MAX
            && s.translated_audio_samples + audio_bytes.len() / 2 <= u64::MAX,
        OpenAIEventView::ResponseAudioDone { .. } => s.audio_done_count < u64::MAX,
        OpenAIEventView::ResponseTranscriptDelta { .. } => s.transcript_delta_count < u64::MAX,
        _ => true,
    }
}

/// The state after `e`, and the decoded samples an audio delta carries.
pub open spec fn spec_apply_server_event(s: OpenAIRuntimeView, e: OpenAIEventView) -> (
    OpenAIRuntimeView,
    Option<Seq<i16>>,
) {
    match e {
        OpenAIEventView::ResponseAudioDelta { response_id, item_id, audio_bytes } => (
            OpenAIRuntimeView {
                audio_delta_count: s.audio_delta_count + 1,
                translated_audio_samples: s.translated_audio_samples + audio_bytes.len() / 2,
                last_response_id: response_id,
                last_item_id: item_id,
                ..s
            },
            Some(pcm16le_samples(audio_bytes)),
        ),
        OpenAIEventView::ResponseAudioDone { response_id, item_id } => (
            OpenAIRuntimeView {
                audio_done_count: s.audio_done_count + 1,
                last_response_id: response_id,
                last_item_id: item_id,
                ..s
            },
            None,
        ),
        OpenAIEventView::ResponseTranscriptDelta { response_id, item_id, .. } => (
            OpenAIRuntimeView {
                transcript_delta_count: s.transcript_delta_count + 1,
                last_response_id: response_id,
                last_item_id: item_id,
                ..s
            },
            None,
        ),
        _ => (s, None),
    }
}

/// Applies a server event to the runtime state: audio deltas, audio
/// completions and transcript deltas are counted and record their response
/// and item ids; audio deltas also count and return their decoded samples.
pub fn apply_server_event(
    state: &mut OpenAIRealtimeRuntimeState,
    event: &OpenAIRealtimeServerEvent,
) -> (r: Option<Vec<i16>>)
    requires
        apply_fits(old(state)@, event@),
    ensures
        (final(state)@, samples_opt(r)) == spec_apply_server_event(old(state)@, event@),
{
    match event {
        OpenAIRealtimeServerEvent::ResponseAudioDelta { response_id, item_id, audio_bytes } => {
            state.audio_delta_count = state.audio_delta_count + 1;
            state.last_response_id = copy_string(response_id);
            state.last_item_id = copy_string(item_id);
            let samples = pcm16le_bytes_to_i16(audio_bytes.as_slice());
            state.translated_audio_samples = state.translated_audio_samples + samples.len() as u64;
            Some(samples)
        },
        OpenAIRealtimeServerEvent::ResponseAudioDone { response_id, item_id } => {
            state.audio_done_count = state.audio_done_count + 1;
            state.last_response_id = copy_string(response_id);
            state.last_item_id = copy_string(item_id);
            None
        },
        OpenAIRealtimeServerEvent::ResponseTranscriptDelta { response_id, item_id, .. } => {
            state.transcript_delta_count = state.transcript_delta_count + 1;
            state.last_response_id = copy_string(response_id);
            state.last_item_id = copy_string(item_id);
            None
        },
        _ => None,
    }
}

/// An audio delta read from `raw` holds no more bytes than `raw` has characters.
pub proof fn lemma_parsed_audio_len(raw: Seq<char>)
    ensures
        spec_parse_server_event(raw) matches Ok(OpenAIEventView::ResponseAudioDelta { audio_bytes, .. })
            ==> audio_bytes.len() <= raw.len(),
{
    if let Some(d) = json_string(raw, "delta"@) {
        lemma_json_string_len(raw, "delta"@);
        lemma_decoded_len(d);
    }
}

/// A live Realtime session: its plan, the events waiting to be sent and the
/// bookkeeping of received events.
#[derive(Clone, Debug)]
pub struct OpenAIRealtimeBridge {
    plan: OpenAIRealtimePlan,
    pending_events: VecDeque<String>,
    runtime_state: OpenAIRealtimeRuntimeState,
}

impl OpenAIRealtimeBridge {
    /// The events waiting to be sent, oldest first.
    pub closed spec fn pending(&self) -> Seq<Seq<char>> {
        text_views(self.pending_events@)
    }

    /// The plan of the session.
    pub closed spec fn spec_plan(&self) -> OpenAIPlanView {
        self.plan@
    }

    /// The bookkeeping of received events.
    pub closed spec fn spec_state(&self) -> OpenAIRuntimeView {
        self.runtime_state@
    }

    /// Opens a session plan and queues the `session.update` event.
    pub fn from_config(config: &EngineConfig, env_api_key: Option<&str>) -> (r: Result<
        Self,
        EngineError,
    >)
        ensures
            match r {
                Ok(b) => spec_plan(
                    config.translation_provider,
                    crate::config::view_opt(config.openai_realtime),
                    crate::config::str_opt(env_api_key),
                ) == Ok::<OpenAIPlanView, Seq<char>>(b.spec_plan()) && b.pending() == seq![b.spec_plan().session_update_event] && b.spec_state() == OpenAIRealtimeRuntimeState::new_view(),
                Err(e) => spec_plan(
                    config.translation_provider,
                    crate::config::view_opt(config.openai_realtime),
                    crate::config::str_opt(env_api_key),
                ) == Err::<OpenAIPlanView, Seq<char>>(e.spec_message()),
            },
    {
        let plan = OpenAIRealtimePlan::from_config(config, env_api_key)?;
        let mut pending_events: VecDeque<String> = VecDeque::new();
        pending_events.push_back(copy_string(&plan.session_update_event));
        let b = OpenAIRealtimeBridge {
            plan,
            pending_events,
            runtime_state: OpenAIRealtimeRuntimeState::new(),
        };
        assert(b.pending() =~= seq![b.spec_plan().session_update_event]);
        Ok(b)
    }

    /// Queues an `input_audio_buffer.append` event for 24 kHz PCM16 bytes.
    pub fn queue_input_audio_pcm16(&mut self, pcm_bytes: &[u8])
        ensures
            final(self).pending() == old(self).pending().push(
                spec_input_audio_append_event(pcm_bytes@),
            ),
            final(self).spec_plan() == old(self).spec_plan(),
            final(self).spec_state() == old(self).spec_state(),
    {
        let event = build_input_audio_append_event(pcm_bytes);
        self.pending_events.push_back(event);
        assert(self.pending() =~= old(self).pending().push(spec_input_audio_append_event(pcm_bytes@)));
    }

    /// Takes the oldest event waiting to be sent.
    pub fn take_next_event(&mut self) -> (r: Option<String>)
        ensures
            match r {
                Some(e) => old(self).pending().len() > 0 && e@ == old(self).pending()[0]
                    && final(self).pending() == old(self).pending().drop_first(),
                None => old(self).pending().len() == 0 && final(self).pending() == old(
                    self,
                ).pending(),
            },
            final(self).spec_plan() == old(self).spec_plan(),
            final(self).spec_state() == old(self).spec_state(),
    {
        let r = self.pending_events.pop_front();
        assert(self.pending() =~= old(self).pending().drop_first() || r is None);
        r
    }

    /// Reads and applies a server event; returns the decoded samples of an
    /// audio delta.
    pub fn ingest_server_event(&mut self, raw: &str) -> (r: Result<Option<Vec<i16>>, EngineError>)
        requires
            old(self).spec_state().audio_delta_count < u64::MAX,
            old(self).spec_state().audio_done_count < u64::MAX,
            old(self).spec_state().transcript_delta_count < u64::MAX,
            old(self).spec_state().translated_audio_samples + raw@.len() <= u64::MAX,
        ensures
            final(self).spec_plan() == old(self).spec_plan(),
            final(self).pending() == old(self).pending(),
            match r {
                Ok(samples) => spec_parse_server_event(raw@) is Ok && (
                    final(self).spec_state(),
                    samples_opt(samples),
                ) == spec_apply_server_event(
                    old(self).spec_state(),
                    spec_parse_server_event(raw@)->Ok_0,
                ),
                Err(e) => spec_parse_server_event(raw@) == Err::<OpenAIEventView, Seq<char>>(
                    e.spec_message(),
                ) && final(self).spec_state() == old(self).spec_state(),
            },
    {
        let event = parse_server_event(raw)?;
        proof {
            lemma_parsed_audio_len(raw@);
        }
        Ok(apply_server_event(&mut self.runtime_state, &event))
    }

    /// The bookkeeping of received events.
    pub fn state(&self) -> (r: &OpenAIRealtimeRuntimeState)
        ensures
            r@ == self.spec_state(),
    {
        &self.runtime_state
    }

    /// The plan of the session.
    pub fn plan(&self) -> (r: &OpenAIRealtimePlan)
        ensures
            r@ == self.spec_plan(),
    {
        &self.plan
    }
}

impl OpenAIRealtimeRuntimeState {
    /// The state before any event: counters zero, identifiers empty.
    pub open spec fn new_view() -> OpenAIRuntimeView {
        OpenAIRuntimeView {
            audio_delta_count: 0,
            audio_done_count: 0,
            transcript_delta_count: 0,
            translated_audio_samples: 0,
            last_response_id: Seq::empty(),
            last_item_id: Seq::empty(),
        }
    }
}

/// The append events of audio chunks queued in order.
pub open spec fn appended_events(chunks: Seq<Seq<u8>>) -> Seq<Seq<char>> {
    chunks.map_values(|c: Seq<u8>| spec_input_audio_append_event(c))
}

/// Events go out in the order they were queued: a bridge just opened (its
/// `session.update` alone waiting) that then queues audio chunks
/// `chunks[0..k]` one call after another, and is then asked for events
/// repeatedly, hands out the `session.update`, then the chunks' append
/// events in call order, then nothing. `queued[i]` is the bridge before the
/// `i`-th queue call, `drained[j]` the bridge before the `j`-th take, and
/// `taken[j]` what that take returned.
pub proof fn lemma_bridge_events_in_call_order(
    queued: Seq<OpenAIRealtimeBridge>,
    chunks: Seq<Seq<u8>>,
    drained: Seq<OpenAIRealtimeBridge>,
    taken: Seq<Option<Seq<char>>>,
)
    requires
        queued.len() == chunks.len() + 1,
        queued[0].pending() == seq![queued[0].spec_plan().session_update_event],
        forall|i: int| 0 <= i < chunks.len() ==> (#[trigger] queued[i + 1]).pending() == queued[i].pending().push(
            spec_input_audio_append_event(chunks[i]),
        ) && queued[i + 1].spec_plan() == queued[i].spec_plan(),
        drained.len() == taken.len() + 1,
        drained[0] == queued.last(),
        forall|j: int| 0 <= j < taken.len() ==> (match #[trigger] taken[j] {
            Some(e) => drained[j].pending().len() > 0 && e == drained[j].pending()[0] && drained[j
                + 1].pending() == drained[j].pending().drop_first(),
            None => drained[j].pending().len() == 0 && drained[j + 1].pending() == drained[j].pending(),
        }),
    ensures
        forall|j: int| 0 <= j < taken.len() ==> #[trigger] taken[j] == (if j == 0 {
            Some(queued[0].spec_plan().session_update_event)
        } else if j <= chunks.len() {
            Some(spec_input_audio_append_event(chunks[j - 1]))
        } else {
            None::<Seq<char>>
        }),
{
    let first = queued[0].spec_plan().session_update_event;
    let all = seq![first] + appended_events(chunks);
    lemma_queue_in_order(queued, chunks, first);
    lemma_drain_in_order(drained, taken, all);
    assert forall|j: int| 0 <= j < taken.len() implies #[trigger] taken[j] == (if j == 0 {
        Some(queued[0].spec_plan().session_update_event)
    } else if j <= chunks.len() {
        Some(spec_input_audio_append_event(chunks[j - 1]))
    } else {
        None::<Seq<char>>
    }) by {
        if 0 < j <= chunks.len() {
            assert(all[j] == appended_events(chunks)[j - 1]);
        }
    }
}

proof fn lemma_queue_in_order(queued: Seq<OpenAIRealtimeBridge>, chunks: Seq<Seq<u8>>, first: Seq<char>)
    requires
        queued.len() == chunks.len() + 1,
        queued[0].pending() == seq![first],
        forall|i: int| 0 <= i < chunks.len() ==> (#[trigger] queued[i + 1]).pending() == queued[i].pending().push(
            spec_input_audio_append_event(chunks[i]),
        ),
    ensures
        queued.last().pending() == seq![first] + appended_events(chunks),
    decreases chunks.len(),
{
    if chunks.len() > 0 {
        let n = chunks.len() - 1;
        lemma_queue_in_order(queued.take(n + 1), chunks.take(n), first);
        assert(queued.take(n + 1).last() == queued[n]);
        assert(queued[n + 1].pending() == queued[n].pending().push(spec_input_audio_append_event(chunks[n])));
        assert(appended_events(chunks) =~= appended_events(chunks.take(n)).push(
            spec_input_audio_append_event(chunks[n]),
        ));
        assert(seq![first] + appended_events(chunks) =~= (seq![first] + appended_events(chunks.take(n))).push(
            spec_input_audio_append_event(chunks[n]),
        ));
    } else {
        assert(appended_events(chunks) =~= Seq::<Seq<char>>::empty());
        assert(seq![first] + appended_events(chunks) =~= seq![first]);
    }
}

proof fn lemma_drain_in_order(drained: Seq<OpenAIRealtimeBridge>, taken: Seq<Option<Seq<char>>>, all: Seq<Seq<char>>)
    requires
        drained.len() == taken.len() + 1,
        drained[0].pending() == all,
        forall|j: int| 0 <= j < taken.len() ==> (match #[trigger] taken[j] {
            Some(e) => drained[j].pending().len() > 0 && e == drained[j].pending()[0] && drained[j
                + 1].pending() == drained[j].pending().drop_first(),
            None => drained[j].pending().len() == 0 && drained[j + 1].pending() == drained[j].pending(),
        }),
    ensures
        forall|j: int| 0 <= j < taken.len() ==> #[trigger] taken[j] == (if j < all.len() {
            Some(all[j])
        } else {
            None::<Seq<char>>
        }),
    decreases taken.len(),
{
    if taken.len() > 0 {
        let n = taken.len() - 1;
        lemma_drain_in_order(drained.take(n + 1), taken.take(n), all);
        assert forall|j: int| 0 <= j <= taken.len() implies (#[trigger] drained[j]).pending() == (if j
            <= all.len() {
            all.skip(j)
        } else {
            Seq::<Seq<char>>::empty()
        }) by {
            lemma_drained_at(drained, taken, all, j);
        }
        assert forall|j: int| 0 <= j < taken.len() implies #[trigger] taken[j] == (if j < all.len() {
            Some(all[j])
        } else {
            None::<Seq<char>>
        }) by {
            if j < n {
                assert(taken.take(n)[j] == taken[j]);
            } else {
                lemma_drained_at(drained, taken, all, j);
            }
        }
    }
}

proof fn lemma_drained_at(drained: Seq<OpenAIRealtimeBridge>, taken: Seq<Option<Seq<char>>>, all: Seq<Seq<char>>, j: int)
    requires
        drained.len() == taken.len() + 1,
        drained[0].pending() == all,
        forall|k: int| 0 <= k < taken.len() ==> (match #[trigger] taken[k] {
            Some(e) => drained[k].pending().len() > 0 && e == drained[k].pending()[0] && drained[k
                + 1].pending() == drained[k].pending().drop_first(),
            None => drained[k].pending().len() == 0 && drained[k + 1].pending() == drained[k].pending(),
        }),
        0 <= j <= taken.len(),
    ensures
        drained[j].pending() == (if j <= all.len() {
            all.skip(j)
        } else {
            Seq::<Seq<char>>::empty()
        }),
    decreases j,
{
    if j == 0 {
        assert(all.skip(0) =~= all);
    } else {
        lemma_drained_at(drained, taken, all, j - 1);
        let t = taken[j - 1];
        if j - 1 < all.len() {
            assert(drained[j - 1].pending().len() > 0);
            assert(drained[j].pending() =~= all.skip(j));
        } else {
            assert(drained[j].pending() =~= Seq::<Seq<char>>::empty());
        }
    }
}

/// Both generations of event names read alike: an event whose `type` is
/// `response.audio.done` or `response.output_audio.done` is the end of a
/// response's audio, carrying the raw event's response id (its
/// `response_id`, else `response.id`) and `item_id`; one whose `type` is
/// either audio-delta name carries those ids and the Base64-decoded bytes of
/// its `delta`; one whose `type` is any of the four transcript-delta names
/// carries those ids and its `delta` text.
pub proof fn lemma_event_names_read_alike(raw: Seq<char>)
    ensures
        ({
            let response_id = match json_string(raw, "response_id"@) {
                Some(r) => r,
                None => match nested_json_string(raw, "response"@, "id"@) {
                    Some(r) => r,
                    None => Seq::empty(),
                },
            };
            let item_id = match json_string(raw, "item_id"@) {
                Some(i) => i,
                None => Seq::empty(),
            };
            &&& (json_string(raw, "type"@) == Some("response.audio.done"@) || json_string(raw, "type"@)
                == Some("response.output_audio.done"@)) ==> spec_parse_server_event(raw) == Ok::<
                OpenAIEventView,
                Seq<char>,
            >(OpenAIEventView::ResponseAudioDone { response_id, item_id })
            &&& (json_string(raw, "type"@) == Some("response.audio.delta"@) || json_string(raw, "type"@)
                == Some("response.output_audio.delta"@)) ==> match json_string(raw, "delta"@) {
                Some(d) => match spec_base64_decode(d) {
                    Ok(bytes) => spec_parse_server_event(raw) == Ok::<OpenAIEventView, Seq<char>>(
                        OpenAIEventView::ResponseAudioDelta { response_id, item_id, audio_bytes: bytes },
                    ),
                    Err(_) => spec_parse_server_event(raw) is Err,
                },
                None => spec_parse_server_event(raw) is Err,
            }
            &&& (json_string(raw, "type"@) == Some("response.audio_transcript.delta"@) || json_string(
                raw,
                "type"@,
            ) == Some("response.output_audio_transcript.delta"@) || json_string(raw, "type"@) == Some(
                "response.text.delta"@,
            ) || json_string(raw, "type"@) == Some("response.output_text.delta"@))
                ==> spec_parse_server_event(raw) == Ok::<OpenAIEventView, Seq<char>>(
                OpenAIEventView::ResponseTranscriptDelta {
                    response_id,
                    item_id,
                    delta: match json_string(raw, "delta"@) {
                        Some(d) => d,
                        None => Seq::empty(),
                    },
                },
            )
        }),
{
    reveal_strlit("response.audio.delta");
    reveal_strlit("response.output_audio.delta");
    reveal_strlit("response.audio.done");
    reveal_strlit("response.output_audio.done");
    reveal_strlit("response.audio_transcript.delta");
    reveal_strlit("response.output_audio_transcript.delta");
    reveal_strlit("response.text.delta");
    reveal_strlit("response.output_text.delta");
    reveal_strlit("error");
    assert("response.text.delta"@[9] != "response.audio.done"@[9]);
    assert("response.text.delta"@ != "response.audio.done"@);
    assert("response.output_text.delta"@[16] != "response.output_audio.done"@[16]);
    assert("response.output_text.delta"@ != "response.output_audio.done"@);
    assert("response.audio.delta"@.len() == 20 && "response.audio.done"@.len() == 19);
    assert("response.audio.delta"@ != "response.audio.done"@);
    assert("response.output_audio.delta"@.len() == 27 && "response.output_audio.done"@.len() == 26);
    assert("response.output_audio.delta"@ != "response.output_audio.done"@);
    assert("response.audio.delta"@ != "response.output_audio.done"@);
    assert("response.output_audio.delta"@ != "response.audio.done"@);
}

} // verus!
