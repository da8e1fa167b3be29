//! Remote speech-synthesis clients (CosyVoice, ElevenLabs, MiniMax and the
//! local sidecar server): settings and their validation, the requests they
//! send, and the reading of their replies. The HTTP exchange and the
//! conversion of samples to floating point are the host's.

use vstd::prelude::*;
use vstd::string::StringSliceAdditionalSpecFns;
use vstd::utf8::encode_utf8;
use crate::config::{ElevenLabsTtsConfig, MiniMaxTtsConfig};
use crate::text::{decimal, is_blank, parse_unsigned, parse_unsigned_exec, push_u64, chars_of, trim, trim_str};
use crate::wire::{json_escaped, pcm16le_bytes_to_i16, pcm16le_samples, push_json_escaped};

verus! {

/// Appends every byte of `data` to `body`.
fn append_bytes(body: &mut Vec<u8>, data: &[u8])
    ensures
        final(body)@ == old(body)@ + data@,
{
    let ghost b0 = body@;
    let mut i: usize = 0;
    while i < data.len()
        invariant
            i <= data@.len(),
            body@ == b0 + data@.take(i as int),
        decreases data@.len() - i,
    {
        body.push(data[i]);
        assert(b0 + data@.take(i + 1) =~= (b0 + data@.take(i as int)).push(data@[i as int]));
        i += 1;
    }
    assert(data@.take(data@.len() as int) =~= data@);
}

/// Appends the UTF-8 bytes of `text` to `body`.
fn append_text(body: &mut Vec<u8>, text: &str)
    ensures
        final(body)@ == old(body)@ + encode_utf8(text@),
{
    append_bytes(body, text.as_bytes());
}

/// The text to synthesize: the input trimmed, or nothing when blank (a blank
/// text synthesizes to no samples without a request).
pub fn speech_text(text: &str) -> (r: Option<String>)
    ensures
        match r {
            Some(t) => t@ == trim(text@) && t@.len() > 0,
            None => trim(text@).len() == 0,
        },
{
    let t = trim_str(text);
    if t.as_str().is_empty() {
        None
    } else {
        Some(t)
    }
}

// ---------------------------------------------------------------- CosyVoice

/// The CosyVoice server used when none is configured.
pub const COSYVOICE_DEFAULT_ENDPOINT: &'static str = "http://127.0.0.1:50000";

/// The CosyVoice server's output rate: 22 050 Hz int16 mono PCM.
pub const COSYVOICE_OUTPUT_SAMPLE_RATE: u32 = 22_050;

/// The multipart boundary of CosyVoice requests.
pub const COSYVOICE_BOUNDARY: &'static str = "----CosyVoiceBoundary7Ma4YWxkTrZu0gW";

/// The timeout of one synthesis request, in seconds.
pub const COSYVOICE_TIMEOUT_SECS: u64 = 30;

/// A failure of CosyVoice synthesis.
#[derive(Clone, Debug)]
pub enum CosyVoiceError {
    Config(String),
    Io(String),
    Network(String),
    Api { status: u16, body: String },
    Decode(String),
}

/// The text of a [`CosyVoiceError`], as the host displays it.
pub open spec fn cosyvoice_error_text(e: CosyVoiceError) -> Seq<char> {
    match e {
        CosyVoiceError::Config(m) => "config error: "@ + m@,
        CosyVoiceError::Io(m) => "io error reading reference wav: "@ + m@,
        CosyVoiceError::Network(m) => "network error: "@ + m@,
        CosyVoiceError::Api { status, body } => "api error: HTTP "@ + decimal(status as nat)
            + ": "@ + body@,
        CosyVoiceError::Decode(m) => "decode error: "@ + m@,
    }
}

impl CosyVoiceError {
    /// The text of the error, as the host displays it.
    pub fn display_text(&self) -> (r: String)
        ensures
            r@ == cosyvoice_error_text(*self),
    {
        match self {
            CosyVoiceError::Config(m) => {
                let mut s = String::from_str("config error: ");
                s.append(m.as_str());
                s
            },
            CosyVoiceError::Io(m) => {
                let mut s = String::from_str("io error reading reference wav: ");
                s.append(m.as_str());
                s
            },
            CosyVoiceError::Network(m) => {
                let mut s = String::from_str("network error: ");
                s.append(m.as_str());
                s
            },
            CosyVoiceError::Api { status, body } => {
                let mut s = String::from_str("api error: HTTP ");
                push_u64(&mut s, *status as u64);
                s.append(": ");
                s.append(body.as_str());
                s
            },
            CosyVoiceError::Decode(m) => {
                let mut s = String::from_str("decode error: ");
                s.append(m.as_str());
                s
            },
        }
    }
}

/// Where the CosyVoice server runs and which voice it clones.
#[derive(Clone, Debug)]
pub struct CosyVoiceConfig {
    /// Base URL of the server, e.g. "http://127.0.0.1:50000".
    pub endpoint: String,
    /// Path of the reference voice WAV file.
    pub prompt_wav_path: String,
    /// Transcript of the reference WAV (may be empty).
    pub prompt_text: String,
}

impl Default for CosyVoiceConfig {
    fn default() -> (r: Self)
        ensures
            r.endpoint@ == COSYVOICE_DEFAULT_ENDPOINT@,
            r.prompt_wav_path@.len() == 0,
            r.prompt_text@.len() == 0,
    {
        CosyVoiceConfig {
            endpoint: String::from_str(COSYVOICE_DEFAULT_ENDPOINT),
            prompt_wav_path: String::new(),
            prompt_text: String::new(),
        }
    }
}

/// One form field carrying text.
pub open spec fn text_field(boundary: Seq<char>, name: Seq<char>, value: Seq<char>) -> Seq<char> {
    "--"@ + boundary + "\r\nContent-Disposition: form-data; name=\""@ + name + "\"\r\n\r\n"@ + value
        + "\r\n"@
}

/// The head of one form field carrying a file.
pub open spec fn file_field_head(
    boundary: Seq<char>,
    name: Seq<char>,
    filename: Seq<char>,
    content_type: Seq<char>,
) -> Seq<char> {
    "--"@ + boundary + "\r\nContent-Disposition: form-data; name=\""@ + name + "\"; filename=\""@
        + filename + "\"\r\nContent-Type: "@ + content_type + "\r\n\r\n"@
}

/// The `multipart/form-data` body of a zero-shot request: the text to speak,
/// the reference transcript, the reference WAV (bytes unchanged) and the
/// closing boundary.
pub open spec fn multipart_body(
    boundary: Seq<char>,
    tts_text: Seq<char>,
    prompt_text: Seq<char>,
    wav: Seq<u8>,
) -> Seq<u8> {
    encode_utf8(text_field(boundary, "tts_text"@, tts_text)) + encode_utf8(
        text_field(boundary, "prompt_text"@, prompt_text),
    ) + encode_utf8(file_field_head(boundary, "prompt_wav"@, "ref_voice.wav"@, "audio/wav"@))
        + wav + encode_utf8("\r\n"@) + encode_utf8("--"@ + boundary + "--\r\n"@)
}

fn append_text_field(body: &mut Vec<u8>, boundary: &str, name: &str, value: &str)
    ensures
        final(body)@ == old(body)@ + encode_utf8(text_field(boundary@, name@, value@)),
{
    let mut s = String::from_str("--");
    s.append(boundary);
    s.append("\r\nContent-Disposition: form-data; name=\"");
    s.append(name);
    s.append("\"\r\n\r\n");
    s.append(value);
    s.append("\r\n");
    append_text(body, s.as_str());
}

fn append_file_field(
    body: &mut Vec<u8>,
    boundary: &str,
    name: &str,
    filename: &str,
    content_type: &str,
    data: &[u8],
)
    ensures
        final(body)@ == old(body)@ + encode_utf8(file_field_head(boundary@, name@, filename@, content_type@))
            + data@ + encode_utf8("\r\n"@),
{
    let mut s = String::from_str("--");
    s.append(boundary);
    s.append("\r\nContent-Disposition: form-data; name=\"");
    s.append(name);
    s.append("\"; filename=\"");
    s.append(filename);
    s.append("\"\r\nContent-Type: ");
    s.append(content_type);
    s.append("\r\n\r\n");
    append_text(body, s.as_str());
    append_bytes(body, data);
    append_text(body, "\r\n");
}

/// Builds the `multipart/form-data` body of a zero-shot request.
pub fn build_multipart(boundary: &str, tts_text: &str, prompt_text: &str, wav_bytes: &[u8]) -> (r:
    Vec<u8>)
    ensures
        r@ == multipart_body(boundary@, tts_text@, prompt_text@, wav_bytes@),
{
    let mut body: Vec<u8> = Vec::new();
    append_text_field(&mut body, boundary, "tts_text", tts_text);
    append_text_field(&mut body, boundary, "prompt_text", prompt_text);
    append_file_field(&mut body, boundary, "prompt_wav", "ref_voice.wav", "audio/wav", wav_bytes);
    let mut end = String::from_str("--");
    end.append(boundary);
    end.append("--\r\n");
    append_text(&mut body, end.as_str());
    assert(body@ =~= multipart_body(boundary@, tts_text@, prompt_text@, wav_bytes@));
    body
}

/// A POST request with a body.
#[derive(Clone, Debug)]
pub struct HttpPost {
    pub url: String,
    pub content_type: String,
    pub body: Vec<u8>,
}

/// A CosyVoice client whose settings passed validation.
#[derive(Clone, Debug)]
pub struct CosyVoiceClient {
    config: CosyVoiceConfig,
}

impl CosyVoiceClient {
    /// The settings of the client.
    pub closed spec fn spec_config(&self) -> CosyVoiceConfig {
        self.config
    }

    /// Accepts settings with a non-blank endpoint and a non-empty reference
    /// WAV path (checked in that order); the server is not contacted.
    pub fn new(config: CosyVoiceConfig) -> (r: Result<Self, CosyVoiceError>)
        ensures
            trim(config.endpoint@).len() == 0 ==> (r matches Err(CosyVoiceError::Config(m)) && m@
                == "endpoint is empty"@),
            trim(config.endpoint@).len() != 0 && config.prompt_wav_path@.len() == 0 ==> (r matches Err(
                CosyVoiceError::Config(m),
            ) && m@ == "prompt_wav_path is empty"@),
            trim(config.endpoint@).len() != 0 && config.prompt_wav_path@.len() != 0 ==> (r matches Ok(
                c,
            ) && c.spec_config() == config),
    {
        if is_blank(config.endpoint.as_str()) {
            return Err(CosyVoiceError::Config(String::from_str("endpoint is empty")));
        }
        if config.prompt_wav_path.as_str().is_empty() {
            return Err(CosyVoiceError::Config(String::from_str("prompt_wav_path is empty")));
        }
        Ok(CosyVoiceClient { config })
    }

    /// The reference WAV the host reads before a request.
    pub fn prompt_wav_path(&self) -> (r: &str)
        ensures
            r@ == self.spec_config().prompt_wav_path@,
    {
        self.config.prompt_wav_path.as_str()
    }

    /// The zero-shot request for `text` (already trimmed and non-blank) with
    /// the reference WAV's bytes: posted to `{endpoint}/inference_zero_shot`.
    pub fn request(&self, text: &str, wav_bytes: &[u8]) -> (r: HttpPost)
        ensures
            r.url@ == self.spec_config().endpoint@ + "/inference_zero_shot"@,
            r.content_type@ == "multipart/form-data; boundary="@ + COSYVOICE_BOUNDARY@,
            r.body@ == multipart_body(
                COSYVOICE_BOUNDARY@,
                text@,
                self.spec_config().prompt_text@,
                wav_bytes@,
            ),
    {
        let mut url = String::from_str(self.config.endpoint.as_str());
        url.append("/inference_zero_shot");
        let mut content_type = String::from_str("multipart/form-data; boundary=");
        content_type.append(COSYVOICE_BOUNDARY);
        let body = build_multipart(COSYVOICE_BOUNDARY, text, self.config.prompt_text.as_str(), wav_bytes);
        HttpPost { url, content_type, body }
    }
}

/// The samples of a reply body of little-endian int16 PCM (a trailing odd
/// byte is ignored).
pub fn reply_pcm16(raw: &[u8]) -> (r: Vec<i16>)
    ensures
        r@ == pcm16le_samples(raw@),
{
    pcm16le_bytes_to_i16(raw)
}

// --------------------------------------------------------------- ElevenLabs

/// The ElevenLabs API base.
pub const ELEVENLABS_API_BASE: &'static str = "https://api.elevenlabs.io/v1";

/// The ElevenLabs `pcm_24000` output rate: 24 000 Hz int16 mono PCM.
pub const ELEVENLABS_OUTPUT_SAMPLE_RATE: u32 = 24_000;

/// The timeout of one synthesis request, in seconds.
pub const ELEVENLABS_TIMEOUT_SECS: u64 = 30;

/// A failure of ElevenLabs synthesis.
#[derive(Clone, Debug)]
pub enum ElevenLabsTtsError {
    Config(String),
    Network(String),
    Api { status: u16, body: String },
    Decode(String),
}

/// The text of an [`ElevenLabsTtsError`], as the host displays it.
pub open spec fn elevenlabs_error_text(e: ElevenLabsTtsError) -> Seq<char> {
    match e {
        ElevenLabsTtsError::Config(m) => "config error: "@ + m@,
        ElevenLabsTtsError::Network(m) => "network error: "@ + m@,
        ElevenLabsTtsError::Api { status, body } => "api error: HTTP "@ + decimal(status as nat)
            + ": "@ + body@,
        ElevenLabsTtsError::Decode(m) => "decode error: "@ + m@,
    }
}

impl ElevenLabsTtsError {
    /// The text of the error, as the host displays it.
    pub fn display_text(&self) -> (r: String)
        ensures
            r@ == elevenlabs_error_text(*self),
    {
        match self {
            ElevenLabsTtsError::Config(m) => {
                let mut s = String::from_str("config error: ");
                s.append(m.as_str());
                s
            },
            ElevenLabsTtsError::Network(m) => {
                let mut s = String::from_str("network error: ");
                s.append(m.as_str());
                s
            },
            ElevenLabsTtsError::Api { status, body } => {
                let mut s = String::from_str("api error: HTTP ");
                push_u64(&mut s, *status as u64);
                s.append(": ");
                s.append(body.as_str());
                s
            },
            ElevenLabsTtsError::Decode(m) => {
                let mut s = String::from_str("decode error: ");
                s.append(m.as_str());
                s
            },
        }
    }
}

/// A JSON string literal for `s` (quotes around its escaped text, other
/// control characters as `\u00xx`).
pub open spec fn json_string_literal(s: Seq<char>) -> Seq<char> {
    seq!['"'] + json_escaped(s, true) + seq!['"']
}

/// The JSON string literal of `s`.
pub fn serde_json_str(s: &str) -> (r: String)
    ensures
        r@ == json_string_literal(s@),
{
    let mut out = String::from_str("\"");
    push_json_escaped(&mut out, s, true);
    out.append("\"");
    proof {
        reveal_strlit("\"");
    }
    assert(out@ =~= json_string_literal(s@));
    out
}

/// The JSON body of an ElevenLabs request.
pub open spec fn elevenlabs_body(text: Seq<char>, model_id: Seq<char>) -> Seq<char> {
    "{\"text\":"@ + json_string_literal(text) + ",\"model_id\":"@ + json_string_literal(model_id)
        + "}"@
}

/// A JSON request with its API-key header.
#[derive(Clone, Debug)]
pub struct KeyedJsonPost {
    pub url: String,
    pub api_key: String,
    pub body: String,
}

/// An ElevenLabs client whose settings passed validation.
#[derive(Clone, Debug)]
pub struct ElevenLabsTtsClient {
    config: ElevenLabsTtsConfig,
}

impl ElevenLabsTtsClient {
    /// The settings of the client.
    pub closed spec fn spec_config(&self) -> ElevenLabsTtsConfig {
        self.config
    }

    /// Accepts settings with a non-blank API key and voice id (checked in
    /// that order).
    pub fn new(config: ElevenLabsTtsConfig) -> (r: Result<Self, ElevenLabsTtsError>)
        ensures
            trim(config.api_key@).len() == 0 ==> (r matches Err(ElevenLabsTtsError::Config(m)) && m@
                == "api_key is empty"@),
            trim(config.api_key@).len() != 0 && trim(config.voice_id@).len() == 0 ==> (r matches Err(
                ElevenLabsTtsError::Config(m),
            ) && m@ == "voice_id is empty"@),
            trim(config.api_key@).len() != 0 && trim(config.voice_id@).len() != 0 ==> (r matches Ok(
                c,
            ) && c.spec_config() == config),
    {
        if is_blank(config.api_key.as_str()) {
            return Err(ElevenLabsTtsError::Config(String::from_str("api_key is empty")));
        }
        if is_blank(config.voice_id.as_str()) {
            return Err(ElevenLabsTtsError::Config(String::from_str("voice_id is empty")));
        }
        Ok(ElevenLabsTtsClient { config })
    }

    /// The streaming request for `text` (already trimmed and non-blank):
    /// posted to the voice's stream URL with `pcm_24000` output, the API key
    /// as `xi-api-key`, and a JSON body of the text and the model id.
    pub fn request(&self, text: &str) -> (r: KeyedJsonPost)
        ensures
            r.url@ == ELEVENLABS_API_BASE@ + "/text-to-speech/"@ + self.spec_config().voice_id@
                + "/stream?output_format=pcm_24000"@,
            r.api_key@ == self.spec_config().api_key@,
            r.body@ == elevenlabs_body(text@, self.spec_config().model_id@),
    {
        let mut url = String::from_str(ELEVENLABS_API_BASE);
        url.append("/text-to-speech/");
        url.append(self.config.voice_id.as_str());
        url.append("/stream?output_format=pcm_24000");
        let mut body = String::from_str("{\"text\":");
        let t = serde_json_str(text);
        body.append(t.as_str());
        body.append(",\"model_id\":");
        let m = serde_json_str(self.config.model_id.as_str());
        body.append(m.as_str());
        body.append("}");
        KeyedJsonPost { url, api_key: String::from_str(self.config.api_key.as_str()), body }
    }
}

impl Default for ElevenLabsTtsConfig {
    fn default() -> (r: Self)
        ensures
            !r.enabled,
            r.api_key@.len() == 0,
            r.voice_id@.len() == 0,
            r.model_id@ == "eleven_multilingual_v2"@,
    {
        ElevenLabsTtsConfig {
            enabled: false,
            api_key: String::new(),
            voice_id: String::new(),
            model_id: String::from_str("eleven_multilingual_v2"),
        }
    }
}

// ------------------------------------------------------------------ MiniMax

/// The MiniMax API host used when none is configured.
pub const MINIMAX_DEFAULT_API_HOST: &'static str = "https://api.minimaxi.com";

/// The MiniMax model used when none is configured.
pub const MINIMAX_DEFAULT_MODEL: &'static str = "speech-01-turbo";

/// The MiniMax voice used when none is configured or given by the environment.
pub const MINIMAX_DEFAULT_VOICE_ID: &'static str = "male-qn-qingse";

/// The MiniMax emotion used when none is configured.
pub const MINIMAX_DEFAULT_EMOTION: &'static str = "happy";

/// The MiniMax output rate used when none is configured.
pub const MINIMAX_OUTPUT_SAMPLE_RATE: u32 = 24_000;

/// The timeout of one synthesis request, in seconds.
pub const MINIMAX_TIMEOUT_SECS: u64 = 60;

/// A failure of MiniMax synthesis.
#[derive(Clone, Debug)]
pub enum MiniMaxTtsError {
    Config(String),
    Network(String),
    Api { status: u16, body: String },
    Decode(String),
    ApiError(String),
}

/// The text of a [`MiniMaxTtsError`], as the host displays it.
pub open spec fn minimax_error_text(e: MiniMaxTtsError) -> Seq<char> {
    match e {
        MiniMaxTtsError::Config(m) => "config error: "@ + m@,
        MiniMaxTtsError::Network(m) => "network error: "@ + m@,
        MiniMaxTtsError::Api { status, body } => "api error: HTTP "@ + decimal(status as nat) + ": "@
            + body@,
        MiniMaxTtsError::Decode(m) => "decode error: "@ + m@,
        MiniMaxTtsError::ApiError(m) => "api returned error: "@ + m@,
    }
}

impl MiniMaxTtsError {
    /// The text of the error, as the host displays it.
    pub fn display_text(&self) -> (r: String)
        ensures
            r@ == minimax_error_text(*self),
    {
        match self {
            MiniMaxTtsError::Config(m) => {
                let mut s = String::from_str("config error: ");
                s.append(m.as_str());
                s
            },
            MiniMaxTtsError::Network(m) => {
                let mut s = String::from_str("network error: ");
                s.append(m.as_str());
                s
            },
            MiniMaxTtsError::Api { status, body } => {
                let mut s = String::from_str("api error: HTTP ");
                push_u64(&mut s, *status as u64);
                s.append(": ");
                s.append(body.as_str());
                s
            },
            MiniMaxTtsError::Decode(m) => {
                let mut s = String::from_str("decode error: ");
                s.append(m.as_str());
                s
            },
            MiniMaxTtsError::ApiError(m) => {
                let mut s = String::from_str("api returned error: ");
                s.append(m.as_str());
                s
            },
        }
    }
}

/// `text` when it is not empty, else `default`.
pub open spec fn or_if_empty(text: Seq<char>, default: Seq<char>) -> Seq<char> {
    if text.len() == 0 {
        default
    } else {
        text
    }
}

fn copy_or_default(text: &str, default: &str) -> (r: String)
    ensures
        r@ == or_if_empty(text@, default@),
{
    if text.is_empty() {
        String::from_str(default)
    } else {
        String::from_str(text)
    }
}

/// The MiniMax settings a client resolved (speed and volume, held as
/// floating point, stay with the host).
#[derive(Clone, Debug)]
pub struct MiniMaxTtsClient {
    api_host: String,
    api_key: String,
    model: String,
    voice_id: String,
    emotion: String,
    pitch: i32,
    sample_rate: u32,
}

/// What the request for one text says, besides speed and volume.
#[derive(Clone, Debug)]
pub struct MiniMaxRequest {
    pub url: String,
    pub authorization: String,
    pub model: String,
    pub text: String,
    pub voice_id: String,
    pub pitch: i32,
    pub emotion: String,
    pub sample_rate: u32,
}

/// What the synthesis logic reads of a decoded MiniMax reply: the
/// `base_resp.status_code` (when it is an integer), `base_resp.status_msg`
/// (when it is a string) and `data.audio` (when it is a string).
#[derive(Clone, Debug)]
pub struct MiniMaxReply {
    pub status_code: Option<i64>,
    pub status_msg: Option<String>,
    pub audio_hex: Option<String>,
}

/// The value of a hexadecimal digit byte.
pub open spec fn hex_value(b: u8) -> Option<u8> {
    if 48 <= b <= 57 {
        Some((b - 48) as u8)
    } else if 65 <= b <= 70 {
        Some((b - 55) as u8)
    } else if 97 <= b <= 102 {
        Some((b - 87) as u8)
    } else {
        None
    }
}

/// Whether `s` is hexadecimal text: an even number of hexadecimal digits.
pub open spec fn hex_valid(s: Seq<u8>) -> bool {
    s.len() % 2 == 0 && forall|i: int| 0 <= i < s.len() ==> (#[trigger] hex_value(s[i])) is Some
}

/// The bytes that valid hexadecimal text spells, two digits per byte, the
/// high digit first.
pub open spec fn hex_bytes(s: Seq<u8>) -> Seq<u8> {
    Seq::new(
        s.len() / 2,
        |i: int| (hex_value(s[2 * i])->0 * 16 + hex_value(s[2 * i + 1])->0) as u8,
    )
}

/// The text `hex::decode` gives for the failure on `text`.
pub uninterp spec fn hex_decode_error(text: Seq<char>) -> Seq<char>;

/// Decodes hexadecimal text.
/// Calls `hex::decode` on the UTF-8 bytes of `text`; claims it succeeds exactly
/// on an even number of hexadecimal digits (either case) and then gives two
/// digits per byte, the high digit first; the failure's text is that of the
/// crate's error, named by `hex_decode_error`.
#[verifier::external_body]
fn hex_decode(text: &str) -> (r: Result<Vec<u8>, String>)
    ensures
        match r {
            Ok(bytes) => hex_valid(text.spec_bytes()) && bytes@ == hex_bytes(text.spec_bytes()),
            Err(m) => !hex_valid(text.spec_bytes()) && m@ == hex_decode_error(text@),
        },
{
    match hex::decode(text) {
        Ok(bytes) => Ok(bytes),
        Err(e) => Err(e.to_string()),
    }
}

impl MiniMaxTtsClient {
    /// The API host.
    pub closed spec fn spec_api_host(&self) -> Seq<char> {
        self.api_host@
    }

    /// The API key.
    pub closed spec fn spec_api_key(&self) -> Seq<char> {
        self.api_key@
    }

    /// The configured model (possibly empty).
    pub closed spec fn spec_model(&self) -> Seq<char> {
        self.model@
    }

    /// The voice.
    pub closed spec fn spec_voice_id(&self) -> Seq<char> {
        self.voice_id@
    }

    /// The configured emotion (possibly empty).
    pub closed spec fn spec_emotion(&self) -> Seq<char> {
        self.emotion@
    }

    /// The pitch.
    pub closed spec fn spec_pitch(&self) -> i32 {
        self.pitch
    }

    /// The configured sample rate (0 for the default).
    pub closed spec fn spec_sample_rate(&self) -> u32 {
        self.sample_rate
    }

    /// The sample rate of the audio: the configured one, or the default when 0.
    pub open spec fn output_rate(&self) -> u32 {
        if self.spec_sample_rate() == 0 {
            MINIMAX_OUTPUT_SAMPLE_RATE
        } else {
            self.spec_sample_rate()
        }
    }

    /// Resolves the settings: the API key is the configured one, else the
    /// value of `MINIMAX_API_KEY` (`env_api_key`), else an error; the voice is
    /// the configured one, else `MINIMAX_VOICE_ID` (`env_voice_id`), else the
    /// default voice; the host is the configured one, else the default host.
    pub fn new(config: &MiniMaxTtsConfig, env_api_key: Option<&str>, env_voice_id: Option<&str>) -> (r:
        Result<Self, MiniMaxTtsError>)
        ensures
            config.api_key@.len() == 0 && env_api_key.is_none() ==> (r matches Err(
                MiniMaxTtsError::Config(m),
            ) && m@ == "MINIMAX_API_KEY not set"@),
            !(config.api_key@.len() == 0 && env_api_key.is_none()) ==> (r matches Ok(c) && c.spec_api_key()
                == (if config.api_key@.len() == 0 {
                env_api_key.unwrap()@
            } else {
                config.api_key@
            }) && c.spec_voice_id() == (if config.voice_id@.len() == 0 {
                match env_voice_id {
                    Some(v) => v@,
                    None => MINIMAX_DEFAULT_VOICE_ID@,
                }
            } else {
                config.voice_id@
            }) && c.spec_api_host() == or_if_empty(config.api_host@, MINIMAX_DEFAULT_API_HOST@)
                && c.spec_model() == config.model@ && c.spec_emotion() == config.emotion@
                && c.spec_pitch() == config.pitch && c.spec_sample_rate() == config.sample_rate),
    {
        let api_key = if config.api_key.as_str().is_empty() {
            match env_api_key {
                Some(k) => String::from_str(k),
                None => return Err(MiniMaxTtsError::Config(String::from_str("MINIMAX_API_KEY not set"))),
            }
        } else {
            String::from_str(config.api_key.as_str())
        };
        let voice_id = if config.voice_id.as_str().is_empty() {
            match env_voice_id {
                Some(v) => String::from_str(v),
                None => String::from_str(MINIMAX_DEFAULT_VOICE_ID),
            }
        } else {
            String::from_str(config.voice_id.as_str())
        };
        let api_host = copy_or_default(config.api_host.as_str(), MINIMAX_DEFAULT_API_HOST);
        Ok(
            MiniMaxTtsClient {
                api_host,
                api_key,
                model: String::from_str(config.model.as_str()),
                voice_id,
                emotion: String::from_str(config.emotion.as_str()),
                pitch: config.pitch,
                sample_rate: config.sample_rate,
            },
        )
    }

    /// The request for `text` (sent as it is): posted to `{host}/v1/t2a_v2`
    /// with a bearer authorization; an empty model or emotion is replaced by
    /// the default, and so is a zero sample rate.
    pub fn request(&self, text: &str) -> (r: MiniMaxRequest)
        ensures
            r.url@ == self.spec_api_host() + "/v1/t2a_v2"@,
            r.authorization@ == "Bearer "@ + self.spec_api_key(),
            r.model@ == or_if_empty(self.spec_model(), MINIMAX_DEFAULT_MODEL@),
            r.text@ == text@,
            r.voice_id@ == self.spec_voice_id(),
            r.pitch == self.spec_pitch(),
            r.emotion@ == or_if_empty(self.spec_emotion(), MINIMAX_DEFAULT_EMOTION@),
            r.sample_rate == self.output_rate(),
    {
        let mut url = String::from_str(self.api_host.as_str());
        url.append("/v1/t2a_v2");
        let mut authorization = String::from_str("Bearer ");
        authorization.append(self.api_key.as_str());
        MiniMaxRequest {
            url,
            authorization,
            model: copy_or_default(self.model.as_str(), MINIMAX_DEFAULT_MODEL),
            text: String::from_str(text),
            voice_id: String::from_str(self.voice_id.as_str()),
            pitch: self.pitch,
            emotion: copy_or_default(self.emotion.as_str(), MINIMAX_DEFAULT_EMOTION),
            sample_rate: if self.sample_rate == 0 {
                MINIMAX_OUTPUT_SAMPLE_RATE
            } else {
                self.sample_rate
            },
        }
    }

    /// Reads a reply: an HTTP status other than 200 is an API error carrying
    /// the body; a body that is not JSON (`parsed` holds the parser's
    /// message) is a decode error; a non-zero `base_resp.status_code` is the
    /// service's error ("code: message", "unknown error" without a message);
    /// otherwise `data.audio` must be present and hold hexadecimal text
    /// (once trimmed), whose bytes are little-endian int16 samples at the
    /// output rate.
    pub fn reply_samples(&self, status: u16, body: &str, parsed: Result<MiniMaxReply, String>) -> (r:
        Result<(Vec<i16>, u32), MiniMaxTtsError>)
        ensures
            status != 200 ==> (r matches Err(MiniMaxTtsError::Api { status: s, body: b }) && s == status
                && b@ == body@),
            status == 200 ==> match parsed {
                Err(e) => r matches Err(MiniMaxTtsError::Decode(m)) && m@ == "JSON parse: "@ + e@,
                Ok(reply) => match reply.status_code {
                    Some(code) if code != 0 => r matches Err(MiniMaxTtsError::ApiError(m)) && m@
                        == minimax_status_text(code, reply.status_msg),
                    _ => match reply.audio_hex {
                        None => r matches Err(MiniMaxTtsError::Decode(m)) && m@
                            == "missing data.audio in response"@,
                        Some(a) => if hex_valid(encode_utf8(trim(a@))) {
                            r matches Ok((samples, rate)) && samples@ == pcm16le_samples(
                                hex_bytes(encode_utf8(trim(a@))),
                            ) && rate == self.output_rate()
                        } else {
                            r matches Err(MiniMaxTtsError::Decode(m)) && m@ == "hex decode: "@
                                + hex_decode_error(trim(a@))
                        },
                    },
                },
            },
    {
        if status != 200 {
            return Err(MiniMaxTtsError::Api { status, body: String::from_str(body) });
        }
        let reply = match parsed {
            Err(e) => {
                let mut m = String::from_str("JSON parse: ");
                m.append(e.as_str());
                return Err(MiniMaxTtsError::Decode(m));
            },
            Ok(reply) => reply,
        };
        if let Some(code) = reply.status_code {
            if code != 0 {
                return Err(MiniMaxTtsError::ApiError(status_text(code, &reply.status_msg)));
            }
        }
        let audio = match &reply.audio_hex {
            None => return Err(MiniMaxTtsError::Decode(String::from_str("missing data.audio in response"))),
            Some(a) => trim_str(a.as_str()),
        };
        match hex_decode(audio.as_str()) {
            Ok(bytes) => {
                let samples = pcm16le_bytes_to_i16(bytes.as_slice());
                let rate = if self.sample_rate == 0 {
                    MINIMAX_OUTPUT_SAMPLE_RATE
                } else {
                    self.sample_rate
                };
                Ok((samples, rate))
            },
            Err(e) => {
                let mut m = String::from_str("hex decode: ");
                m.append(e.as_str());
                Err(MiniMaxTtsError::Decode(m))
            },
        }
    }
}

/// The decimal text of a signed number.
pub open spec fn signed_decimal(n: i64) -> Seq<char> {
    if n < 0 {
        seq!['-'] + decimal((-(n as int)) as nat)
    } else {
        decimal(n as nat)
    }
}

/// The service error text "code: message".
pub open spec fn minimax_status_text(code: i64, msg: Option<String>) -> Seq<char> {
    signed_decimal(code) + ": "@ + match msg {
        Some(m) => m@,
        None => "unknown error"@,
    }
}

fn status_text(code: i64, msg: &Option<String>) -> (r: String)
    ensures
        r@ == minimax_status_text(code, *msg),
{
    let mut s = String::new();
    if code < 0 {
        s.append("-");
        let magnitude: u64 = if code == i64::MIN {
            9_223_372_036_854_775_808u64
        } else {
            (-code) as u64
        };
        push_u64(&mut s, magnitude);
        proof {
            reveal_strlit("-");
        }
    } else {
        push_u64(&mut s, code as u64);
    }
    s.append(": ");
    match msg {
        Some(m) => s.append(m.as_str()),
        None => s.append("unknown error"),
    }
    s
}

// ------------------------------------------------------------------ Sidecar

/// The sidecar server used when none is configured.
pub const SIDECAR_DEFAULT_ENDPOINT: &'static str = "http://127.0.0.1:50001";

/// The timeout of one sidecar request, in seconds.
pub const SIDECAR_TIMEOUT_SECS: u64 = 60;

/// The sample rate assumed when the sidecar names none.
pub const SIDECAR_DEFAULT_SAMPLE_RATE: u32 = 24_000;

/// The most reply bytes read from the sidecar (10 MiB).
pub const SIDECAR_MAX_REPLY_BYTES: u64 = 10_485_760;

/// A failure of the synthesis sidecar.
#[derive(Clone, Debug)]
pub enum SidecarError {
    Config(String),
    Network(String),
    Api { status: u16, body: String },
    Decode(String),
}

/// The text of a [`SidecarError`], as the host displays it.
pub open spec fn sidecar_error_text(e: SidecarError) -> Seq<char> {
    match e {
        SidecarError::Config(m) => "config error: "@ + m@,
        SidecarError::Network(m) => "network error: "@ + m@,
        SidecarError::Api { status, body } => "api error: HTTP "@ + decimal(status as nat) + ": "@
            + body@,
        SidecarError::Decode(m) => "decode error: "@ + m@,
    }
}

impl SidecarError {
    /// The text of the error, as the host displays it.
    pub fn display_text(&self) -> (r: String)
        ensures
            r@ == sidecar_error_text(*self),
    {
        match self {
            SidecarError::Config(m) => {
                let mut s = String::from_str("config error: ");
                s.append(m.as_str());
                s
            },
            SidecarError::Network(m) => {
                let mut s = String::from_str("network error: ");
                s.append(m.as_str());
                s
            },
            SidecarError::Api { status, body } => {
                let mut s = String::from_str("api error: HTTP ");
                push_u64(&mut s, *status as u64);
                s.append(": ");
                s.append(body.as_str());
                s
            },
            SidecarError::Decode(m) => {
                let mut s = String::from_str("decode error: ");
                s.append(m.as_str());
                s
            },
        }
    }
}

/// A synthesis request to the sidecar.
#[derive(Clone, Debug)]
pub struct SynthesizeRequest {
    pub engine: String,
    pub text: String,
    pub language: String,
    pub voice_name: Option<String>,
    pub ref_audio: Option<String>,
    pub ref_text: Option<String>,
    pub seed: Option<i64>,
    pub instruct: Option<String>,
    pub model_size: Option<String>,
}

/// A model the sidecar offers.
#[derive(Clone, Debug)]
pub struct ModelInfo {
    pub model_name: String,
    pub display_name: String,
    pub engine: String,
    pub model_size: String,
    pub size_mb: u64,
    pub languages: Vec<String>,
    pub needs_trim: bool,
    pub supports_instruct: bool,
}

/// Where the sidecar runs and how it speaks.
#[derive(Clone, Debug)]
pub struct SidecarConfig {
    pub endpoint: String,
    /// Engine to use: "kokoro", "qwen_tts", "chatterbox", "chatterbox_turbo",
    /// "hume", "luxtts", "qwen_tts_mlx", "qwen_custom_voice"
    pub engine: String,
    /// Preset voice id (e.g. "af_heart" for Kokoro)
    pub voice_name: Option<String>,
    /// Path to a reference WAV for zero-shot voice cloning
    pub ref_audio: Option<String>,
    /// Transcript of the reference audio
    pub ref_text: Option<String>,
    /// Language code ("en", "ja", "zh", etc.)
    pub language: String,
    /// Model size variant ("0.6B", "1.7B" for Qwen, "default" otherwise)
    pub model_size: Option<String>,
}

impl Default for SidecarConfig {
    fn default() -> (r: Self)
        ensures
            r.endpoint@ == SIDECAR_DEFAULT_ENDPOINT@,
            r.engine@ == "kokoro"@,
            r.voice_name.is_none(),
            r.ref_audio.is_none(),
            r.ref_text.is_none(),
            r.language@ == "en"@,
            r.model_size.is_none(),
    {
        SidecarConfig {
            endpoint: String::from_str(SIDECAR_DEFAULT_ENDPOINT),
            engine: String::from_str("kokoro"),
            voice_name: None,
            ref_audio: None,
            ref_text: None,
            language: String::from_str("en"),
            model_size: None,
        }
    }
}

fn copy_opt(o: &Option<String>) -> (r: Option<String>)
    ensures
        match o {
            Some(s) => r matches Some(t) && t@ == s@,
            None => r is None,
        },
{
    match o {
        Some(s) => Some(String::from_str(s.as_str())),
        None => None,
    }
}

/// The views of an optional text.
pub open spec fn opt_view(o: Option<String>) -> Option<Seq<char>> {
    match o {
        Some(s) => Some(s@),
        None => None,
    }
}

/// A sidecar client whose settings passed validation.
#[derive(Clone, Debug)]
pub struct SidecarClient {
    config: SidecarConfig,
}

impl SidecarClient {
    /// The settings of the client.
    pub closed spec fn spec_config(&self) -> SidecarConfig {
        self.config
    }

    /// Accepts settings with a non-blank endpoint.
    pub fn new(config: SidecarConfig) -> (r: Result<Self, SidecarError>)
        ensures
            trim(config.endpoint@).len() == 0 ==> (r matches Err(SidecarError::Config(m)) && m@
                == "endpoint is empty"@),
            trim(config.endpoint@).len() != 0 ==> (r matches Ok(c) && c.spec_config() == config),
    {
        if is_blank(config.endpoint.as_str()) {
            return Err(SidecarError::Config(String::from_str("endpoint is empty")));
        }
        Ok(SidecarClient { config })
    }

    /// The URL of `path` on the sidecar.
    fn url(&self, path: &str) -> (r: String)
        ensures
            r@ == self.spec_config().endpoint@ + path@,
    {
        let mut url = String::from_str(self.config.endpoint.as_str());
        url.append(path);
        url
    }

    /// The URL synthesis requests are posted to.
    pub fn synthesize_url(&self) -> (r: String)
        ensures
            r@ == self.spec_config().endpoint@ + "/synthesize"@,
    {
        self.url("/synthesize")
    }

    /// The URL listing the sidecar's models.
    pub fn models_url(&self) -> (r: String)
        ensures
            r@ == self.spec_config().endpoint@ + "/models"@,
    {
        self.url("/models")
    }

    /// The URL of the health check.
    pub fn health_url(&self) -> (r: String)
        ensures
            r@ == self.spec_config().endpoint@ + "/health"@,
    {
        self.url("/health")
    }

    /// The URL that loads `engine`'s model.
    pub fn load_model_url(&self, engine: &str) -> (r: String)
        ensures
            r@ == self.spec_config().endpoint@ + "/models/"@ + engine@ + "/load"@,
    {
        let mut url = self.url("/models/");
        url.append(engine);
        url.append("/load");
        url
    }

    /// The request for `text` (already trimmed and non-blank): the configured
    /// engine, language, voice, reference audio and model size, no seed and no
    /// instruction.
    pub fn synthesize_request(&self, text: &str) -> (r: SynthesizeRequest)
        ensures
            r.engine@ == self.spec_config().engine@,
            r.text@ == text@,
            r.language@ == self.spec_config().language@,
            opt_view(r.voice_name) == opt_view(self.spec_config().voice_name),
            opt_view(r.ref_audio) == opt_view(self.spec_config().ref_audio),
            opt_view(r.ref_text) == opt_view(self.spec_config().ref_text),
            r.seed.is_none(),
            r.instruct.is_none(),
            opt_view(r.model_size) == opt_view(self.spec_config().model_size),
    {
        SynthesizeRequest {
            engine: String::from_str(self.config.engine.as_str()),
            text: String::from_str(text),
            language: String::from_str(self.config.language.as_str()),
            voice_name: copy_opt(&self.config.voice_name),
            ref_audio: copy_opt(&self.config.ref_audio),
            ref_text: copy_opt(&self.config.ref_text),
            seed: None,
            instruct: None,
            model_size: copy_opt(&self.config.model_size),
        }
    }
}

/// The sample rate of a sidecar reply: its `X-Sample-Rate` header when that
/// is a decimal `u32`, else 24 000 Hz.
pub fn reply_sample_rate(header: Option<&str>) -> (r: u32)
    ensures
        r == match header {
            Some(h) => match parse_unsigned(h@, u32::MAX as int) {
                Some(v) => v as u32,
                None => SIDECAR_DEFAULT_SAMPLE_RATE,
            },
            None => SIDECAR_DEFAULT_SAMPLE_RATE,
        },
{
    match header {
        Some(h) => {
            let cs = chars_of(h);
            match parse_unsigned_exec(cs.as_slice(), u32::MAX as u64) {
                Some(v) => v as u32,
                None => SIDECAR_DEFAULT_SAMPLE_RATE,
            }
        },
        None => SIDECAR_DEFAULT_SAMPLE_RATE,
    }
}

} // verus!
