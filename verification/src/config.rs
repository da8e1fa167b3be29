//! Engine configuration: operating modes, translation providers, and the
//! lenient readers that build each configuration block from the host's JSON
//! (or TOML) text. Settings held as floating point (gains, VAD threshold,
//! speech rate, volume) are read by the host around these readers.

use vstd::prelude::*;
use crate::scan::{
    extract_bool_value, extract_i32_value, extract_string_value, extract_u32_value,
    extract_u64_value, spec_extract_bool, spec_extract_i32, spec_extract_string,
    spec_extract_u32, spec_extract_u64,
};
use crate::text::{chars_of, contains, push_char, str_contains, str_eq, string_of};

verus! {

/// How the engine routes captured audio.
#[derive(Clone, Copy, Debug, PartialEq, Eq, Structural)]
pub enum EngineMode {
    Bypass,
    Translate,
    CaptionOnly,
    MuteOnFailure,
    FallbackToBypass,
}

/// The numeric code of each mode.
pub open spec fn mode_code(m: EngineMode) -> i32 {
    match m {
        EngineMode::Bypass => 0,
        EngineMode::Translate => 1,
        EngineMode::CaptionOnly => 2,
        EngineMode::MuteOnFailure => 3,
        EngineMode::FallbackToBypass => 4,
    }
}

impl EngineMode {
    /// The mode with numeric code `value`, if any.
    pub fn from_i32(value: i32) -> (r: Option<EngineMode>)
        ensures
            match r {
                Some(m) => mode_code(m) == value,
                None => !(0 <= value <= 4),
            },
    {
        match value {
            0 => Some(EngineMode::Bypass),
            1 => Some(EngineMode::Translate),
            2 => Some(EngineMode::CaptionOnly),
            3 => Some(EngineMode::MuteOnFailure),
            4 => Some(EngineMode::FallbackToBypass),
            _ => None,
        }
    }

    /// The numeric code of this mode.
    pub fn as_i32(&self) -> (r: i32)
        ensures
            r == mode_code(*self),
    {
        match self {
            EngineMode::Bypass => 0,
            EngineMode::Translate => 1,
            EngineMode::CaptionOnly => 2,
            EngineMode::MuteOnFailure => 3,
            EngineMode::FallbackToBypass => 4,
        }
    }
}

/// Decoding the code of a mode gives the mode back, and a code that decodes
/// encodes to itself.
pub proof fn lemma_mode_code_round_trip(m: EngineMode, value: i32)
    ensures
        0 <= mode_code(m) <= 4,
        forall|n: EngineMode| mode_code(n) == mode_code(m) ==> n == m,
        0 <= value <= 4 ==> exists|n: EngineMode| mode_code(n) == value,
{
    if 0 <= value <= 4 {
        if value == 0 {
            assert(mode_code(EngineMode::Bypass) == value);
        } else if value == 1 {
            assert(mode_code(EngineMode::Translate) == value);
        } else if value == 2 {
            assert(mode_code(EngineMode::CaptionOnly) == value);
        } else if value == 3 {
            assert(mode_code(EngineMode::MuteOnFailure) == value);
        } else {
            assert(mode_code(EngineMode::FallbackToBypass) == value);
        }
    }
}

/// The cloud service that performs speech-to-speech translation.
#[derive(Clone, Copy, Debug, PartialEq, Eq, Structural)]
pub enum TranslationProvider {
    /// No cloud translation.
    NoProvider,
    AzureVoiceLive,
    OpenAIRealtime,
    ElevenLabs,
}

/// `s` when present, `d` otherwise.
pub open spec fn or_default(s: Option<Seq<char>>, d: Seq<char>) -> Seq<char> {
    match s {
        Some(v) => v,
        None => d,
    }
}

/// The string value of `key`, or a copy of `default` when it is absent.
pub fn string_or(raw: &str, key: &str, default: &str) -> (r: String)
    ensures
        r@ == or_default(spec_extract_string(raw@, key@), default@),
{
    match extract_string_value(raw, key) {
        Some(v) => v,
        None => String::from_str(default),
    }
}

/// A copy of `s`.
pub fn copy_string(s: &String) -> (r: String)
    ensures
        r@ == s@,
{
    s.clone()
}

// ---------------------------------------------------------------------------
// Paths
// ---------------------------------------------------------------------------

/// `base` joined with `rest` the way `Path::join` does on Unix: an absolute
/// `rest` replaces `base`; otherwise a `/` separates them unless `base` is
/// empty or already ends with one.
pub open spec fn path_join(base: Seq<char>, rest: Seq<char>) -> Seq<char> {
    if rest.len() > 0 && rest[0] == '/' {
        rest
    } else if base.len() == 0 {
        rest
    } else if base.last() == '/' {
        base + rest
    } else {
        base + seq!['/'] + rest
    }
}

/// Appends every character of `v` to `s`.
pub fn push_all(s: &mut String, v: &[char])
    ensures
        final(s)@ == old(s)@ + v@,
{
    let ghost s0 = s@;
    let mut i: usize = 0;
    while i < v.len()
        invariant
            i <= v.len(),
            s@ == s0 + v@.take(i as int),
        decreases v.len() - i,
    {
        push_char(s, v[i]);
        assert(s0 + v@.take(i + 1) =~= (s0 + v@.take(i as int)).push(v@[i as int]));
        i += 1;
    }
    assert(v@.take(v.len() as int) =~= v@);
}

/// Joins two path texts as `Path::join` does on Unix.
pub fn join_path(base: &str, rest: &str) -> (r: String)
    ensures
        r@ == path_join(base@, rest@),
{
    let b = chars_of(base);
    let t = chars_of(rest);
    if t.len() > 0 && t[0] == '/' {
        return string_of(t.as_slice());
    }
    if b.len() == 0 {
        return string_of(t.as_slice());
    }
    let mut r = string_of(b.as_slice());
    if b[b.len() - 1] != '/' {
        push_char(&mut r, '/');
    }
    push_all(&mut r, t.as_slice());
    r
}

/// `path` with a leading `~/` replaced by the home directory when one is known.
pub open spec fn spec_expand_tilde(path: Seq<char>, home: Option<Seq<char>>) -> Seq<char> {
    if path.len() >= 2 && path[0] == '~' && path[1] == '/' && home is Some {
        path_join(home->0, path.skip(2))
    } else {
        path
    }
}

/// Replaces a leading `~/` of `path` by the home directory `home`, when known.
pub fn expand_tilde(path: &str, home: Option<&str>) -> (r: String)
    ensures
        r@ == spec_expand_tilde(path@, match home {
            Some(h) => Some(h@),
            None => None,
        }),
{
    let p = chars_of(path);
    if p.len() >= 2 && p[0] == '~' && p[1] == '/' {
        if let Some(h) = home {
            let mut rest: Vec<char> = Vec::new();
            let mut i: usize = 2;
            while i < p.len()
                invariant
                    2 <= i <= p.len(),
                    rest@ == p@.subrange(2, i as int),
                decreases p.len() - i,
            {
                rest.push(p[i]);
                assert(p@.subrange(2, i as int).push(p@[i as int]) =~= p@.subrange(2, i + 1));
                i += 1;
            }
            assert(rest@ =~= p@.skip(2));
            let rest_s = string_of(rest.as_slice());
            return join_path(h, rest_s.as_str());
        }
    }
    string_of(p.as_slice())
}

// ---------------------------------------------------------------------------
// Locales
// ---------------------------------------------------------------------------

/// The locale that stands for a language code.
pub open spec fn spec_language_to_locale(language: Seq<char>) -> Seq<char> {
    if language == "zh"@ {
        "zh-CN"@
    } else if language == "ja"@ {
        "ja-JP"@
    } else if language == "en"@ {
        "en-US"@
    } else if language == "auto"@ {
        "auto"@
    } else {
        "en-US"@
    }
}

/// The locale that stands for a language code (`en-US` when unknown).
pub fn language_to_locale(language: &str) -> (r: &'static str)
    ensures
        r@ == spec_language_to_locale(language@),
{
    if str_eq(language, "zh") {
        "zh-CN"
    } else if str_eq(language, "ja") {
        "ja-JP"
    } else if str_eq(language, "en") {
        "en-US"
    } else if str_eq(language, "auto") {
        "auto"
    } else {
        "en-US"
    }
}

/// The default synthesis voice of a locale.
pub open spec fn spec_locale_default_voice(locale: Seq<char>) -> Seq<char> {
    if locale == "zh-CN"@ {
        "zh-CN-XiaoxiaoNeural"@
    } else if locale == "ja-JP"@ {
        "ja-JP-NanamiNeural"@
    } else {
        "en-US-Ava:DragonHDLatestNeural"@
    }
}

/// The default synthesis voice of a locale.
pub fn locale_default_voice(locale: &str) -> (r: &'static str)
    ensures
        r@ == spec_locale_default_voice(locale@),
{
    if str_eq(locale, "zh-CN") {
        "zh-CN-XiaoxiaoNeural"
    } else if str_eq(locale, "ja-JP") {
        "ja-JP-NanamiNeural"
    } else {
        "en-US-Ava:DragonHDLatestNeural"
    }
}

/// A supported language code gets its own locale: the locale of `zh`, `ja`
/// or `en` is that code, a hyphen and its region (`zh-CN`, `ja-JP`,
/// `en-US`), and that locale's default voice is one of its own voices (its
/// name starts with the locale); any other code falls back to `en-US`, and
/// `auto` stays `auto`.
pub proof fn lemma_locale_of_language(language: Seq<char>)
    ensures
        (language == "zh"@ || language == "ja"@ || language == "en"@) ==> ({
            let locale = spec_language_to_locale(language);
            &&& locale.len() == 5
            &&& locale.subrange(0, 2) == language
            &&& locale[2] == '-'
            &&& spec_locale_default_voice(locale).len() > 5
            &&& spec_locale_default_voice(locale).subrange(0, 5) == locale
        }),
        language == "zh"@ ==> spec_language_to_locale(language) == "zh-CN"@,
        language == "ja"@ ==> spec_language_to_locale(language) == "ja-JP"@,
        language == "en"@ ==> spec_language_to_locale(language) == "en-US"@,
        language == "auto"@ ==> spec_language_to_locale(language) == "auto"@,
        !(language == "zh"@ || language == "ja"@ || language == "en"@ || language == "auto"@)
            ==> spec_language_to_locale(language) == "en-US"@,
{
    reveal_strlit("zh");
    reveal_strlit("ja");
    reveal_strlit("en");
    reveal_strlit("auto");
    reveal_strlit("zh-CN");
    reveal_strlit("ja-JP");
    reveal_strlit("en-US");
    reveal_strlit("zh-CN-XiaoxiaoNeural");
    reveal_strlit("ja-JP-NanamiNeural");
    reveal_strlit("en-US-Ava:DragonHDLatestNeural");
    let locale = spec_language_to_locale(language);
    if language == "zh"@ {
        assert(locale.subrange(0, 2) =~= language);
        assert(spec_locale_default_voice(locale).subrange(0, 5) =~= locale);
    } else if language == "ja"@ {
        assert("ja"@[0] != "zh"@[0]);
        assert(locale.subrange(0, 2) =~= language);
        assert("ja-JP"@[0] != "zh-CN"@[0]);
        assert(spec_locale_default_voice(locale).subrange(0, 5) =~= locale);
    } else if language == "en"@ {
        assert("en"@[0] != "zh"@[0] && "en"@[0] != "ja"@[0]);
        assert(locale.subrange(0, 2) =~= language);
        assert("en-US"@[0] != "zh-CN"@[0] && "en-US"@[0] != "ja-JP"@[0]);
        assert(spec_locale_default_voice(locale).subrange(0, 5) =~= locale);
    } else if language == "auto"@ {
        assert("auto"@.len() == 4);
    }
}

/// The source locale: `source_locale` when given, else the locale of the
/// source language.
pub open spec fn spec_source_locale(raw: Seq<char>, source_language: Seq<char>) -> Seq<char> {
    or_default(spec_extract_string(raw, "source_locale"@), spec_language_to_locale(source_language))
}

/// The target locale: `target_locale` when given, else the locale of the
/// target language.
pub open spec fn spec_target_locale(raw: Seq<char>, target_language: Seq<char>) -> Seq<char> {
    or_default(spec_extract_string(raw, "target_locale"@), spec_language_to_locale(target_language))
}

/// The Azure source locale: `azure_voice_live_source_locale` when given, else
/// the general source locale.
pub open spec fn spec_azure_source_locale(raw: Seq<char>, source_language: Seq<char>) -> Seq<char> {
    or_default(
        spec_extract_string(raw, "azure_voice_live_source_locale"@),
        spec_source_locale(raw, source_language),
    )
}

/// The Azure target locale: `azure_voice_live_target_locale` when given, else
/// the general target locale.
pub open spec fn spec_azure_target_locale(raw: Seq<char>, target_language: Seq<char>) -> Seq<char> {
    or_default(
        spec_extract_string(raw, "azure_voice_live_target_locale"@),
        spec_target_locale(raw, target_language),
    )
}

fn source_locale_from_config(raw: &str, source_language: &str) -> (r: String)
    ensures
        r@ == spec_source_locale(raw@, source_language@),
{
    match extract_string_value(raw, "source_locale") {
        Some(v) => v,
        None => String::from_str(language_to_locale(source_language)),
    }
}

fn target_locale_from_config(raw: &str, target_language: &str) -> (r: String)
    ensures
        r@ == spec_target_locale(raw@, target_language@),
{
    match extract_string_value(raw, "target_locale") {
        Some(v) => v,
        None => String::from_str(language_to_locale(target_language)),
    }
}

fn azure_source_locale_from_config(raw: &str, source_language: &str) -> (r: String)
    ensures
        r@ == spec_azure_source_locale(raw@, source_language@),
{
    match extract_string_value(raw, "azure_voice_live_source_locale") {
        Some(v) => v,
        None => source_locale_from_config(raw, source_language),
    }
}

fn azure_target_locale_from_config(raw: &str, target_language: &str) -> (r: String)
    ensures
        r@ == spec_azure_target_locale(raw@, target_language@),
{
    match extract_string_value(raw, "azure_voice_live_target_locale") {
        Some(v) => v,
        None => target_locale_from_config(raw, target_language),
    }
}


// ---------------------------------------------------------------------------
// Configuration blocks
// ---------------------------------------------------------------------------

/// The view of an optional value.
pub open spec fn view_opt<T: View>(o: Option<T>) -> Option<T::V> {
    match o {
        Some(v) => Some(v@),
        None => None,
    }
}

/// The view of an optional text.
pub open spec fn str_opt(o: Option<&str>) -> Option<Seq<char>> {
    match o {
        Some(v) => Some(v@),
        None => None,
    }
}

/// `b` when present, `d` otherwise.
pub open spec fn bool_or(b: Option<bool>, d: bool) -> bool {
    match b {
        Some(v) => v,
        None => d,
    }
}

/// `v` when present, `d` otherwise.
pub open spec fn int_or(v: Option<int>, d: int) -> int {
    match v {
        Some(x) => x,
        None => d,
    }
}

/// The string value of `key`, or the empty string.
pub fn string_or_empty(raw: &str, key: &str) -> (r: String)
    ensures
        r@ == or_default(spec_extract_string(raw@, key@), Seq::empty()),
{
    match extract_string_value(raw, key) {
        Some(v) => v,
        None => String::new(),
    }
}

/// The path value of `key` with `~/` expanded, or the empty path.
pub open spec fn spec_path_value(raw: Seq<char>, key: Seq<char>, home: Option<Seq<char>>) -> Seq<
    char,
> {
    match spec_extract_string(raw, key) {
        Some(p) => spec_expand_tilde(p, home),
        None => Seq::empty(),
    }
}

fn path_value(raw: &str, key: &str, home: Option<&str>) -> (r: String)
    ensures
        r@ == spec_path_value(raw@, key@, str_opt(home)),
{
    match extract_string_value(raw, key) {
        Some(p) => expand_tilde(p.as_str(), home),
        None => String::new(),
    }
}

/// Azure Voice Live connection settings.
#[derive(Clone, Debug)]
pub struct AzureVoiceLiveConfig {
    pub endpoint: String,
    pub api_version: String,
    pub model: String,
    pub api_key: String,
    pub api_key_env: String,
    pub voice_name: String,
    pub voice_type: String,
    pub source_locale: String,
    pub target_locale: String,
    pub enable_server_vad: bool,
}

/// The contents of an [`AzureVoiceLiveConfig`].
pub struct AzureVoiceLiveSettings {
    pub endpoint: Seq<char>,
    pub api_version: Seq<char>,
    pub model: Seq<char>,
    pub api_key: Seq<char>,
    pub api_key_env: Seq<char>,
    pub voice_name: Seq<char>,
    pub voice_type: Seq<char>,
    pub source_locale: Seq<char>,
    pub target_locale: Seq<char>,
    pub enable_server_vad: bool,
}

impl View for AzureVoiceLiveConfig {
    type V = AzureVoiceLiveSettings;

    open spec fn view(&self) -> AzureVoiceLiveSettings {
        AzureVoiceLiveSettings {
            endpoint: self.endpoint@,
            api_version: self.api_version@,
            model: self.model@,
            api_key: self.api_key@,
            api_key_env: self.api_key_env@,
            voice_name: self.voice_name@,
            voice_type: self.voice_type@,
            source_locale: self.source_locale@,
            target_locale: self.target_locale@,
            enable_server_vad: self.enable_server_vad,
        }
    }
}

/// The Azure Voice Live block read from `raw`: present exactly when
/// `azure_voice_live_endpoint` is given.
pub open spec fn spec_azure_voice_live_config(
    raw: Seq<char>,
    source_language: Seq<char>,
    target_language: Seq<char>,
) -> Option<AzureVoiceLiveSettings> {
    match spec_extract_string(raw, "azure_voice_live_endpoint"@) {
        None => None,
        Some(endpoint) => Some(
            AzureVoiceLiveSettings {
                endpoint,
                api_version: or_default(
                    spec_extract_string(raw, "azure_voice_live_api_version"@),
                    "2025-10-01"@,
                ),
                model: or_default(spec_extract_string(raw, "azure_voice_live_model"@), "gpt-realtime"@),
                api_key: or_default(spec_extract_string(raw, "azure_voice_live_api_key"@), Seq::empty()),
                api_key_env: or_default(
                    spec_extract_string(raw, "azure_voice_live_api_key_env"@),
                    or_default(spec_extract_string(raw, "api_key_env"@), "AZURE_VOICELIVE_API_KEY"@),
                ),
                voice_name: or_default(
                    spec_extract_string(raw, "azure_voice_live_voice_name"@),
                    spec_locale_default_voice(spec_azure_target_locale(raw, target_language)),
                ),
                voice_type: or_default(
                    spec_extract_string(raw, "azure_voice_live_voice_type"@),
                    "azure-standard"@,
                ),
                source_locale: or_default(
                    spec_extract_string(raw, "azure_voice_live_source_locale"@),
                    spec_azure_source_locale(raw, source_language),
                ),
                target_locale: spec_azure_target_locale(raw, target_language),
                enable_server_vad: bool_or(
                    spec_extract_bool(raw, "azure_voice_live_enable_server_vad"@),
                    true,
                ),
            },
        ),
    }
}

impl AzureVoiceLiveConfig {
    /// Reads the Azure Voice Live block; `None` unless an endpoint is given.
    pub fn from_json_lossy(raw: &str, engine_config: &EngineConfig) -> (r: Option<Self>)
        ensures
            view_opt(r) == spec_azure_voice_live_config(
                raw@,
                engine_config.source_language@,
                engine_config.target_language@,
            ),
    {
        let endpoint = match extract_string_value(raw, "azure_voice_live_endpoint") {
            Some(e) => e,
            None => return None,
        };
        let api_version = string_or(raw, "azure_voice_live_api_version", "2025-10-01");
        let model = string_or(raw, "azure_voice_live_model", "gpt-realtime");
        let api_key = string_or_empty(raw, "azure_voice_live_api_key");
        let api_key_env = match extract_string_value(raw, "azure_voice_live_api_key_env") {
            Some(v) => v,
            None => string_or(raw, "api_key_env", "AZURE_VOICELIVE_API_KEY"),
        };
        let voice_name = match extract_string_value(raw, "azure_voice_live_voice_name") {
            Some(v) => v,
            None => {
                let target = azure_target_locale_from_config(
                    raw,
                    engine_config.target_language.as_str(),
                );
                String::from_str(locale_default_voice(target.as_str()))
            },
        };
        let voice_type = string_or(raw, "azure_voice_live_voice_type", "azure-standard");
        let source_locale = match extract_string_value(raw, "azure_voice_live_source_locale") {
            Some(v) => v,
            None => azure_source_locale_from_config(raw, engine_config.source_language.as_str()),
        };
        let target_locale = azure_target_locale_from_config(
            raw,
            engine_config.target_language.as_str(),
        );
        let enable_server_vad = match extract_bool_value(raw, "azure_voice_live_enable_server_vad") {
            Some(b) => b,
            None => true,
        };
        Some(
            AzureVoiceLiveConfig {
                endpoint,
                api_version,
                model,
                api_key,
                api_key_env,
                voice_name,
                voice_type,
                source_locale,
                target_locale,
                enable_server_vad,
            },
        )
    }
}

/// OpenAI Realtime connection settings.
#[derive(Clone, Debug)]
pub struct OpenAIRealtimeConfig {
    pub endpoint: String,
    pub model: String,
    pub api_key: String,
    pub api_key_env: String,
    pub voice_name: String,
    pub source_locale: String,
    pub target_locale: String,
    pub enable_server_vad: bool,
}

/// The contents of an [`OpenAIRealtimeConfig`].
pub struct OpenAIRealtimeSettings {
    pub endpoint: Seq<char>,
    pub model: Seq<char>,
    pub api_key: Seq<char>,
    pub api_key_env: Seq<char>,
    pub voice_name: Seq<char>,
    pub source_locale: Seq<char>,
    pub target_locale: Seq<char>,
    pub enable_server_vad: bool,
}

impl View for OpenAIRealtimeConfig {
    type V = OpenAIRealtimeSettings;

    open spec fn view(&self) -> OpenAIRealtimeSettings {
        OpenAIRealtimeSettings {
            endpoint: self.endpoint@,
            model: self.model@,
            api_key: self.api_key@,
            api_key_env: self.api_key_env@,
            voice_name: self.voice_name@,
            source_locale: self.source_locale@,
            target_locale: self.target_locale@,
            enable_server_vad: self.enable_server_vad,
        }
    }
}

/// The OpenAI Realtime block read from `raw`: present when the provider is
/// OpenAI Realtime or some `openai_realtime_` setting is mentioned.
pub open spec fn spec_openai_realtime_config(
    raw: Seq<char>,
    provider: TranslationProvider,
    source_language: Seq<char>,
    target_language: Seq<char>,
) -> Option<OpenAIRealtimeSettings> {
    let mentioned = contains(raw, "\"openai_realtime_"@) || contains(raw, "openai_realtime_"@);
    if provider != TranslationProvider::OpenAIRealtime && !mentioned {
        None
    } else {
        Some(
            OpenAIRealtimeSettings {
                endpoint: or_default(
                    spec_extract_string(raw, "openai_realtime_endpoint"@),
                    "wss://api.openai.com/v1/realtime"@,
                ),
                model: or_default(spec_extract_string(raw, "openai_realtime_model"@), "gpt-realtime"@),
                api_key: or_default(spec_extract_string(raw, "openai_realtime_api_key"@), Seq::empty()),
                api_key_env: or_default(
                    spec_extract_string(raw, "openai_realtime_api_key_env"@),
                    or_default(spec_extract_string(raw, "api_key_env"@), "OPENAI_API_KEY"@),
                ),
                voice_name: or_default(
                    spec_extract_string(raw, "openai_realtime_voice_name"@),
                    "marin"@,
                ),
                source_locale: or_default(
                    spec_extract_string(raw, "openai_realtime_source_locale"@),
                    spec_source_locale(raw, source_language),
                ),
                target_locale: or_default(
                    spec_extract_string(raw, "openai_realtime_target_locale"@),
                    spec_target_locale(raw, target_language),
                ),
                enable_server_vad: bool_or(
                    spec_extract_bool(raw, "openai_realtime_enable_server_vad"@),
                    true,
                ),
            },
        )
    }
}

impl OpenAIRealtimeConfig {
    /// Reads the OpenAI Realtime block.
    pub fn from_json_lossy(raw: &str, engine_config: &EngineConfig) -> (r: Option<Self>)
        ensures
            view_opt(r) == spec_openai_realtime_config(
                raw@,
                engine_config.translation_provider,
                engine_config.source_language@,
                engine_config.target_language@,
            ),
    {
        let mentioned = str_contains(raw, "\"openai_realtime_") || str_contains(raw, "openai_realtime_");
        if engine_config.translation_provider != TranslationProvider::OpenAIRealtime && !mentioned {
            return None;
        }
        let endpoint = string_or(raw, "openai_realtime_endpoint", "wss://api.openai.com/v1/realtime");
        let model = string_or(raw, "openai_realtime_model", "gpt-realtime");
        let api_key = string_or_empty(raw, "openai_realtime_api_key");
        let api_key_env = match extract_string_value(raw, "openai_realtime_api_key_env") {
            Some(v) => v,
            None => string_or(raw, "api_key_env", "OPENAI_API_KEY"),
        };
        let voice_name = string_or(raw, "openai_realtime_voice_name", "marin");
        let source_locale = match extract_string_value(raw, "openai_realtime_source_locale") {
            Some(v) => v,
            None => source_locale_from_config(raw, engine_config.source_language.as_str()),
        };
        let target_locale = match extract_string_value(raw, "openai_realtime_target_locale") {
            Some(v) => v,
            None => target_locale_from_config(raw, engine_config.target_language.as_str()),
        };
        let enable_server_vad = match extract_bool_value(raw, "openai_realtime_enable_server_vad") {
            Some(b) => b,
            None => true,
        };
        Some(
            OpenAIRealtimeConfig {
                endpoint,
                model,
                api_key,
                api_key_env,
                voice_name,
                source_locale,
                target_locale,
                enable_server_vad,
            },
        )
    }
}

/// Local speech recognition settings (the VAD threshold and partial window,
/// held as floating point, are read by the host).
#[derive(Clone, Debug)]
pub struct LocalSttConfig {
    pub enabled: bool,
    pub model_id: String,
    pub model_dir: String,
    pub vad_model_path: String,
    pub language: String,
    pub partial_interval_ms: u64,
    pub overlap_tail_ms: u64,
    pub skip_partial_if_busy: bool,
}

/// The contents of a [`LocalSttConfig`].
pub struct LocalSttSettings {
    pub enabled: bool,
    pub model_id: Seq<char>,
    pub model_dir: Seq<char>,
    pub vad_model_path: Seq<char>,
    pub language: Seq<char>,
    pub partial_interval_ms: int,
    pub overlap_tail_ms: int,
    pub skip_partial_if_busy: bool,
}

impl View for LocalSttConfig {
    type V = LocalSttSettings;

    open spec fn view(&self) -> LocalSttSettings {
        LocalSttSettings {
            enabled: self.enabled,
            model_id: self.model_id@,
            model_dir: self.model_dir@,
            vad_model_path: self.vad_model_path@,
            language: self.language@,
            partial_interval_ms: self.partial_interval_ms as int,
            overlap_tail_ms: self.overlap_tail_ms as int,
            skip_partial_if_busy: self.skip_partial_if_busy,
        }
    }
}

/// The local speech recognition block read from `raw`: present when enabled
/// or when some `local_stt_` setting is mentioned.
pub open spec fn spec_local_stt_config(
    raw: Seq<char>,
    source_language: Seq<char>,
    home: Option<Seq<char>>,
) -> Option<LocalSttSettings> {
    let enabled = bool_or(spec_extract_bool(raw, "local_stt_enabled"@), false);
    let mentioned = contains(raw, "local_stt_"@) || contains(raw, "\"local_stt_"@);
    if !enabled && !mentioned {
        None
    } else {
        Some(
            LocalSttSettings {
                enabled,
                model_id: or_default(spec_extract_string(raw, "local_stt_model_id"@), "paraformer-zh"@),
                model_dir: spec_path_value(raw, "local_stt_model_dir"@, home),
                vad_model_path: spec_path_value(raw, "local_stt_vad_model_path"@, home),
                language: or_default(spec_extract_string(raw, "local_stt_language"@), source_language),
                partial_interval_ms: int_or(spec_extract_u64(raw, "local_stt_partial_interval_ms"@), 500),
                overlap_tail_ms: int_or(spec_extract_u64(raw, "local_stt_overlap_tail_ms"@), 300),
                skip_partial_if_busy: bool_or(
                    spec_extract_bool(raw, "local_stt_skip_partial_if_busy"@),
                    true,
                ),
            },
        )
    }
}

impl LocalSttConfig {
    /// Reads the local speech recognition block; `home` expands `~/` paths.
    pub fn from_json_lossy(raw: &str, engine_config: &EngineConfig, home: Option<&str>) -> (r:
        Option<Self>)
        ensures
            view_opt(r) == spec_local_stt_config(raw@, engine_config.source_language@, str_opt(home)),
    {
        let enabled = match extract_bool_value(raw, "local_stt_enabled") {
            Some(b) => b,
            None => false,
        };
        let mentioned = str_contains(raw, "local_stt_") || str_contains(raw, "\"local_stt_");
        if !enabled && !mentioned {
            return None;
        }
        let model_id = string_or(raw, "local_stt_model_id", "paraformer-zh");
        let model_dir = path_value(raw, "local_stt_model_dir", home);
        let vad_model_path = path_value(raw, "local_stt_vad_model_path", home);
        let language = match extract_string_value(raw, "local_stt_language") {
            Some(v) => v,
            None => copy_string(&engine_config.source_language),
        };
        let partial_interval_ms = match extract_u64_value(raw, "local_stt_partial_interval_ms") {
            Some(v) => v,
            None => 500,
        };
        let overlap_tail_ms = match extract_u64_value(raw, "local_stt_overlap_tail_ms") {
            Some(v) => v,
            None => 300,
        };
        let skip_partial_if_busy = match extract_bool_value(raw, "local_stt_skip_partial_if_busy") {
            Some(b) => b,
            None => true,
        };
        Some(
            LocalSttConfig {
                enabled,
                model_id,
                model_dir,
                vad_model_path,
                language,
                partial_interval_ms,
                overlap_tail_ms,
                skip_partial_if_busy,
            },
        )
    }
}

/// Remote machine-translation settings.
#[derive(Clone, Debug)]
pub struct MtConfig {
    pub enabled: bool,
    pub endpoint: String,
    pub api_key: String,
    pub api_key_env: String,
    pub model: String,
    pub target_language: String,
}

/// The contents of an [`MtConfig`].
pub struct MtSettings {
    pub enabled: bool,
    pub endpoint: Seq<char>,
    pub api_key: Seq<char>,
    pub api_key_env: Seq<char>,
    pub model: Seq<char>,
    pub target_language: Seq<char>,
}

impl View for MtConfig {
    type V = MtSettings;

    open spec fn view(&self) -> MtSettings {
        MtSettings {
            enabled: self.enabled,
            endpoint: self.endpoint@,
            api_key: self.api_key@,
            api_key_env: self.api_key_env@,
            model: self.model@,
            target_language: self.target_language@,
        }
    }
}

/// The remote translation block read from `raw`.
pub open spec fn spec_mt_config(raw: Seq<char>, target_language: Seq<char>) -> Option<MtSettings> {
    let enabled = bool_or(spec_extract_bool(raw, "mt_enabled"@), false);
    let mentioned = contains(raw, "\"mt_"@) || contains(raw, "mt_endpoint"@) || contains(
        raw,
        "mt_model"@,
    ) || contains(raw, "mt_api_key"@);
    if !enabled && !mentioned {
        None
    } else {
        Some(
            MtSettings {
                enabled,
                endpoint: or_default(
                    spec_extract_string(raw, "mt_endpoint"@),
                    "https://api.openai.com/v1/chat/completions"@,
                ),
                api_key: or_default(spec_extract_string(raw, "mt_api_key"@), Seq::empty()),
                api_key_env: or_default(spec_extract_string(raw, "mt_api_key_env"@), "OPENAI_API_KEY"@),
                model: or_default(spec_extract_string(raw, "mt_model"@), "gpt-4o-mini"@),
                target_language: or_default(
                    spec_extract_string(raw, "mt_target_language"@),
                    target_language,
                ),
            },
        )
    }
}

impl MtConfig {
    /// Reads the remote translation block.
    pub fn from_json_lossy(raw: &str, engine_config: &EngineConfig) -> (r: Option<Self>)
        ensures
            view_opt(r) == spec_mt_config(raw@, engine_config.target_language@),
    {
        let enabled = match extract_bool_value(raw, "mt_enabled") {
            Some(b) => b,
            None => false,
        };
        let mentioned = str_contains(raw, "\"mt_") || str_contains(raw, "mt_endpoint")
            || str_contains(raw, "mt_model") || str_contains(raw, "mt_api_key");
        if !enabled && !mentioned {
            return None;
        }
        let endpoint = string_or(raw, "mt_endpoint", "https://api.openai.com/v1/chat/completions");
        let api_key = string_or_empty(raw, "mt_api_key");
        let api_key_env = string_or(raw, "mt_api_key_env", "OPENAI_API_KEY");
        let model = string_or(raw, "mt_model", "gpt-4o-mini");
        let target_language = match extract_string_value(raw, "mt_target_language") {
            Some(v) => v,
            None => copy_string(&engine_config.target_language),
        };
        Some(MtConfig { enabled, endpoint, api_key, api_key_env, model, target_language })
    }
}

/// Local speech synthesis settings (speaker id and speed are read by the host).
#[derive(Clone, Debug)]
pub struct TtsConfig {
    pub enabled: bool,
    pub model_id: String,
    pub model_dir: String,
}

/// The contents of a [`TtsConfig`].
pub struct TtsSettings {
    pub enabled: bool,
    pub model_id: Seq<char>,
    pub model_dir: Seq<char>,
}

impl View for TtsConfig {
    type V = TtsSettings;

    open spec fn view(&self) -> TtsSettings {
        TtsSettings { enabled: self.enabled, model_id: self.model_id@, model_dir: self.model_dir@ }
    }
}

/// The local synthesis block read from `raw`.
pub open spec fn spec_tts_config(raw: Seq<char>, home: Option<Seq<char>>) -> Option<TtsSettings> {
    let enabled = bool_or(spec_extract_bool(raw, "tts_enabled"@), false);
    let mentioned = contains(raw, "\"tts_"@) || contains(raw, "tts_model_id"@) || contains(
        raw,
        "tts_model_dir"@,
    );
    if !enabled && !mentioned {
        None
    } else {
        Some(
            TtsSettings {
                enabled,
                model_id: or_default(spec_extract_string(raw, "tts_model_id"@), "kokoro-en"@),
                model_dir: spec_path_value(raw, "tts_model_dir"@, home),
            },
        )
    }
}

impl TtsConfig {
    /// Reads the local synthesis block.
    pub fn from_json_lossy(raw: &str, home: Option<&str>) -> (r: Option<Self>)
        ensures
            view_opt(r) == spec_tts_config(raw@, str_opt(home)),
    {
        let enabled = match extract_bool_value(raw, "tts_enabled") {
            Some(b) => b,
            None => false,
        };
        let mentioned = str_contains(raw, "\"tts_") || str_contains(raw, "tts_model_id")
            || str_contains(raw, "tts_model_dir");
        if !enabled && !mentioned {
            return None;
        }
        let model_id = string_or(raw, "tts_model_id", "kokoro-en");
        let model_dir = path_value(raw, "tts_model_dir", home);
        Some(TtsConfig { enabled, model_id, model_dir })
    }
}

/// CosyVoice synthesis settings.
#[derive(Clone, Debug)]
pub struct CosyVoiceTtsConfig {
    pub enabled: bool,
    pub endpoint: String,
    pub prompt_wav_path: String,
    pub prompt_text: String,
}

/// The contents of a [`CosyVoiceTtsConfig`].
pub struct CosyVoiceTtsSettings {
    pub enabled: bool,
    pub endpoint: Seq<char>,
    pub prompt_wav_path: Seq<char>,
    pub prompt_text: Seq<char>,
}

impl View for CosyVoiceTtsConfig {
    type V = CosyVoiceTtsSettings;

    open spec fn view(&self) -> CosyVoiceTtsSettings {
        CosyVoiceTtsSettings {
            enabled: self.enabled,
            endpoint: self.endpoint@,
            prompt_wav_path: self.prompt_wav_path@,
            prompt_text: self.prompt_text@,
        }
    }
}

/// The default reference voice path under the home directory.
pub open spec fn spec_default_prompt_wav_path(home: Option<Seq<char>>) -> Seq<char> {
    path_join(path_join(or_default(home, Seq::empty()), ".translator_virtual_mic"@), "ref_voice.wav"@)
}

/// The CosyVoice block read from `raw`.
pub open spec fn spec_cosyvoice_tts_config(raw: Seq<char>, home: Option<Seq<char>>) -> Option<
    CosyVoiceTtsSettings,
> {
    let enabled = bool_or(spec_extract_bool(raw, "cosyvoice_tts_enabled"@), false);
    let mentioned = contains(raw, "cosyvoice_tts_"@);
    if !enabled && !mentioned {
        None
    } else {
        Some(
            CosyVoiceTtsSettings {
                enabled,
                endpoint: or_default(
                    spec_extract_string(raw, "cosyvoice_tts_endpoint"@),
                    "http://127.0.0.1:50000"@,
                ),
                prompt_wav_path: match spec_extract_string(raw, "cosyvoice_tts_prompt_wav_path"@) {
                    Some(p) => spec_expand_tilde(p, home),
                    None => spec_default_prompt_wav_path(home),
                },
                prompt_text: or_default(
                    spec_extract_string(raw, "cosyvoice_tts_prompt_text"@),
                    Seq::empty(),
                ),
            },
        )
    }
}

impl CosyVoiceTtsConfig {
    /// The default CosyVoice block for the home directory `home`.
    pub fn default_for_home(home: Option<&str>) -> (r: Self)
        ensures
            r@ == (CosyVoiceTtsSettings {
                enabled: false,
                endpoint: "http://127.0.0.1:50000"@,
                prompt_wav_path: spec_default_prompt_wav_path(str_opt(home)),
                prompt_text: Seq::empty(),
            }),
    {
        let base = match home {
            Some(h) => String::from_str(h),
            None => String::new(),
        };
        let dir = join_path(base.as_str(), ".translator_virtual_mic");
        let prompt_wav_path = join_path(dir.as_str(), "ref_voice.wav");
        CosyVoiceTtsConfig {
            enabled: false,
            endpoint: String::from_str("http://127.0.0.1:50000"),
            prompt_wav_path,
            prompt_text: String::new(),
        }
    }

    /// Reads the CosyVoice block.
    pub fn from_json_lossy(raw: &str, _engine_config: &EngineConfig, home: Option<&str>) -> (r:
        Option<Self>)
        ensures
            view_opt(r) == spec_cosyvoice_tts_config(raw@, str_opt(home)),
    {
        let enabled = match extract_bool_value(raw, "cosyvoice_tts_enabled") {
            Some(b) => b,
            None => false,
        };
        let mentioned = str_contains(raw, "cosyvoice_tts_");
        if !enabled && !mentioned {
            return None;
        }
        let mut cfg = Self::default_for_home(home);
        cfg.enabled = enabled;
        if let Some(ep) = extract_string_value(raw, "cosyvoice_tts_endpoint") {
            cfg.endpoint = ep;
        }
        if let Some(wav) = extract_string_value(raw, "cosyvoice_tts_prompt_wav_path") {
            cfg.prompt_wav_path = expand_tilde(wav.as_str(), home);
        }
        if let Some(pt) = extract_string_value(raw, "cosyvoice_tts_prompt_text") {
            cfg.prompt_text = pt;
        }
        Some(cfg)
    }
}

/// ElevenLabs synthesis settings.
#[derive(Clone, Debug)]
pub struct ElevenLabsTtsConfig {
    pub enabled: bool,
    pub api_key: String,
    pub voice_id: String,
    pub model_id: String,
}

/// The contents of an [`ElevenLabsTtsConfig`].
pub struct ElevenLabsTtsSettings {
    pub enabled: bool,
    pub api_key: Seq<char>,
    pub voice_id: Seq<char>,
    pub model_id: Seq<char>,
}

impl View for ElevenLabsTtsConfig {
    type V = ElevenLabsTtsSettings;

    open spec fn view(&self) -> ElevenLabsTtsSettings {
        ElevenLabsTtsSettings {
            enabled: self.enabled,
            api_key: self.api_key@,
            voice_id: self.voice_id@,
            model_id: self.model_id@,
        }
    }
}

/// The ElevenLabs block read from `raw`.
pub open spec fn spec_elevenlabs_tts_config(raw: Seq<char>) -> Option<ElevenLabsTtsSettings> {
    let enabled = bool_or(spec_extract_bool(raw, "elevenlabs_tts_enabled"@), false);
    let mentioned = contains(raw, "elevenlabs_tts_"@);
    if !enabled && !mentioned {
        None
    } else {
        Some(
            ElevenLabsTtsSettings {
                enabled,
                api_key: or_default(spec_extract_string(raw, "elevenlabs_tts_api_key"@), Seq::empty()),
                voice_id: or_default(spec_extract_string(raw, "elevenlabs_tts_voice_id"@), Seq::empty()),
                model_id: or_default(
                    spec_extract_string(raw, "elevenlabs_tts_model_id"@),
                    "eleven_multilingual_v2"@,
                ),
            },
        )
    }
}

impl ElevenLabsTtsConfig {
    /// Reads the ElevenLabs block.
    pub fn from_json_lossy(raw: &str) -> (r: Option<Self>)
        ensures
            view_opt(r) == spec_elevenlabs_tts_config(raw@),
    {
        let enabled = match extract_bool_value(raw, "elevenlabs_tts_enabled") {
            Some(b) => b,
            None => false,
        };
        let mentioned = str_contains(raw, "elevenlabs_tts_");
        if !enabled && !mentioned {
            return None;
        }
        let api_key = string_or_empty(raw, "elevenlabs_tts_api_key");
        let voice_id = string_or_empty(raw, "elevenlabs_tts_voice_id");
        let model_id = string_or(raw, "elevenlabs_tts_model_id", "eleven_multilingual_v2");
        Some(ElevenLabsTtsConfig { enabled, api_key, voice_id, model_id })
    }
}

/// MiniMax synthesis settings (speed and volume are read by the host).
#[derive(Clone, Debug)]
pub struct MiniMaxTtsConfig {
    pub enabled: bool,
    pub api_host: String,
    pub api_key: String,
    pub voice_id: String,
    pub model: String,
    pub emotion: String,
    pub pitch: i32,
    pub sample_rate: u32,
}

/// The contents of a [`MiniMaxTtsConfig`].
pub struct MiniMaxTtsSettings {
    pub enabled: bool,
    pub api_host: Seq<char>,
    pub api_key: Seq<char>,
    pub voice_id: Seq<char>,
    pub model: Seq<char>,
    pub emotion: Seq<char>,
    pub pitch: int,
    pub sample_rate: int,
}

impl View for MiniMaxTtsConfig {
    type V = MiniMaxTtsSettings;

    open spec fn view(&self) -> MiniMaxTtsSettings {
        MiniMaxTtsSettings {
            enabled: self.enabled,
            api_host: self.api_host@,
            api_key: self.api_key@,
            voice_id: self.voice_id@,
            model: self.model@,
            emotion: self.emotion@,
            pitch: self.pitch as int,
            sample_rate: self.sample_rate as int,
        }
    }
}

/// The MiniMax block read from `raw`.
pub open spec fn spec_minimax_tts_config(raw: Seq<char>) -> Option<MiniMaxTtsSettings> {
    let enabled = bool_or(spec_extract_bool(raw, "minimax_tts_enabled"@), false);
    let mentioned = contains(raw, "minimax_tts_"@);
    if !enabled && !mentioned {
        None
    } else {
        Some(
            MiniMaxTtsSettings {
                enabled,
                api_host: or_default(spec_extract_string(raw, "minimax_tts_api_host"@), Seq::empty()),
                api_key: or_default(spec_extract_string(raw, "minimax_tts_api_key"@), Seq::empty()),
                voice_id: or_default(spec_extract_string(raw, "minimax_tts_voice_id"@), Seq::empty()),
                model: or_default(spec_extract_string(raw, "minimax_tts_model"@), Seq::empty()),
                emotion: or_default(spec_extract_string(raw, "minimax_tts_emotion"@), Seq::empty()),
                pitch: int_or(spec_extract_i32(raw, "minimax_tts_pitch"@), 0),
                sample_rate: int_or(spec_extract_u32(raw, "minimax_tts_sample_rate"@), 24000),
            },
        )
    }
}

impl MiniMaxTtsConfig {
    /// Reads the MiniMax block.
    pub fn from_json_lossy(raw: &str) -> (r: Option<Self>)
        ensures
            view_opt(r) == spec_minimax_tts_config(raw@),
    {
        let enabled = match extract_bool_value(raw, "minimax_tts_enabled") {
            Some(b) => b,
            None => false,
        };
        let mentioned = str_contains(raw, "minimax_tts_");
        if !enabled && !mentioned {
            return None;
        }
        let api_key = string_or_empty(raw, "minimax_tts_api_key");
        let voice_id = string_or_empty(raw, "minimax_tts_voice_id");
        let model = string_or_empty(raw, "minimax_tts_model");
        let emotion = string_or_empty(raw, "minimax_tts_emotion");
        let api_host = string_or_empty(raw, "minimax_tts_api_host");
        let pitch = match extract_i32_value(raw, "minimax_tts_pitch") {
            Some(p) => p,
            None => 0,
        };
        let sample_rate = match extract_u32_value(raw, "minimax_tts_sample_rate") {
            Some(v) => v,
            None => 24_000,
        };
        Some(
            MiniMaxTtsConfig {
                enabled,
                api_host,
                api_key,
                voice_id,
                model,
                emotion,
                pitch,
                sample_rate,
            },
        )
    }
}

/// Offline machine-translation settings.
#[derive(Clone, Debug)]
pub struct LocalMtConfig {
    pub enabled: bool,
    pub model_id: String,
    pub model_dir: String,
    pub source_lang: String,
    pub target_lang: String,
}

/// The contents of a [`LocalMtConfig`].
pub struct LocalMtSettings {
    pub enabled: bool,
    pub model_id: Seq<char>,
    pub model_dir: Seq<char>,
    pub source_lang: Seq<char>,
    pub target_lang: Seq<char>,
}

impl View for LocalMtConfig {
    type V = LocalMtSettings;

    open spec fn view(&self) -> LocalMtSettings {
        LocalMtSettings {
            enabled: self.enabled,
            model_id: self.model_id@,
            model_dir: self.model_dir@,
            source_lang: self.source_lang@,
            target_lang: self.target_lang@,
        }
    }
}

/// The offline translation block read from `raw`.
pub open spec fn spec_local_mt_config(
    raw: Seq<char>,
    source_language: Seq<char>,
    target_language: Seq<char>,
    home: Option<Seq<char>>,
) -> Option<LocalMtSettings> {
    let enabled = bool_or(spec_extract_bool(raw, "local_mt_enabled"@), false);
    let mentioned = contains(raw, "local_mt_"@);
    if !enabled && !mentioned {
        None
    } else {
        Some(
            LocalMtSettings {
                enabled,
                model_id: or_default(spec_extract_string(raw, "local_mt_model_id"@), "opus-mt-zh-en"@),
                model_dir: spec_path_value(raw, "local_mt_model_dir"@, home),
                source_lang: or_default(
                    spec_extract_string(raw, "local_mt_source_lang"@),
                    source_language,
                ),
                target_lang: or_default(
                    spec_extract_string(raw, "local_mt_target_lang"@),
                    target_language,
                ),
            },
        )
    }
}

impl LocalMtConfig {
    /// Reads the offline translation block.
    pub fn from_json_lossy(raw: &str, engine_config: &EngineConfig, home: Option<&str>) -> (r:
        Option<Self>)
        ensures
            view_opt(r) == spec_local_mt_config(
                raw@,
                engine_config.source_language@,
                engine_config.target_language@,
                str_opt(home),
            ),
    {
        let enabled = match extract_bool_value(raw, "local_mt_enabled") {
            Some(b) => b,
            None => false,
        };
        let mentioned = str_contains(raw, "local_mt_");
        if !enabled && !mentioned {
            return None;
        }
        let model_id = string_or(raw, "local_mt_model_id", "opus-mt-zh-en");
        let model_dir = path_value(raw, "local_mt_model_dir", home);
        let source_lang = match extract_string_value(raw, "local_mt_source_lang") {
            Some(v) => v,
            None => copy_string(&engine_config.source_language),
        };
        let target_lang = match extract_string_value(raw, "local_mt_target_lang") {
            Some(v) => v,
            None => copy_string(&engine_config.target_language),
        };
        Some(LocalMtConfig { enabled, model_id, model_dir, source_lang, target_lang })
    }
}

/// An audio stream format.
#[derive(Clone, Copy, Debug)]
pub struct AudioFormat {
    pub sample_rate: u32,
    pub channels: u16,
}

/// An engine failure, carried as text.
#[derive(Clone, Debug)]
pub struct EngineError {
    message: String,
}

impl EngineError {
    /// An error carrying `message`.
    pub fn new(message: String) -> (r: EngineError)
        ensures
            r.spec_message() == message@,
    {
        EngineError { message }
    }

    /// An error carrying a copy of the text `message`.
    pub fn from_text(message: &str) -> (r: EngineError)
        ensures
            r.spec_message() == message@,
    {
        EngineError { message: String::from_str(message) }
    }

    /// The text of the error.
    pub closed spec fn spec_message(&self) -> Seq<char> {
        self.message@
    }

    /// The text of the error.
    pub fn message(&self) -> (r: &str)
        ensures
            r@ == self.spec_message(),
    {
        self.message.as_str()
    }
}


/// Engine settings read from the host's configuration text (gain and limiter
/// levels, held as floating point, are read by the host).
#[derive(Clone, Debug)]
pub struct EngineConfig {
    pub source_language: String,
    pub target_language: String,
    pub input_sample_rate: u32,
    pub output_sample_rate: u32,
    pub channels: u16,
    pub translation_provider: TranslationProvider,
    pub azure_voice_live: Option<AzureVoiceLiveConfig>,
    pub openai_realtime: Option<OpenAIRealtimeConfig>,
    pub local_stt: Option<LocalSttConfig>,
    pub mt: Option<MtConfig>,
    pub tts: Option<TtsConfig>,
    pub local_mt: Option<LocalMtConfig>,
    pub cosyvoice_tts: Option<CosyVoiceTtsConfig>,
    pub elevenlabs_tts: Option<ElevenLabsTtsConfig>,
    pub minimax_tts: Option<MiniMaxTtsConfig>,
    pub mode: EngineMode,
    pub raw_config_json: String,
}

/// The contents of an [`EngineConfig`].
pub struct EngineSettings {
    pub source_language: Seq<char>,
    pub target_language: Seq<char>,
    pub input_sample_rate: u32,
    pub output_sample_rate: u32,
    pub channels: u16,
    pub translation_provider: TranslationProvider,
    pub azure_voice_live: Option<AzureVoiceLiveSettings>,
    pub openai_realtime: Option<OpenAIRealtimeSettings>,
    pub local_stt: Option<LocalSttSettings>,
    pub mt: Option<MtSettings>,
    pub tts: Option<TtsSettings>,
    pub local_mt: Option<LocalMtSettings>,
    pub cosyvoice_tts: Option<CosyVoiceTtsSettings>,
    pub elevenlabs_tts: Option<ElevenLabsTtsSettings>,
    pub minimax_tts: Option<MiniMaxTtsSettings>,
    pub mode: EngineMode,
    pub raw_config_json: Seq<char>,
}

impl View for EngineConfig {
    type V = EngineSettings;

    open spec fn view(&self) -> EngineSettings {
        EngineSettings {
            source_language: self.source_language@,
            target_language: self.target_language@,
            input_sample_rate: self.input_sample_rate,
            output_sample_rate: self.output_sample_rate,
            channels: self.channels,
            translation_provider: self.translation_provider,
            azure_voice_live: view_opt(self.azure_voice_live),
            openai_realtime: view_opt(self.openai_realtime),
            local_stt: view_opt(self.local_stt),
            mt: view_opt(self.mt),
            tts: view_opt(self.tts),
            local_mt: view_opt(self.local_mt),
            cosyvoice_tts: view_opt(self.cosyvoice_tts),
            elevenlabs_tts: view_opt(self.elevenlabs_tts),
            minimax_tts: view_opt(self.minimax_tts),
            mode: self.mode,
            raw_config_json: self.raw_config_json@,
        }
    }
}

impl EngineConfig {
    /// The default engine settings: bypass mode, automatic source language,
    /// English target, 48 kHz mono, no provider and no optional blocks.
    pub fn default_config() -> (r: Self)
        ensures
            r@.source_language == "auto"@,
            r@.target_language == "en"@,
            r.input_sample_rate == 48_000,
            r.output_sample_rate == 48_000,
            r.channels == 1,
            r.translation_provider == TranslationProvider::NoProvider,
            r.azure_voice_live is None,
            r.openai_realtime is None,
            r.local_stt is None,
            r.mt is None,
            r.tts is None,
            r.local_mt is None,
            r.cosyvoice_tts is None,
            r.elevenlabs_tts is None,
            r.minimax_tts is None,
            r.mode == EngineMode::Bypass,
            r@.raw_config_json == "{}"@,
    {
        EngineConfig {
            source_language: String::from_str("auto"),
            target_language: String::from_str("en"),
            input_sample_rate: 48_000,
            output_sample_rate: 48_000,
            channels: 1,
            translation_provider: TranslationProvider::NoProvider,
            azure_voice_live: None,
            openai_realtime: None,
            local_stt: None,
            mt: None,
            tts: None,
            local_mt: None,
            cosyvoice_tts: None,
            elevenlabs_tts: None,
            minimax_tts: None,
            mode: EngineMode::Bypass,
            raw_config_json: String::from_str("{}"),
        }
    }
}

/// Whether `raw` mentions either of two spellings of a setting.
pub open spec fn mentions_either(raw: Seq<char>, a: Seq<char>, b: Seq<char>) -> bool {
    contains(raw, a) || contains(raw, b)
}

/// The operating mode that `raw` selects: later settings override earlier ones.
pub open spec fn spec_mode(raw: Seq<char>) -> EngineMode {
    let m0 = EngineMode::Bypass;
    let m1 = if mentions_either(raw, "\"fallback_mode\":\"mute\""@, "fallback_mode = \"mute\""@) {
        EngineMode::MuteOnFailure
    } else {
        m0
    };
    let m2 = if mentions_either(raw, "\"mode\":\"translate\""@, "mode = \"translate\""@) {
        EngineMode::Translate
    } else {
        m1
    };
    let m3 = if mentions_either(raw, "\"mode\":\"caption_only\""@, "mode = \"caption_only\""@) {
        EngineMode::CaptionOnly
    } else {
        m2
    };
    let m4 = if mentions_either(raw, "\"mode\":\"mute_on_failure\""@, "mode = \"mute_on_failure\""@) {
        EngineMode::MuteOnFailure
    } else {
        m3
    };
    if mentions_either(raw, "\"mode\":\"fallback_to_bypass\""@, "mode = \"fallback_to_bypass\""@) {
        EngineMode::FallbackToBypass
    } else {
        m4
    }
}

/// The translation provider that `translation_provider` names.
pub open spec fn spec_provider(raw: Seq<char>) -> TranslationProvider {
    match spec_extract_string(raw, "translation_provider"@) {
        Some(p) => if p == "azure_voice_live"@ {
            TranslationProvider::AzureVoiceLive
        } else if p == "openai_realtime"@ {
            TranslationProvider::OpenAIRealtime
        } else if p == "eleven_labs"@ {
            TranslationProvider::ElevenLabs
        } else {
            TranslationProvider::NoProvider
        },
        None => TranslationProvider::NoProvider,
    }
}

/// The target language that `raw` selects.
pub open spec fn spec_target_language(raw: Seq<char>) -> Seq<char> {
    if mentions_either(raw, "\"target\":\"zh\""@, "target = \"zh\""@) {
        "zh"@
    } else {
        "en"@
    }
}

/// The engine settings read from `raw`, with `home` expanding `~/` paths.
pub open spec fn spec_engine_config(raw: Seq<char>, home: Option<Seq<char>>) -> EngineSettings {
    let source = "auto"@;
    let target = spec_target_language(raw);
    let provider = spec_provider(raw);
    EngineSettings {
        source_language: source,
        target_language: target,
        input_sample_rate: 48_000,
        output_sample_rate: 48_000,
        channels: 1,
        translation_provider: provider,
        azure_voice_live: spec_azure_voice_live_config(raw, source, target),
        openai_realtime: spec_openai_realtime_config(raw, provider, source, target),
        local_stt: spec_local_stt_config(raw, source, home),
        mt: spec_mt_config(raw, target),
        tts: spec_tts_config(raw, home),
        local_mt: spec_local_mt_config(raw, source, target, home),
        cosyvoice_tts: spec_cosyvoice_tts_config(raw, home),
        elevenlabs_tts: spec_elevenlabs_tts_config(raw),
        minimax_tts: spec_minimax_tts_config(raw),
        mode: spec_mode(raw),
        raw_config_json: raw,
    }
}

fn mentions(raw: &str, a: &str, b: &str) -> (r: bool)
    ensures
        r == mentions_either(raw@, a@, b@),
{
    str_contains(raw, a) || str_contains(raw, b)
}

impl EngineConfig {
    /// Reads the engine settings from the host's configuration text; `home`
    /// expands `~/` in model paths.
    pub fn from_json_lossy(raw: &str, home: Option<&str>) -> (r: Self)
        ensures
            r@ == spec_engine_config(raw@, str_opt(home)),
    {
        let mut config = Self::default_config();
        config.raw_config_json = String::from_str(raw);
        if mentions(raw, "\"fallback_mode\":\"mute\"", "fallback_mode = \"mute\"") {
            config.mode = EngineMode::MuteOnFailure;
        }
        if mentions(raw, "\"mode\":\"translate\"", "mode = \"translate\"") {
            config.mode = EngineMode::Translate;
        }
        if mentions(raw, "\"mode\":\"caption_only\"", "mode = \"caption_only\"") {
            config.mode = EngineMode::CaptionOnly;
        }
        if mentions(raw, "\"mode\":\"mute_on_failure\"", "mode = \"mute_on_failure\"") {
            config.mode = EngineMode::MuteOnFailure;
        }
        if mentions(raw, "\"mode\":\"fallback_to_bypass\"", "mode = \"fallback_to_bypass\"") {
            config.mode = EngineMode::FallbackToBypass;
        }
        if mentions(raw, "\"target\":\"zh\"", "target = \"zh\"") {
            config.target_language = String::from_str("zh");
        }
        if let Some(provider) = extract_string_value(raw, "translation_provider") {
            config.translation_provider = if str_eq(provider.as_str(), "azure_voice_live") {
                TranslationProvider::AzureVoiceLive
            } else if str_eq(provider.as_str(), "openai_realtime") {
                TranslationProvider::OpenAIRealtime
            } else if str_eq(provider.as_str(), "eleven_labs") {
                TranslationProvider::ElevenLabs
            } else {
                TranslationProvider::NoProvider
            };
        }
        config.azure_voice_live = AzureVoiceLiveConfig::from_json_lossy(raw, &config);
        config.openai_realtime = OpenAIRealtimeConfig::from_json_lossy(raw, &config);
        config.local_stt = LocalSttConfig::from_json_lossy(raw, &config, home);
        config.mt = MtConfig::from_json_lossy(raw, &config);
        config.tts = TtsConfig::from_json_lossy(raw, home);
        config.local_mt = LocalMtConfig::from_json_lossy(raw, &config, home);
        config.cosyvoice_tts = CosyVoiceTtsConfig::from_json_lossy(raw, &config, home);
        config.elevenlabs_tts = ElevenLabsTtsConfig::from_json_lossy(raw);
        config.minimax_tts = MiniMaxTtsConfig::from_json_lossy(raw);
        config
    }
}

} // verus!
