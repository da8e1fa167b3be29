//! Remote caption translation through an OpenAI-compatible chat-completions
//! endpoint: client settings and their validation, the request for one
//! caption, and the reading of the reply (the HTTP exchange itself is the
//! host's).

use vstd::prelude::*;
use crate::text::{decimal, is_blank, push_u64, trim, trim_str};

verus! {

/// The model used when none is configured.
pub const DEFAULT_MODEL: &'static str = "gpt-4o-mini";

/// The endpoint used when none is configured.
pub const DEFAULT_ENDPOINT: &'static str = "https://api.openai.com/v1/chat/completions";

/// The timeout of one request, in seconds.
pub const REQUEST_TIMEOUT_SECS: u64 = 30;

/// A failure of remote translation.
#[derive(Clone, Debug)]
pub enum MtError {
    Network(String),
    Api(String),
    InvalidResponse(String),
    Config(String),
}

/// The text of an [`MtError`], as the host displays it.
pub open spec fn mt_error_text(e: MtError) -> Seq<char> {
    match e {
        MtError::Network(m) => "network error: "@ + m@,
        MtError::Api(m) => "api error: "@ + m@,
        MtError::InvalidResponse(m) => "invalid response: "@ + m@,
        MtError::Config(m) => "config error: "@ + m@,
    }
}

impl MtError {
    /// The text of the error, as the host displays it.
    pub fn display_text(&self) -> (r: String)
        ensures
            r@ == mt_error_text(*self),
    {
        let (prefix, m) = match self {
            MtError::Network(m) => ("network error: ", m),
            MtError::Api(m) => ("api error: ", m),
            MtError::InvalidResponse(m) => ("invalid response: ", m),
            MtError::Config(m) => ("config error: ", m),
        };
        let mut s = String::from_str(prefix);
        s.append(m.as_str());
        s
    }
}

/// Where and with what to translate.
#[derive(Clone, Debug)]
pub struct MtClientConfig {
    pub endpoint: String,
    pub api_key: String,
    pub model: String,
}

impl MtClientConfig {
    /// Settings with `api_key`, the default endpoint and the default model.
    pub fn new(api_key: &str) -> (r: Self)
        ensures
            r.api_key@ == api_key@,
            r.endpoint@ == DEFAULT_ENDPOINT@,
            r.model@ == DEFAULT_MODEL@,
    {
        MtClientConfig {
            endpoint: String::from_str(DEFAULT_ENDPOINT),
            api_key: String::from_str(api_key),
            model: String::from_str(DEFAULT_MODEL),
        }
    }

    /// The same settings with another endpoint.
    pub fn with_endpoint(self, endpoint: &str) -> (r: Self)
        ensures
            r.endpoint@ == endpoint@,
            r.api_key == self.api_key,
            r.model == self.model,
    {
        MtClientConfig { endpoint: String::from_str(endpoint), ..self }
    }

    /// The same settings with another model.
    pub fn with_model(self, model: &str) -> (r: Self)
        ensures
            r.model@ == model@,
            r.api_key == self.api_key,
            r.endpoint == self.endpoint,
    {
        MtClientConfig { model: String::from_str(model), ..self }
    }
}

/// The system prompt asking for a bare translation into `target_lang`.
pub open spec fn spec_system_prompt(target_lang: Seq<char>) -> Seq<char> {
    "You are a translator. Translate the user's text into "@ + target_lang
        + ". Output ONLY the translated text. No quotes, no explanations, no extra punctuation. Preserve proper nouns and code/technical terms."@
}

/// The system prompt for translating into `target_lang`.
pub fn build_system_prompt(target_lang: &str) -> (r: String)
    ensures
        r@ == spec_system_prompt(target_lang@),
{
    let mut s = String::from_str("You are a translator. Translate the user's text into ");
    s.append(target_lang);
    s.append(
        ". Output ONLY the translated text. No quotes, no explanations, no extra punctuation. Preserve proper nouns and code/technical terms.",
    );
    s
}

/// One chat-completions request: sent to `endpoint` with the `Authorization`
/// header, a system message and a user message.
#[derive(Clone, Debug)]
pub struct ChatRequest {
    pub endpoint: String,
    pub authorization: String,
    pub model: String,
    pub system_prompt: String,
    pub user_text: String,
}

/// A client whose settings passed validation.
#[derive(Clone, Debug)]
pub struct MtClient {
    config: MtClientConfig,
}

impl MtClient {
    /// The settings of the client.
    pub closed spec fn spec_config(&self) -> MtClientConfig {
        self.config
    }

    /// Accepts settings whose API key, endpoint and model are not blank
    /// (checked in that order).
    pub fn new(config: MtClientConfig) -> (r: Result<Self, MtError>)
        ensures
            trim(config.api_key@).len() == 0 ==> (r matches Err(MtError::Config(m)) && m@
                == "api_key is empty"@),
            trim(config.api_key@).len() != 0 && trim(config.endpoint@).len() == 0 ==> (r matches Err(
                MtError::Config(m),
            ) && m@ == "endpoint is empty"@),
            trim(config.api_key@).len() != 0 && trim(config.endpoint@).len() != 0 && trim(
                config.model@,
            ).len() == 0 ==> (r matches Err(MtError::Config(m)) && m@ == "model is empty"@),
            trim(config.api_key@).len() != 0 && trim(config.endpoint@).len() != 0 && trim(
                config.model@,
            ).len() != 0 ==> (r matches Ok(c) && c.spec_config() == config),
    {
        if is_blank(config.api_key.as_str()) {
            return Err(MtError::Config(String::from_str("api_key is empty")));
        }
        if is_blank(config.endpoint.as_str()) {
            return Err(MtError::Config(String::from_str("endpoint is empty")));
        }
        if is_blank(config.model.as_str()) {
            return Err(MtError::Config(String::from_str("model is empty")));
        }
        Ok(MtClient { config })
    }

    /// The model the client asks for.
    pub fn model(&self) -> (r: &str)
        ensures
            r@ == self.spec_config().model@,
    {
        self.config.model.as_str()
    }

    /// The request that translates `original` into `target_lang`: `None` when
    /// the trimmed text is empty (it translates to the empty text without a
    /// request); otherwise the trimmed text, the system prompt, the model and
    /// a bearer authorization for the configured endpoint.
    pub fn chat_request(&self, original: &str, target_lang: &str) -> (r: Option<ChatRequest>)
        ensures
            match r {
                None => trim(original@).len() == 0,
                Some(q) => trim(original@).len() != 0 && q.user_text@ == trim(original@)
                    && q.system_prompt@ == spec_system_prompt(target_lang@) && q.model@
                    == self.spec_config().model@ && q.endpoint@ == self.spec_config().endpoint@
                    && q.authorization@ == "Bearer "@ + self.spec_config().api_key@,
            },
    {
        let text = trim_str(original);
        if text.as_str().is_empty() {
            return None;
        }
        let mut authorization = String::from_str("Bearer ");
        authorization.append(self.config.api_key.as_str());
        Some(
            ChatRequest {
                endpoint: String::from_str(self.config.endpoint.as_str()),
                authorization,
                model: String::from_str(self.config.model.as_str()),
                system_prompt: build_system_prompt(target_lang),
                user_text: text,
            },
        )
    }
}

/// The error for an HTTP error status and its body.
pub fn api_error(status: u16, body: &str) -> (r: MtError)
    ensures
        r matches MtError::Api(m) && m@ == "HTTP "@ + decimal(status as nat) + ": "@ + body@,
{
    let mut m = String::from_str("HTTP ");
    push_u64(&mut m, status as u64);
    m.append(": ");
    m.append(body);
    MtError::Api(m)
}

/// The translation in a decoded reply, given the `content` of each choice
/// (`None` when the reply has no `choices`): the first choice, trimmed.
pub fn reply_translation(choices: Option<Vec<String>>) -> (r: Result<String, MtError>)
    ensures
        match choices {
            None => r matches Err(MtError::InvalidResponse(m)) && m@ == "missing 'choices'"@,
            Some(c) => if c@.len() == 0 {
                r matches Err(MtError::InvalidResponse(m)) && m@ == "empty 'choices'"@
            } else {
                r matches Ok(t) && t@ == trim(c@[0]@)
            },
        },
{
    match choices {
        None => Err(MtError::InvalidResponse(String::from_str("missing 'choices'"))),
        Some(c) => {
            if c.len() == 0 {
                Err(MtError::InvalidResponse(String::from_str("empty 'choices'")))
            } else {
                Ok(trim_str(c[0].as_str()))
            }
        },
    }
}

} // verus!
