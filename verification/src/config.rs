//! What a caller configures once: where to send prompts, which model to ask,
//! how much output to allow, and the credential to present.

use vstd::prelude::*;
use vstd::string::StringExecFns;

verus! {

/// A secret string. It has no `Debug` form and is read only through
/// [`Credential::expose`].
#[derive(Clone)]
pub struct Credential {
    secret: String,
}

impl View for Credential {
    type V = Seq<char>;

    closed spec fn view(&self) -> Seq<char> {
        self.secret@
    }
}

impl Credential {
    /// Wraps a secret.
    pub fn new(secret: &str) -> (credential: Credential)
        ensures
            credential@ == secret@,
    {
        Credential { secret: String::from_str(secret) }
    }

    /// Hands out the secret.
    pub fn expose(&self) -> (secret: &str)
        ensures
            secret@ == self@,
    {
        self.secret.as_str()
    }
}

/// The two request and reply layouts the upstream API offers.
#[derive(Clone, Copy, Debug, PartialEq, Eq, Structural)]
pub enum ApiVariant {
    /// Prompts go out as a chat message list; replies come as `choices`.
    ChatCompletions,
    /// Prompts go out as one flat input field; replies come as `output`.
    Responses,
}

/// The configuration of the adapter.
#[derive(Clone)]
pub struct Options {
    /// Base URL of the API, without a trailing path.
    pub endpoint: String,
    /// Identifier of the model to ask.
    pub model: String,
    /// Upper bound on generated tokens; `None` leaves the upstream default.
    pub max_tokens: Option<usize>,
    /// The bearer credential.
    pub api_key: Credential,
    /// Which layout to speak.
    pub variant: ApiVariant,
}

/// Collects the settings of an [`Options`] value one by one.
pub struct OptionsBuilder {
    pub endpoint: Option<String>,
    pub model: Option<String>,
    pub max_tokens: Option<usize>,
    pub api_key: Option<Credential>,
    pub variant: Option<ApiVariant>,
}

/// The endpoint used where none is set.
pub open spec fn default_endpoint() -> Seq<char> {
    "https://api.openai.com"@
}

/// The model used where none is set.
pub open spec fn default_model() -> Seq<char> {
    "gpt-5-mini"@
}

impl Options {
    /// Starts a builder with nothing set.
    pub fn builder() -> (builder: OptionsBuilder)
        ensures
            builder.endpoint.is_none(),
            builder.model.is_none(),
            builder.max_tokens.is_none(),
            builder.api_key.is_none(),
            builder.variant.is_none(),
    {
        OptionsBuilder { endpoint: None, model: None, max_tokens: None, api_key: None, variant: None }
    }
}

impl OptionsBuilder {
    /// Sets the base URL.
    pub fn endpoint(self, endpoint: &str) -> (builder: OptionsBuilder)
        ensures
            builder.endpoint matches Some(set) && set@ == endpoint@,
            builder.model == self.model,
            builder.max_tokens == self.max_tokens,
            builder.api_key == self.api_key,
            builder.variant == self.variant,
    {
        OptionsBuilder { endpoint: Some(String::from_str(endpoint)), ..self }
    }

    /// Sets the model identifier.
    pub fn model(self, model: &str) -> (builder: OptionsBuilder)
        ensures
            builder.model matches Some(set) && set@ == model@,
            builder.endpoint == self.endpoint,
            builder.max_tokens == self.max_tokens,
            builder.api_key == self.api_key,
            builder.variant == self.variant,
    {
        OptionsBuilder { model: Some(String::from_str(model)), ..self }
    }

    /// Sets the output budget.
    pub fn max_tokens(self, max_tokens: usize) -> (builder: OptionsBuilder)
        ensures
            builder.max_tokens == Some(max_tokens),
            builder.endpoint == self.endpoint,
            builder.model == self.model,
            builder.api_key == self.api_key,
            builder.variant == self.variant,
    {
        OptionsBuilder { max_tokens: Some(max_tokens), ..self }
    }

    /// Sets the credential.
    pub fn api_key(self, api_key: &str) -> (builder: OptionsBuilder)
        ensures
            builder.api_key matches Some(set) && set@ == api_key@,
            builder.endpoint == self.endpoint,
            builder.model == self.model,
            builder.max_tokens == self.max_tokens,
            builder.variant == self.variant,
    {
        OptionsBuilder { api_key: Some(Credential::new(api_key)), ..self }
    }

    /// Sets the layout to speak.
    pub fn variant(self, variant: ApiVariant) -> (builder: OptionsBuilder)
        ensures
            builder.variant == Some(variant),
            builder.endpoint == self.endpoint,
            builder.model == self.model,
            builder.max_tokens == self.max_tokens,
            builder.api_key == self.api_key,
    {
        OptionsBuilder { variant: Some(variant), ..self }
    }

    /// Finishes the configuration, filling in the defaults. The credential
    /// has no default and must have been set.
    pub fn build(self) -> (options: Options)
        requires
            self.api_key.is_some(),
        ensures
            options.endpoint@ == match self.endpoint {
                Some(set) => set@,
                None => default_endpoint(),
            },
            options.model@ == match self.model {
                Some(set) => set@,
                None => default_model(),
            },
            options.max_tokens == self.max_tokens,
            Some(options.api_key) == self.api_key,
            options.variant == match self.variant {
                Some(set) => set,
                None => ApiVariant::ChatCompletions,
            },
    {
        let endpoint = match self.endpoint {
            Some(set) => set,
            None => String::from_str("https://api.openai.com"),
        };
        let model = match self.model {
            Some(set) => set,
            None => String::from_str("gpt-5-mini"),
        };
        let variant = match self.variant {
            Some(set) => set,
            None => ApiVariant::ChatCompletions,
        };
        match self.api_key {
            Some(api_key) => Options { endpoint, model, max_tokens: self.max_tokens, api_key, variant },
            None => {
                proof {
                    assert(false);
                }
                Options {
                    endpoint,
                    model,
                    max_tokens: self.max_tokens,
                    api_key: Credential::new(""),
                    variant,
                }
            },
        }
    }
}

} // verus!
