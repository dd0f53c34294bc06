//! Completion providers: which one a name stands for, where its requests
//! go, and what its replies mean.
//!
//! Sending a request is the application's business. It hands the outcome
//! back as a [`Reply`], already decoded as far as the transport allows.

use vstd::prelude::*;
use crate::settings::stored_or_spec;
use crate::text::{decimal, decimal_of, same_text};

verus! {

/// Where an Ollama server is looked for when no host is given.
pub const OLLAMA_DEFAULT_HOST: &'static str = "http://localhost";

/// The port an Ollama server is looked for at when none is given.
pub const OLLAMA_DEFAULT_PORT: u16 = 11434;

/// The model asked of Ollama when none is given.
pub const OLLAMA_DEFAULT_MODEL: &'static str = "gemma3";

/// The path of Ollama's completion endpoint on its host.
pub const OLLAMA_GENERATE_PATH: &'static str = "/api/generate";

/// The model asked of OpenAI when none is given.
pub const OPENAI_DEFAULT_MODEL: &'static str = "gpt-4.1-nano";

/// OpenAI's chat completion endpoint.
pub const OPENAI_URL: &'static str = "https://api.openai.com/v1/chat/completions";

/// The model asked of Groq when none is given.
pub const GROQ_DEFAULT_MODEL: &'static str = "llama-3.1-8b-instant";

/// Groq's chat completion endpoint.
pub const GROQ_URL: &'static str = "https://api.groq.com/openai/v1/chat/completions";

/// The model asked of Gemini when none is given.
pub const GEMINI_DEFAULT_MODEL: &'static str = "gemini-2.0-flash-lite";

/// What precedes the model's name in a Gemini endpoint.
pub const GEMINI_MODELS_URL: &'static str =
    "https://generativelanguage.googleapis.com/v1beta/models/";

/// What follows the model's name in a Gemini endpoint, up to the key.
pub const GEMINI_GENERATE_ACTION: &'static str = ":generateContent?key=";

/// The providers the application knows.
#[derive(Clone, Copy, Debug, PartialEq, Eq, Structural)]
pub enum ProviderKind {
    Ollama,
    OpenAI,
    Gemini,
    Groq,
}

impl ProviderKind {
    /// The provider's name as it appears in messages.
    pub open spec fn label_spec(self) -> &'static str {
        match self {
            ProviderKind::Ollama => "Ollama",
            ProviderKind::OpenAI => "OpenAI",
            ProviderKind::Gemini => "Gemini",
            ProviderKind::Groq => "Groq",
        }
    }

    /// The provider's name as it appears in messages.
    #[verifier::when_used_as_spec(label_spec)]
    pub fn label(self) -> (label: &'static str)
        ensures
            label == self.label_spec(),
    {
        match self {
            ProviderKind::Ollama => "Ollama",
            ProviderKind::OpenAI => "OpenAI",
            ProviderKind::Gemini => "Gemini",
            ProviderKind::Groq => "Groq",
        }
    }

    /// Whether requests to the provider carry an API key.
    pub open spec fn needs_api_key_spec(self) -> bool {
        self != ProviderKind::Ollama
    }

    /// Whether requests to the provider carry an API key.
    #[verifier::when_used_as_spec(needs_api_key_spec)]
    pub fn needs_api_key(self) -> (needed: bool)
        ensures
            needed == self.needs_api_key_spec(),
    {
        match self {
            ProviderKind::Ollama => false,
            _ => true,
        }
    }
}

/// The provider that a configured name stands for.
pub open spec fn kind_named(name: Seq<char>) -> Option<ProviderKind> {
    if name == "ollama"@ {
        Some(ProviderKind::Ollama)
    } else if name == "openai"@ {
        Some(ProviderKind::OpenAI)
    } else if name == "gemini"@ {
        Some(ProviderKind::Gemini)
    } else if name == "groq"@ {
        Some(ProviderKind::Groq)
    } else {
        None
    }
}

/// Looks up a provider by its configured name: `ollama`, `openai`, `gemini`
/// or `groq`, exactly so. Any other name stands for no provider.
pub fn provider_kind(name: &str) -> (kind: Option<ProviderKind>)
    ensures
        kind == kind_named(name@),
{
    if same_text(name, "ollama") {
        Some(ProviderKind::Ollama)
    } else if same_text(name, "openai") {
        Some(ProviderKind::OpenAI)
    } else if same_text(name, "gemini") {
        Some(ProviderKind::Gemini)
    } else if same_text(name, "groq") {
        Some(ProviderKind::Groq)
    } else {
        None
    }
}

/// The text of `given`, or of `fallback` when nothing is given.
pub open spec fn given_or(given: Option<&str>, fallback: &str) -> Seq<char> {
    match given {
        Some(text) => text@,
        None => fallback@,
    }
}

fn owned_or(given: Option<&str>, fallback: &str) -> (text: String)
    ensures
        text@ == given_or(given, fallback),
{
    match given {
        Some(text) => text.to_owned(),
        None => fallback.to_owned(),
    }
}

/// A locally running Ollama server.
#[derive(Debug, PartialEq, Eq)]
pub struct OllamaProvider {
    pub model: String,
    pub host: String,
}

impl OllamaProvider {
    /// The server at `host:port` with `model`; by default the server on this
    /// machine at port 11434, with the model `gemma3`.
    pub fn new(host: Option<String>, port: Option<u16>, model: Option<String>) -> (provider:
        OllamaProvider)
        ensures
            provider.host@ == stored_or_spec(host, OLLAMA_DEFAULT_HOST) + ":"@ + decimal_of(
                match port {
                    Some(p) => p as nat,
                    None => OLLAMA_DEFAULT_PORT as nat,
                },
            ),
            provider.model@ == stored_or_spec(model, OLLAMA_DEFAULT_MODEL),
    {
        let mut address = crate::settings::stored_or(host, OLLAMA_DEFAULT_HOST);
        let number = decimal(
            match port {
                Some(p) => p,
                None => OLLAMA_DEFAULT_PORT,
            },
        );
        address.append(":");
        address.append(number.as_str());
        OllamaProvider {
            model: crate::settings::stored_or(model, OLLAMA_DEFAULT_MODEL),
            host: address,
        }
    }

    /// Where completion requests go.
    pub fn endpoint(&self) -> (url: String)
        ensures
            url@ == self.host@ + OLLAMA_GENERATE_PATH@,
    {
        let mut url = self.host.clone();
        url.append(OLLAMA_GENERATE_PATH);
        url
    }
}

/// The OpenAI chat completion service.
#[derive(Debug, PartialEq, Eq)]
pub struct OpenAIProvider {
    pub api_key: String,
    pub model: String,
}

impl OpenAIProvider {
    /// The service with the given key and model; by default no key and the
    /// model `gpt-4.1-nano`.
    pub fn new(api_key: Option<&str>, model: Option<&str>) -> (provider: OpenAIProvider)
        ensures
            provider.api_key@ == given_or(api_key, ""),
            provider.model@ == given_or(model, OPENAI_DEFAULT_MODEL),
    {
        OpenAIProvider {
            api_key: owned_or(api_key, ""),
            model: owned_or(model, OPENAI_DEFAULT_MODEL),
        }
    }

    /// Where completion requests go.
    pub fn endpoint(&self) -> (url: String)
        ensures
            url@ == OPENAI_URL@,
    {
        OPENAI_URL.to_owned()
    }
}

/// The Groq chat completion service.
#[derive(Debug, PartialEq, Eq)]
pub struct GroqProvider {
    pub api_key: String,
    pub model: String,
}

impl GroqProvider {
    /// The service with the given key and model; by default no key and the
    /// model `llama-3.1-8b-instant`.
    pub fn new(api_key: Option<&str>, model: Option<&str>) -> (provider: GroqProvider)
        ensures
            provider.api_key@ == given_or(api_key, ""),
            provider.model@ == given_or(model, GROQ_DEFAULT_MODEL),
    {
        GroqProvider { api_key: owned_or(api_key, ""), model: owned_or(model, GROQ_DEFAULT_MODEL) }
    }

    /// Where completion requests go.
    pub fn endpoint(&self) -> (url: String)
        ensures
            url@ == GROQ_URL@,
    {
        GROQ_URL.to_owned()
    }
}

/// The Gemini content generation service.
#[derive(Debug, PartialEq, Eq)]
pub struct GeminiProvider {
    pub api_key: String,
    pub model: String,
}

impl GeminiProvider {
    /// The service with the given key and model; by default no key and the
    /// model `gemini-2.0-flash-lite`.
    pub fn new(api_key: Option<&str>, model: Option<&str>) -> (provider: GeminiProvider)
        ensures
            provider.api_key@ == given_or(api_key, ""),
            provider.model@ == given_or(model, GEMINI_DEFAULT_MODEL),
    {
        GeminiProvider {
            api_key: owned_or(api_key, ""),
            model: owned_or(model, GEMINI_DEFAULT_MODEL),
        }
    }

    /// Where completion requests go: the model's generate action, with the
    /// key as a query parameter.
    pub fn endpoint(&self) -> (url: String)
        ensures
            url@ == GEMINI_MODELS_URL@ + self.model@ + GEMINI_GENERATE_ACTION@ + self.api_key@,
    {
        let mut url = GEMINI_MODELS_URL.to_owned();
        url.append(self.model.as_str());
        url.append(GEMINI_GENERATE_ACTION);
        url.append(self.api_key.as_str());
        url
    }
}

/// A configured provider of any kind.
#[derive(Debug, PartialEq, Eq)]
pub enum ProviderEnum {
    OllamaProvider(OllamaProvider),
    OpenAIProvider(OpenAIProvider),
    GeminiProvider(GeminiProvider),
    GroqProvider(GroqProvider),
}

impl ProviderEnum {
    /// Which provider this is.
    pub open spec fn kind_spec(self) -> ProviderKind {
        match self {
            ProviderEnum::OllamaProvider(_) => ProviderKind::Ollama,
            ProviderEnum::OpenAIProvider(_) => ProviderKind::OpenAI,
            ProviderEnum::GeminiProvider(_) => ProviderKind::Gemini,
            ProviderEnum::GroqProvider(_) => ProviderKind::Groq,
        }
    }

    /// The model that requests name.
    pub open spec fn model_spec(self) -> Seq<char> {
        match self {
            ProviderEnum::OllamaProvider(p) => p.model@,
            ProviderEnum::OpenAIProvider(p) => p.model@,
            ProviderEnum::GeminiProvider(p) => p.model@,
            ProviderEnum::GroqProvider(p) => p.model@,
        }
    }

    /// The API key that requests carry; none for Ollama.
    pub open spec fn api_key_spec(self) -> Option<Seq<char>> {
        match self {
            ProviderEnum::OllamaProvider(_) => None,
            ProviderEnum::OpenAIProvider(p) => Some(p.api_key@),
            ProviderEnum::GeminiProvider(p) => Some(p.api_key@),
            ProviderEnum::GroqProvider(p) => Some(p.api_key@),
        }
    }

    /// Which provider this is.
    pub fn kind(&self) -> (kind: ProviderKind)
        ensures
            kind == self.kind_spec(),
    {
        match self {
            ProviderEnum::OllamaProvider(_) => ProviderKind::Ollama,
            ProviderEnum::OpenAIProvider(_) => ProviderKind::OpenAI,
            ProviderEnum::GeminiProvider(_) => ProviderKind::Gemini,
            ProviderEnum::GroqProvider(_) => ProviderKind::Groq,
        }
    }

    /// Where completion requests go.
    pub fn endpoint(&self) -> (url: String)
        ensures
            url@ == match *self {
                ProviderEnum::OllamaProvider(p) => p.host@ + OLLAMA_GENERATE_PATH@,
                ProviderEnum::OpenAIProvider(_) => OPENAI_URL@,
                ProviderEnum::GeminiProvider(p) => GEMINI_MODELS_URL@ + p.model@
                    + GEMINI_GENERATE_ACTION@ + p.api_key@,
                ProviderEnum::GroqProvider(_) => GROQ_URL@,
            },
    {
        match self {
            ProviderEnum::OllamaProvider(p) => p.endpoint(),
            ProviderEnum::OpenAIProvider(p) => p.endpoint(),
            ProviderEnum::GeminiProvider(p) => p.endpoint(),
            ProviderEnum::GroqProvider(p) => p.endpoint(),
        }
    }
}

/// Whether a provider can be set up for `provider` with `api_key`: the name
/// stands for a provider, and the key is there if that provider needs one.
pub open spec fn can_provide(provider: Seq<char>, api_key: Option<&str>) -> bool {
    kind_named(provider) matches Some(kind) && (kind.needs_api_key_spec() ==> api_key.is_some())
}

/// Sets up the provider that `provider` names, with `model` and, where the
/// provider needs one, the stored API key. Ollama runs on this machine at
/// its default address and ignores the key.
///
/// The name has to stand for a provider, and a key has to be given for a
/// provider that needs one: test the name with [`provider_kind`] and the
/// need with [`ProviderKind::needs_api_key`] first.
pub fn get_provider(provider: &str, model: &str, api_key: Option<&str>) -> (made: ProviderEnum)
    requires
        can_provide(provider@, api_key),
    ensures
        Some(made.kind_spec()) == kind_named(provider@),
        made.model_spec() == model@,
        made.api_key_spec() == if made.kind_spec().needs_api_key_spec() {
            Some(api_key.unwrap()@)
        } else {
            None
        },
        made matches ProviderEnum::OllamaProvider(o) ==> o.host@ == OLLAMA_DEFAULT_HOST@ + ":"@
            + decimal_of(OLLAMA_DEFAULT_PORT as nat),
{
    match (provider_kind(provider), api_key) {
        (Some(ProviderKind::Ollama), _) => ProviderEnum::OllamaProvider(
            OllamaProvider::new(None, None, Some(model.to_owned())),
        ),
        (Some(ProviderKind::OpenAI), Some(key)) => ProviderEnum::OpenAIProvider(
            OpenAIProvider::new(Some(key), Some(model)),
        ),
        (Some(ProviderKind::Gemini), Some(key)) => ProviderEnum::GeminiProvider(
            GeminiProvider::new(Some(key), Some(model)),
        ),
        (Some(ProviderKind::Groq), Some(key)) => ProviderEnum::GroqProvider(
            GroqProvider::new(Some(key), Some(model)),
        ),
        _ => unreached(),
    }
}

} // verus!
