//! Which service a chat request goes to: the endpoint, the credential, the
//! model and the protocol dialect ("adapter") spoken with it.

use crate::text::same_text;
use vstd::prelude::*;
use vstd::string::*;

verus! {

/// The protocol dialect spoken with a language-model endpoint.
#[derive(Clone, Copy, Debug, PartialEq, Eq, Structural)]
pub enum AdapterKind {
    OpenAI,
    Anthropic,
    Ollama,
    Gemini,
    Groq,
    Cohere,
}

/// The adapter that a name stands for, if it is one of the six names
/// `openai`, `anthropic`, `ollama`, `gemini`, `groq`, `cohere`. Letter case
/// counts.
pub open spec fn known_adapter(name: Seq<char>) -> Option<AdapterKind> {
    if name == "openai"@ {
        Some(AdapterKind::OpenAI)
    } else if name == "anthropic"@ {
        Some(AdapterKind::Anthropic)
    } else if name == "ollama"@ {
        Some(AdapterKind::Ollama)
    } else if name == "gemini"@ {
        Some(AdapterKind::Gemini)
    } else if name == "groq"@ {
        Some(AdapterKind::Groq)
    } else if name == "cohere"@ {
        Some(AdapterKind::Cohere)
    } else {
        None
    }
}

/// The adapter used where a name stands for none.
pub open spec fn default_adapter() -> AdapterKind {
    AdapterKind::OpenAI
}

/// The adapter that a configuration with this adapter name talks through:
/// the one the name stands for, else the default.
pub open spec fn resolve_adapter(name: Seq<char>) -> AdapterKind {
    match known_adapter(name) {
        Some(kind) => kind,
        None => default_adapter(),
    }
}

/// Every name other than the six known ones resolves to the default
/// adapter.
pub proof fn lemma_unknown_adapter_is_default(name: Seq<char>)
    requires
        name != "openai"@,
        name != "anthropic"@,
        name != "ollama"@,
        name != "gemini"@,
        name != "groq"@,
        name != "cohere"@,
    ensures
        known_adapter(name) is None,
        resolve_adapter(name) == AdapterKind::OpenAI,
{
}

/// The adapter for `s`. A name that is not known gives `AdapterKind::OpenAI`;
/// no name is an error.
pub fn adapter_from_string(s: &str) -> (kind: AdapterKind)
    ensures
        kind == resolve_adapter(s@),
        known_adapter(s@) is None ==> kind == AdapterKind::OpenAI,
{
    if same_text(s, "openai") {
        AdapterKind::OpenAI
    } else if same_text(s, "anthropic") {
        AdapterKind::Anthropic
    } else if same_text(s, "ollama") {
        AdapterKind::Ollama
    } else if same_text(s, "gemini") {
        AdapterKind::Gemini
    } else if same_text(s, "groq") {
        AdapterKind::Groq
    } else if same_text(s, "cohere") {
        AdapterKind::Cohere
    } else {
        AdapterKind::OpenAI
    }
}

/// A configuration as a mathematical value.
pub struct ModelConfigView {
    pub url: Seq<char>,
    pub token: Seq<char>,
    pub model: Seq<char>,
    pub adapter: Seq<char>,
}

impl ModelConfigView {
    /// The configuration a session starts with: the public OpenAI endpoint,
    /// no credential, the model `gpt-4o-mini`, the adapter `openai`.
    pub open spec fn initial() -> ModelConfigView {
        ModelConfigView {
            url: "https://api.openai.com/v1"@,
            token: Seq::empty(),
            model: "gpt-4o-mini"@,
            adapter: "openai"@,
        }
    }

    /// The adapter this configuration talks through.
    pub open spec fn adapter_kind(self) -> AdapterKind {
        resolve_adapter(self.adapter)
    }
}

/// The line that confirms a new configuration.
pub open spec fn confirmation(url: Seq<char>, model: Seq<char>, adapter: Seq<char>) -> Seq<char> {
    "Configured: adapter="@ + adapter + ", model="@ + model + ", url="@ + url
}

/// The target of chat requests. Its four fields change only together,
/// through `configure_model`.
#[derive(Debug, PartialEq, Eq)]
pub struct ModelConfig {
    url: String,
    token: String,
    model: String,
    adapter: String,
}

impl View for ModelConfig {
    type V = ModelConfigView;

    closed spec fn view(&self) -> ModelConfigView {
        ModelConfigView {
            url: self.url@,
            token: self.token@,
            model: self.model@,
            adapter: self.adapter@,
        }
    }
}

impl Default for ModelConfig {
    fn default() -> (config: Self)
        ensures
            config@ == ModelConfigView::initial(),
    {
        ModelConfig {
            url: String::from_str("https://api.openai.com/v1"),
            token: String::new(),
            model: String::from_str("gpt-4o-mini"),
            adapter: String::from_str("openai"),
        }
    }
}

impl ModelConfig {
    /// The endpoint's address.
    pub fn url(&self) -> (url: &String)
        ensures
            url@ == self@.url,
    {
        &self.url
    }

    /// The credential sent with a request.
    pub fn token(&self) -> (token: &String)
        ensures
            token@ == self@.token,
    {
        &self.token
    }

    /// The model's name.
    pub fn model(&self) -> (model: &String)
        ensures
            model@ == self@.model,
    {
        &self.model
    }

    /// The adapter's name, as it was given.
    pub fn adapter(&self) -> (adapter: &String)
        ensures
            adapter@ == self@.adapter,
    {
        &self.adapter
    }

    /// A copy of the whole configuration, which later changes to `self` do
    /// not reach.
    pub fn snapshot(&self) -> (copy: ModelConfig)
        ensures
            copy@ == self@,
    {
        ModelConfig {
            url: self.url.clone(),
            token: self.token.clone(),
            model: self.model.clone(),
            adapter: self.adapter.clone(),
        }
    }
}

/// Replaces the whole configuration and returns the line that confirms it.
/// Nothing of the old configuration is left, whatever it was, and no input
/// is refused: an adapter name that is not known is kept as given and
/// resolves to the default adapter when a request is made.
pub fn configure_model(
    config: &mut ModelConfig,
    url: String,
    token: String,
    model: String,
    adapter: String,
) -> (notice: String)
    ensures
        final(config)@ == (ModelConfigView {
            url: url@,
            token: token@,
            model: model@,
            adapter: adapter@,
        }),
        notice@ == confirmation(url@, model@, adapter@),
{
    let mut notice = String::from_str("Configured: adapter=");
    notice.append(adapter.as_str());
    notice.append(", model=");
    notice.append(model.as_str());
    notice.append(", url=");
    notice.append(url.as_str());
    *config = ModelConfig { url, token, model, adapter };
    notice
}

/// A configuration is never found half replaced. `configure_model` holds
/// it exclusively while it writes, so a reader finds the state before the
/// call or the state after it; either way the reader sees all four fields
/// of the old state or all four of the new one, never some of each.
pub proof fn lemma_configuration_is_replaced_whole(
    before: ModelConfigView,
    after: ModelConfigView,
    seen: ModelConfigView,
)
    requires
        seen == before || seen == after,
    ensures
        ({
            &&& seen.url == before.url
            &&& seen.token == before.token
            &&& seen.model == before.model
            &&& seen.adapter == before.adapter
        }) || ({
            &&& seen.url == after.url
            &&& seen.token == after.token
            &&& seen.model == after.model
            &&& seen.adapter == after.adapter
        }),
{
}

} // verus!
