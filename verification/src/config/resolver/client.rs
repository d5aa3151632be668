use vstd::prelude::*;

use crate::config::providers::error::{ToLLMBuilderError, ToModelInfoError};
use crate::config::providers::{
    has_api_key, has_endpoint, kind_name, opt_text, ModelInfo, ModelInfoView,
    ProviderKind, Temperature,
};
use crate::config::resolver::base::{model_info_of, ResolvedProviderConfig};
use crate::config::resolver::property::{PropView, ProviderResolution, ResolutionView};
use crate::text::string_of;

verus! {

/// What an LLM client is built from: the provider's backend, the sampling
/// settings that are configured, the endpoint where the provider takes one,
/// the API key and the model.
#[derive(Debug)]
pub struct LlmSettings {
    pub backend: ProviderKind,
    pub temperature: Option<Temperature>,
    pub system: Option<String>,
    pub max_tokens: Option<u32>,
    pub base_url: Option<String>,
    pub api_key: Option<String>,
    pub model: String,
}

pub struct LlmSettingsView {
    pub backend: ProviderKind,
    pub temperature: Option<u32>,
    pub system: Option<Seq<char>>,
    pub max_tokens: Option<u32>,
    pub base_url: Option<Seq<char>>,
    pub api_key: Option<Seq<char>>,
    pub model: Seq<char>,
}

impl View for LlmSettings {
    type V = LlmSettingsView;

    open spec fn view(&self) -> LlmSettingsView {
        LlmSettingsView {
            backend: self.backend,
            temperature: match self.temperature {
                Some(t) => Some(t.bits),
                None => None,
            },
            system: opt_text(self.system),
            max_tokens: self.max_tokens,
            base_url: opt_text(self.base_url),
            api_key: opt_text(self.api_key),
            model: self.model@,
        }
    }
}

pub open spec fn prop_value<V>(p: Option<PropView<V>>) -> Option<V> {
    match p {
        Some(q) => Some(q.value),
        None => None,
    }
}

/// Why no client could be built: the provider and the missing setting, or
/// the missing model.
pub enum ClientErrorView {
    Required(Seq<char>, Seq<char>),
    Model(Seq<char>),
}

/// The model and the client settings of a provider's resolved settings: the
/// model must be configured, and the API key where the provider takes one.
pub open spec fn client_spec(k: ProviderKind, r: ResolutionView) -> Result<
    (ModelInfoView, LlmSettingsView),
    ClientErrorView,
> {
    match r.globals.model {
        None => Err(ClientErrorView::Model("model"@)),
        Some(m) => if has_api_key(k) && r.api_key is None {
            Err(ClientErrorView::Required(kind_name(k), "api_key"@))
        } else {
            Ok(
                (
                    ModelInfoView { provider: kind_name(k), model: m.value },
                    LlmSettingsView {
                        backend: k,
                        temperature: prop_value(r.globals.temperature),
                        system: prop_value(r.globals.system),
                        max_tokens: prop_value(r.globals.max_tokens),
                        base_url: if has_endpoint(k) {
                            prop_value(r.endpoint)
                        } else {
                            None
                        },
                        api_key: if has_api_key(k) {
                            prop_value(r.api_key)
                        } else {
                            None
                        },
                        model: m.value,
                    },
                ),
            )
        },
    }
}

pub open spec fn client_view(r: Result<(ModelInfo, LlmSettings), ToLLMBuilderError>) -> Result<
    (ModelInfoView, LlmSettingsView),
    ClientErrorView,
> {
    match r {
        Ok(p) => Ok((p.0@, p.1@)),
        Err(ToLLMBuilderError::RequiredConfiguration(p, s)) => Err(
            ClientErrorView::Required(p@, s@),
        ),
        Err(ToLLMBuilderError::ModelError(ToModelInfoError::RequiredConfiguration(s))) => Err(
            ClientErrorView::Model(s@),
        ),
    }
}

fn opt_prop_text(p: &Option<crate::config::resolver::property::ResolvedProperty<String>>) -> (r: Option<String>)
    ensures
        opt_text(r) == prop_value(
            match p {
                Some(q) => Some(q@),
                None => None,
            },
        ),
{
    match p {
        Some(q) => Some(string_of(q.value.as_str())),
        None => None,
    }
}

/// The model and the client settings of a provider's resolved settings.
pub fn client_settings(kind: ProviderKind, r: &ProviderResolution) -> (c: Result<
    (ModelInfo, LlmSettings),
    ToLLMBuilderError,
>)
    ensures
        client_view(c) == client_spec(kind, r@),
{
    let model_info = match model_info_of(kind, r) {
        Ok(m) => m,
        Err(e) => {
            proof {
                reveal_strlit("model");
            }
            return Err(ToLLMBuilderError::ModelError(e));
        },
    };
    if kind.has_api_key() && r.api_key.is_none() {
        return Err(ToLLMBuilderError::RequiredConfiguration(kind.name(), "api_key"));
    }
    let model = match &r.globals.model {
        Some(m) => string_of(m.value.as_str()),
        None => string_of(""),
    };
    let settings = LlmSettings {
        backend: kind,
        temperature: match &r.globals.temperature {
            Some(t) => Some(t.value),
            None => None,
        },
        system: opt_prop_text(&r.globals.system),
        max_tokens: match &r.globals.max_tokens {
            Some(t) => Some(t.value),
            None => None,
        },
        base_url: if kind.has_endpoint() {
            opt_prop_text(&r.endpoint)
        } else {
            None
        },
        api_key: if kind.has_api_key() {
            opt_prop_text(&r.api_key)
        } else {
            None
        },
        model,
    };
    Ok((model_info, settings))
}

impl ResolvedProviderConfig {
    /// The model and the client settings of the resolved provider.
    pub fn client(&self) -> (c: Result<(ModelInfo, LlmSettings), ToLLMBuilderError>)
        ensures
            client_view(c) == client_spec(self@.kind, self@.settings),
    {
        match self {
            ResolvedProviderConfig::Ollama(r) => client_settings(ProviderKind::Ollama, r),
            ResolvedProviderConfig::Anthropic(r) => client_settings(ProviderKind::Anthropic, r),
            ResolvedProviderConfig::OpenAI(r) => client_settings(ProviderKind::OpenAI, r),
            ResolvedProviderConfig::Google(r) => client_settings(ProviderKind::Google, r),
            ResolvedProviderConfig::OpenRouter(r) => client_settings(ProviderKind::OpenRouter, r),
        }
    }
}

} // verus!
