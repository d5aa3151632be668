pub mod error;

use vstd::prelude::*;

use crate::text::{str_eq, string_of};

verus! {

/// The temperature handed to a model: the bit pattern of a single-precision
/// number, carried through configuration resolution without arithmetic.
#[derive(Clone, Copy, Debug, PartialEq, Eq)]
pub struct Temperature {
    pub bits: u32,
}

impl View for Temperature {
    type V = u32;

    open spec fn view(&self) -> u32 {
        self.bits
    }
}

/// 1.0
pub const DEFAULT_TEMPERATURE_BITS: u32 = 0x3f80_0000;

pub const DEFAULT_MAX_TOKENS: u32 = 1000;

pub const DEFAULT_STREAM: bool = false;

/// Responses are not cached unless a time to live is configured.
pub const DEFAULT_CACHE_TTL: u32 = 0;

pub const DEFAULT_SYSTEM: &'static str = "You are useful AI assistant. Give me brief answers. Do not use special formatting like markdown.";

/// The LLM providers that configuration can name.
#[derive(Clone, Copy, Debug, PartialEq, Eq)]
pub enum ProviderKind {
    Ollama,
    Anthropic,
    OpenAI,
    Google,
    OpenRouter,
}

/// The name under which a provider is configured and referred to.
pub open spec fn kind_name(k: ProviderKind) -> Seq<char> {
    match k {
        ProviderKind::Ollama => "ollama"@,
        ProviderKind::Anthropic => "anthropic"@,
        ProviderKind::OpenAI => "openai"@,
        ProviderKind::Google => "google"@,
        ProviderKind::OpenRouter => "openrouter"@,
    }
}

/// The provider's part of environment variable names.
pub open spec fn kind_env_key(k: ProviderKind) -> Seq<char> {
    match k {
        ProviderKind::Ollama => "OLLAMA"@,
        ProviderKind::Anthropic => "ANTHROPIC"@,
        ProviderKind::OpenAI => "OPENAI"@,
        ProviderKind::Google => "GOOGLE"@,
        ProviderKind::OpenRouter => "OPENROUTER"@,
    }
}

/// The provider named `s`, trying the names in the order ollama, anthropic,
/// openai, google, openrouter.
pub open spec fn kind_of_name(s: Seq<char>) -> Option<ProviderKind> {
    if s == "ollama"@ {
        Some(ProviderKind::Ollama)
    } else if s == "anthropic"@ {
        Some(ProviderKind::Anthropic)
    } else if s == "openai"@ {
        Some(ProviderKind::OpenAI)
    } else if s == "google"@ {
        Some(ProviderKind::Google)
    } else if s == "openrouter"@ {
        Some(ProviderKind::OpenRouter)
    } else {
        None
    }
}

/// Whether the provider takes an API key.
pub open spec fn has_api_key(k: ProviderKind) -> bool {
    k != ProviderKind::Ollama
}

/// Whether the provider takes an endpoint.
pub open spec fn has_endpoint(k: ProviderKind) -> bool {
    k == ProviderKind::Ollama || k == ProviderKind::OpenAI
}

impl ProviderKind {
    pub fn name(&self) -> (r: &'static str)
        ensures
            r@ == kind_name(*self),
    {
        match self {
            ProviderKind::Ollama => "ollama",
            ProviderKind::Anthropic => "anthropic",
            ProviderKind::OpenAI => "openai",
            ProviderKind::Google => "google",
            ProviderKind::OpenRouter => "openrouter",
        }
    }

    pub fn env_key(&self) -> (r: &'static str)
        ensures
            r@ == kind_env_key(*self),
    {
        match self {
            ProviderKind::Ollama => "OLLAMA",
            ProviderKind::Anthropic => "ANTHROPIC",
            ProviderKind::OpenAI => "OPENAI",
            ProviderKind::Google => "GOOGLE",
            ProviderKind::OpenRouter => "OPENROUTER",
        }
    }

    pub fn from_name(s: &str) -> (r: Option<ProviderKind>)
        ensures
            r == kind_of_name(s@),
    {
        if str_eq(s, "ollama") {
            Some(ProviderKind::Ollama)
        } else if str_eq(s, "anthropic") {
            Some(ProviderKind::Anthropic)
        } else if str_eq(s, "openai") {
            Some(ProviderKind::OpenAI)
        } else if str_eq(s, "google") {
            Some(ProviderKind::Google)
        } else if str_eq(s, "openrouter") {
            Some(ProviderKind::OpenRouter)
        } else {
            None
        }
    }

    pub fn has_api_key(&self) -> (r: bool)
        ensures
            r == has_api_key(*self),
    {
        match self {
            ProviderKind::Ollama => false,
            _ => true,
        }
    }

    pub fn has_endpoint(&self) -> (r: bool)
        ensures
            r == has_endpoint(*self),
    {
        match self {
            ProviderKind::Ollama | ProviderKind::OpenAI => true,
            _ => false,
        }
    }
}

/// The provider and model that a configuration resolves to.
#[derive(Debug, Clone, PartialEq, Eq)]
pub struct ModelInfo {
    pub provider: String,
    pub model: String,
}

pub struct ModelInfoView {
    pub provider: Seq<char>,
    pub model: Seq<char>,
}

impl View for ModelInfo {
    type V = ModelInfoView;

    open spec fn view(&self) -> ModelInfoView {
        ModelInfoView { provider: self.provider@, model: self.model@ }
    }
}

pub open spec fn opt_text(o: Option<String>) -> Option<Seq<char>> {
    match o {
        Some(s) => Some(s@),
        None => None,
    }
}

pub fn clone_opt_text(o: &Option<String>) -> (r: Option<String>)
    ensures
        opt_text(r) == opt_text(*o),
{
    match o {
        Some(s) => Some(string_of(s.as_str())),
        None => None,
    }
}

/// One provider's settings as written in the configuration file; the
/// provider-specific settings that a provider does not take are ignored.
#[derive(Debug, Default)]
pub struct Config {
    pub temperature: Option<Temperature>,
    pub system: Option<String>,
    pub max_tokens: Option<u32>,
    pub model: Option<String>,
    pub cache_ttl: Option<u32>,
    pub stream: Option<bool>,
    pub api_key: Option<String>,
    pub endpoint: Option<String>,
}

pub struct ConfigView {
    pub temperature: Option<u32>,
    pub system: Option<Seq<char>>,
    pub max_tokens: Option<u32>,
    pub model: Option<Seq<char>>,
    pub cache_ttl: Option<u32>,
    pub stream: Option<bool>,
    pub api_key: Option<Seq<char>>,
    pub endpoint: Option<Seq<char>>,
}

impl View for Config {
    type V = ConfigView;

    open spec fn view(&self) -> ConfigView {
        ConfigView {
            temperature: match self.temperature {
                Some(t) => Some(t.bits),
                None => None,
            },
            system: opt_text(self.system),
            max_tokens: self.max_tokens,
            model: opt_text(self.model),
            cache_ttl: self.cache_ttl,
            stream: self.stream,
            api_key: opt_text(self.api_key),
            endpoint: opt_text(self.endpoint),
        }
    }
}

/// A named sub-configuration of a provider (a variant).
#[derive(Debug)]
pub struct NamedConfig {
    pub name: String,
    pub config: Config,
}

/// A provider's own settings and its variants.
#[derive(Debug, Default)]
pub struct Providers {
    pub config: Config,
    pub named: Vec<NamedConfig>,
}

pub struct ProvidersView {
    pub config: ConfigView,
    pub named: Seq<(Seq<char>, ConfigView)>,
}

impl View for Providers {
    type V = ProvidersView;

    open spec fn view(&self) -> ProvidersView {
        ProvidersView {
            config: self.config@,
            named: self.named@.map_values(|n: NamedConfig| (n.name@, n.config@)),
        }
    }
}

/// The first variant named `name`.
pub open spec fn named_find(named: Seq<(Seq<char>, ConfigView)>, name: Seq<char>) -> Option<
    ConfigView,
>
    decreases named.len(),
{
    if named.len() == 0 {
        None
    } else {
        match named_find(named.drop_last(), name) {
            Some(c) => Some(c),
            None => if named.last().0 == name {
                Some(named.last().1)
            } else {
                None
            },
        }
    }
}

proof fn lemma_named_find_prefix(named: Seq<(Seq<char>, ConfigView)>, name: Seq<char>, k: int)
    requires
        0 <= k <= named.len(),
        named_find(named.take(k), name) is Some,
    ensures
        named_find(named, name) == named_find(named.take(k), name),
    decreases named.len(),
{
    if k < named.len() {
        assert(named.drop_last().take(k) =~= named.take(k));
        lemma_named_find_prefix(named.drop_last(), name, k);
    } else {
        assert(named.take(k) =~= named);
    }
}

impl Providers {
    /// The first variant named `name` (a `HashMap::get` on the configuration's
    /// table of variants).
    pub fn get_named(&self, name: &str) -> (r: Option<&Config>)
        ensures
            r matches Some(c) ==> named_find(self@.named, name@) == Some(c@),
            r is None ==> named_find(self@.named, name@) is None,
    {
        let mut i: usize = 0;
        while i < self.named.len()
            invariant
                i <= self.named@.len(),
                named_find(self@.named.take(i as int), name@) is None,
            decreases self.named@.len() - i,
        {
            proof {
                assert(self@.named.take(i + 1).drop_last() =~= self@.named.take(i as int));
            }
            if str_eq(self.named[i].name.as_str(), name) {
                proof {
                    lemma_named_find_prefix(self@.named, name@, i + 1);
                }
                return Some(&self.named[i].config);
            }
            i = i + 1;
        }
        proof {
            assert(self@.named.take(self@.named.len() as int) =~= self@.named);
        }
        None
    }
}

} // verus!
