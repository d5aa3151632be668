use vstd::prelude::*;

use crate::config::appconfig::{GlobalProviderProperties, GlobalProviderPropertiesView};
use crate::config::environment::{
    env_find,
    parse_bool,
    parse_bool_spec,
    parse_u32,
    parse_u32_spec,
    EnvVarView,
    Environment,
};
use crate::config::providers::{
    has_api_key,
    has_endpoint,
    kind_env_key,
    Config,
    ConfigView,
    ProviderKind,
    Temperature,
    DEFAULT_CACHE_TTL,
    DEFAULT_STREAM,
    DEFAULT_SYSTEM,
    DEFAULT_TEMPERATURE_BITS,
};
use crate::text::{push_str, string_of};

verus! {

/// Where a resolved setting came from.
#[derive(Debug, PartialEq, Eq)]
pub enum ResolvedPropertySource {
    /// A group, and the member name it was referred to by.
    Group(String, String),
    Variant(String),
    Base(String),
    /// The environment variable it was read from.
    Env(String),
    Default,
    Globals,
    Dotprompt(String),
    Input(String),
    Inputs,
    Other(String),
}

pub enum SourceView {
    Group(Seq<char>, Seq<char>),
    Variant(Seq<char>),
    Base(Seq<char>),
    Env(Seq<char>),
    Default,
    Globals,
    Dotprompt(Seq<char>),
    Input(Seq<char>),
    Inputs,
    Other(Seq<char>),
}

impl View for ResolvedPropertySource {
    type V = SourceView;

    open spec fn view(&self) -> SourceView {
        match self {
            ResolvedPropertySource::Group(g, m) => SourceView::Group(g@, m@),
            ResolvedPropertySource::Variant(v) => SourceView::Variant(v@),
            ResolvedPropertySource::Base(b) => SourceView::Base(b@),
            ResolvedPropertySource::Env(e) => SourceView::Env(e@),
            ResolvedPropertySource::Default => SourceView::Default,
            ResolvedPropertySource::Globals => SourceView::Globals,
            ResolvedPropertySource::Dotprompt(d) => SourceView::Dotprompt(d@),
            ResolvedPropertySource::Input(i) => SourceView::Input(i@),
            ResolvedPropertySource::Inputs => SourceView::Inputs,
            ResolvedPropertySource::Other(o) => SourceView::Other(o@),
        }
    }
}

impl ResolvedPropertySource {
    pub fn duplicate(&self) -> (r: Self)
        ensures
            r@ == self@,
    {
        match self {
            ResolvedPropertySource::Group(g, m) => ResolvedPropertySource::Group(
                string_of(g.as_str()),
                string_of(m.as_str()),
            ),
            ResolvedPropertySource::Variant(v) => ResolvedPropertySource::Variant(
                string_of(v.as_str()),
            ),
            ResolvedPropertySource::Base(b) => ResolvedPropertySource::Base(string_of(b.as_str())),
            ResolvedPropertySource::Env(e) => ResolvedPropertySource::Env(string_of(e.as_str())),
            ResolvedPropertySource::Default => ResolvedPropertySource::Default,
            ResolvedPropertySource::Globals => ResolvedPropertySource::Globals,
            ResolvedPropertySource::Dotprompt(d) => ResolvedPropertySource::Dotprompt(
                string_of(d.as_str()),
            ),
            ResolvedPropertySource::Input(i) => ResolvedPropertySource::Input(
                string_of(i.as_str()),
            ),
            ResolvedPropertySource::Inputs => ResolvedPropertySource::Inputs,
            ResolvedPropertySource::Other(o) => ResolvedPropertySource::Other(
                string_of(o.as_str()),
            ),
        }
    }
}

/// A setting's value and where it came from.
#[derive(Debug, PartialEq, Eq)]
pub struct ResolvedProperty<T> {
    pub source: ResolvedPropertySource,
    pub value: T,
}

pub struct PropView<V> {
    pub source: SourceView,
    pub value: V,
}

impl<T: View> View for ResolvedProperty<T> {
    type V = PropView<T::V>;

    open spec fn view(&self) -> PropView<T::V> {
        PropView { source: self.source@, value: self.value@ }
    }
}

pub open spec fn opt_prop<T: View>(o: Option<ResolvedProperty<T>>) -> Option<PropView<T::V>> {
    match o {
        Some(p) => Some(p@),
        None => None,
    }
}

/// `new` where it holds a value, else `old` (the `or` of one layer over
/// another).
pub open spec fn or_opt<V>(new: Option<V>, old: Option<V>) -> Option<V> {
    if new is Some {
        new
    } else {
        old
    }
}

/// A value tagged with a source, where there is a value.
pub open spec fn prop_of<V>(o: Option<V>, source: SourceView) -> Option<PropView<V>> {
    match o {
        Some(v) => Some(PropView { source, value: v }),
        None => None,
    }
}

pub fn clone_prop_copy<T: Copy + View>(p: &ResolvedProperty<T>) -> (r: ResolvedProperty<T>)
    ensures
        r@ == p@,
{
    ResolvedProperty { source: p.source.duplicate(), value: p.value }
}

pub fn clone_prop_text(p: &ResolvedProperty<String>) -> (r: ResolvedProperty<String>)
    ensures
        r@ == p@,
{
    ResolvedProperty { source: p.source.duplicate(), value: string_of(p.value.as_str()) }
}

pub fn clone_opt_prop_copy<T: Copy + View>(o: &Option<ResolvedProperty<T>>) -> (r: Option<
    ResolvedProperty<T>,
>)
    ensures
        opt_prop(r) == opt_prop(*o),
{
    match o {
        Some(p) => Some(clone_prop_copy(p)),
        None => None,
    }
}

pub fn clone_opt_prop_text(o: &Option<ResolvedProperty<String>>) -> (r: Option<
    ResolvedProperty<String>,
>)
    ensures
        opt_prop(r) == opt_prop(*o),
{
    match o {
        Some(p) => Some(clone_prop_text(p)),
        None => None,
    }
}

fn tag_copy<T: Copy + View>(o: Option<T>, source: &ResolvedPropertySource) -> (r: Option<
    ResolvedProperty<T>,
>)
    ensures
        opt_prop(r) == prop_of(
            match o {
                Some(v) => Some(v@),
                None => None,
            },
            source@,
        ),
{
    match o {
        Some(v) => Some(ResolvedProperty { source: source.duplicate(), value: v }),
        None => None,
    }
}

fn tag_text(o: &Option<String>, source: &ResolvedPropertySource) -> (r: Option<
    ResolvedProperty<String>,
>)
    ensures
        opt_prop(r) == prop_of(crate::config::providers::opt_text(*o), source@),
{
    match o {
        Some(v) => Some(ResolvedProperty { source: source.duplicate(), value: string_of(v.as_str()) }),
        None => None,
    }
}

/// The settings that apply to every provider, each with its source.
#[derive(Debug, PartialEq, Eq, Default)]
pub struct ResolvedGlobalProperties {
    pub temperature: Option<ResolvedProperty<Temperature>>,
    pub max_tokens: Option<ResolvedProperty<u32>>,
    pub model: Option<ResolvedProperty<String>>,
    pub system: Option<ResolvedProperty<String>>,
    pub cache_ttl: Option<ResolvedProperty<u32>>,
    pub stream: Option<ResolvedProperty<bool>>,
}

pub struct GlobalsView {
    pub temperature: Option<PropView<u32>>,
    pub max_tokens: Option<PropView<u32>>,
    pub model: Option<PropView<Seq<char>>>,
    pub system: Option<PropView<Seq<char>>>,
    pub cache_ttl: Option<PropView<u32>>,
    pub stream: Option<PropView<bool>>,
}

impl View for ResolvedGlobalProperties {
    type V = GlobalsView;

    open spec fn view(&self) -> GlobalsView {
        GlobalsView {
            temperature: opt_prop(self.temperature),
            max_tokens: opt_prop(self.max_tokens),
            model: opt_prop(self.model),
            system: opt_prop(self.system),
            cache_ttl: opt_prop(self.cache_ttl),
            stream: opt_prop(self.stream),
        }
    }
}

pub open spec fn opt_globals(o: Option<ResolvedGlobalProperties>) -> Option<GlobalsView> {
    match o {
        Some(g) => Some(g@),
        None => None,
    }
}

/// The global settings of a configuration, each tagged with `source`.
pub open spec fn globals_from_spec(g: GlobalProviderPropertiesView, source: SourceView) -> GlobalsView {
    GlobalsView {
        temperature: prop_of(g.temperature, source),
        max_tokens: prop_of(g.max_tokens, source),
        model: prop_of(g.model, source),
        system: prop_of(g.system, source),
        cache_ttl: prop_of(g.cache_ttl, source),
        stream: prop_of(g.stream, source),
    }
}

impl ResolvedGlobalProperties {
    /// Tags each setting of `props` with `source`.
    pub fn from_properties(props: &GlobalProviderProperties, source: ResolvedPropertySource) -> (r:
        Self)
        ensures
            r@ == globals_from_spec(props@, source@),
    {
        ResolvedGlobalProperties {
            temperature: tag_copy(props.temperature, &source),
            max_tokens: tag_copy(props.max_tokens, &source),
            model: tag_text(&props.model, &source),
            system: tag_text(&props.system, &source),
            cache_ttl: tag_copy(props.cache_ttl, &source),
            stream: tag_copy(props.stream, &source),
        }
    }

    pub fn duplicate(&self) -> (r: Self)
        ensures
            r@ == self@,
    {
        ResolvedGlobalProperties {
            temperature: clone_opt_prop_copy(&self.temperature),
            max_tokens: clone_opt_prop_copy(&self.max_tokens),
            model: clone_opt_prop_text(&self.model),
            system: clone_opt_prop_text(&self.system),
            cache_ttl: clone_opt_prop_copy(&self.cache_ttl),
            stream: clone_opt_prop_copy(&self.stream),
        }
    }
}

/// A provider's settings after resolution: the global ones and the
/// provider-specific ones, each with its source.
#[derive(Debug, PartialEq, Eq)]
pub struct ProviderResolution {
    pub globals: ResolvedGlobalProperties,
    pub api_key: Option<ResolvedProperty<String>>,
    pub endpoint: Option<ResolvedProperty<String>>,
}

pub struct ResolutionView {
    pub globals: GlobalsView,
    pub api_key: Option<PropView<Seq<char>>>,
    pub endpoint: Option<PropView<Seq<char>>>,
}

impl View for ProviderResolution {
    type V = ResolutionView;

    open spec fn view(&self) -> ResolutionView {
        ResolutionView {
            globals: self.globals@,
            api_key: opt_prop(self.api_key),
            endpoint: opt_prop(self.endpoint),
        }
    }
}

// ---------------------------------------------------------------------------
// Environment variables as settings.

/// A text setting read from the environment variable `name`.
pub open spec fn env_text(env: Seq<EnvVarView>, name: Seq<char>) -> Option<PropView<Seq<char>>> {
    match env_find(env, name) {
        Some(v) => Some(PropView { source: SourceView::Env(name), value: v.value }),
        None => None,
    }
}

/// A number setting read from the environment variable `name`; a value that
/// does not read as a number is no setting.
pub open spec fn env_u32(env: Seq<EnvVarView>, name: Seq<char>) -> Option<PropView<u32>> {
    match env_find(env, name) {
        Some(v) => match parse_u32_spec(v.value) {
            Some(n) => Some(PropView { source: SourceView::Env(name), value: n }),
            None => None,
        },
        None => None,
    }
}

/// A flag read from the environment variable `name`.
pub open spec fn env_bool(env: Seq<EnvVarView>, name: Seq<char>) -> Option<PropView<bool>> {
    match env_find(env, name) {
        Some(v) => match parse_bool_spec(v.value) {
            Some(b) => Some(PropView { source: SourceView::Env(name), value: b }),
            None => None,
        },
        None => None,
    }
}

/// A temperature read from the environment variable `name`.
pub open spec fn env_temperature(env: Seq<EnvVarView>, name: Seq<char>) -> Option<PropView<u32>> {
    match env_find(env, name) {
        Some(v) => match v.float_bits {
            Some(b) => Some(PropView { source: SourceView::Env(name), value: b }),
            None => None,
        },
        None => None,
    }
}

fn env_name(prefix: &str, key: &str) -> (r: String)
    ensures
        r@ == prefix@ + key@,
{
    let mut r = string_of(prefix);
    push_str(&mut r, key);
    r
}

fn read_text(env: &Environment, name: String) -> (r: Option<ResolvedProperty<String>>)
    ensures
        opt_prop(r) == env_text(env@, name@),
{
    match env.find(name.as_str()) {
        Some(v) => Some(
            ResolvedProperty {
                source: ResolvedPropertySource::Env(name),
                value: string_of(v.value.as_str()),
            },
        ),
        None => None,
    }
}

fn read_u32(env: &Environment, name: String) -> (r: Option<ResolvedProperty<u32>>)
    ensures
        opt_prop(r) == env_u32(env@, name@),
{
    match env.find(name.as_str()) {
        Some(v) => match parse_u32(v.value.as_str()) {
            Some(n) => Some(ResolvedProperty { source: ResolvedPropertySource::Env(name), value: n }),
            None => None,
        },
        None => None,
    }
}

fn read_bool(env: &Environment, name: String) -> (r: Option<ResolvedProperty<bool>>)
    ensures
        opt_prop(r) == env_bool(env@, name@),
{
    match env.find(name.as_str()) {
        Some(v) => match parse_bool(v.value.as_str()) {
            Some(b) => Some(ResolvedProperty { source: ResolvedPropertySource::Env(name), value: b }),
            None => None,
        },
        None => None,
    }
}

fn read_temperature(env: &Environment, name: String) -> (r: Option<ResolvedProperty<Temperature>>)
    ensures
        opt_prop(r) == env_temperature(env@, name@),
{
    match env.find(name.as_str()) {
        Some(v) => match v.float_bits {
            Some(b) => Some(
                ResolvedProperty {
                    source: ResolvedPropertySource::Env(name),
                    value: Temperature { bits: b },
                },
            ),
            None => None,
        },
        None => None,
    }
}

// ---------------------------------------------------------------------------
// The layers of resolution.

/// Prefix of the environment variables that hold settings for all providers.
pub open spec fn providers_env_prefix() -> Seq<char> {
    "PROMPTCMD_PROVIDERS_"@
}

/// Prefix of the environment variables that hold one provider's settings.
pub open spec fn provider_env_prefix(k: ProviderKind) -> Seq<char> {
    "PROMPTCMD_"@ + kind_env_key(k) + "_"@
}

/// Prefix of the environment variables that hold one variant's settings,
/// given the variant's name in upper case.
pub open spec fn variant_env_prefix(k: ProviderKind, upper_name: Seq<char>) -> Seq<char> {
    provider_env_prefix(k) + upper_name + "_"@
}

/// Settings read from the environment variables `prefix` + setting name take
/// the place of those below them; a provider reads only the provider-specific
/// settings that it takes.
pub open spec fn with_env(r: ResolutionView, env: Seq<EnvVarView>, prefix: Seq<char>, k: ProviderKind) -> ResolutionView {
    ResolutionView {
        globals: GlobalsView {
            temperature: or_opt(env_temperature(env, prefix + "TEMPERATURE"@), r.globals.temperature),
            max_tokens: or_opt(env_u32(env, prefix + "MAX_TOKENS"@), r.globals.max_tokens),
            model: or_opt(env_text(env, prefix + "MODEL"@), r.globals.model),
            system: or_opt(env_text(env, prefix + "SYSTEM"@), r.globals.system),
            cache_ttl: or_opt(env_u32(env, prefix + "CACHE_TTL"@), r.globals.cache_ttl),
            stream: or_opt(env_bool(env, prefix + "STREAM"@), r.globals.stream),
        },
        api_key: if has_api_key(k) {
            or_opt(env_text(env, prefix + "API_KEY"@), r.api_key)
        } else {
            r.api_key
        },
        endpoint: if has_endpoint(k) {
            or_opt(env_text(env, prefix + "ENDPOINT"@), r.endpoint)
        } else {
            r.endpoint
        },
    }
}

/// Each global setting that `g` holds takes the place of the one below.
pub open spec fn with_globals(r: ResolutionView, g: Option<GlobalsView>) -> ResolutionView {
    match g {
        None => r,
        Some(g) => ResolutionView {
            globals: GlobalsView {
                temperature: or_opt(g.temperature, r.globals.temperature),
                max_tokens: or_opt(g.max_tokens, r.globals.max_tokens),
                model: or_opt(g.model, r.globals.model),
                system: or_opt(g.system, r.globals.system),
                cache_ttl: or_opt(g.cache_ttl, r.globals.cache_ttl),
                stream: or_opt(g.stream, r.globals.stream),
            },
            ..r
        },
    }
}

/// Each setting that `o` holds takes the place of the one below.
pub open spec fn with_override(r: ResolutionView, o: ResolutionView) -> ResolutionView {
    ResolutionView {
        globals: GlobalsView {
            temperature: or_opt(o.globals.temperature, r.globals.temperature),
            max_tokens: or_opt(o.globals.max_tokens, r.globals.max_tokens),
            model: or_opt(o.globals.model, r.globals.model),
            system: or_opt(o.globals.system, r.globals.system),
            cache_ttl: or_opt(o.globals.cache_ttl, r.globals.cache_ttl),
            stream: or_opt(o.globals.stream, r.globals.stream),
        },
        api_key: or_opt(o.api_key, r.api_key),
        endpoint: or_opt(o.endpoint, r.endpoint),
    }
}

/// A model, where one is given, takes the place of the one below.
pub open spec fn with_model(r: ResolutionView, m: Option<PropView<Seq<char>>>) -> ResolutionView {
    ResolutionView {
        globals: GlobalsView { model: or_opt(m, r.globals.model), ..r.globals },
        ..r
    }
}

pub open spec fn empty_resolution() -> ResolutionView {
    ResolutionView {
        globals: GlobalsView {
            temperature: None,
            max_tokens: None,
            model: None,
            system: None,
            cache_ttl: None,
            stream: None,
        },
        api_key: None,
        endpoint: None,
    }
}

/// The settings that hold when nothing else is configured.
pub open spec fn defaults_resolution() -> ResolutionView {
    ResolutionView {
        globals: GlobalsView {
            temperature: Some(PropView { source: SourceView::Default, value: DEFAULT_TEMPERATURE_BITS }),
            max_tokens: None,
            model: None,
            system: Some(PropView { source: SourceView::Default, value: DEFAULT_SYSTEM@ }),
            cache_ttl: Some(PropView { source: SourceView::Default, value: DEFAULT_CACHE_TTL }),
            stream: Some(PropView { source: SourceView::Default, value: DEFAULT_STREAM }),
        },
        api_key: None,
        endpoint: None,
    }
}

/// The settings of a provider's table, each tagged with `source`; a provider
/// takes only the provider-specific settings that it has.
pub open spec fn config_resolution(c: ConfigView, source: SourceView, k: ProviderKind) -> ResolutionView {
    ResolutionView {
        globals: GlobalsView {
            temperature: prop_of(c.temperature, source),
            max_tokens: prop_of(c.max_tokens, source),
            model: prop_of(c.model, source),
            system: prop_of(c.system, source),
            cache_ttl: prop_of(c.cache_ttl, source),
            stream: prop_of(c.stream, source),
        },
        api_key: if has_api_key(k) {
            prop_of(c.api_key, source)
        } else {
            None
        },
        endpoint: if has_endpoint(k) {
            prop_of(c.endpoint, source)
        } else {
            None
        },
    }
}

/// Builds a provider's resolved settings layer by layer, each layer taking the
/// place of the ones below it where it holds a setting.
pub struct ResolvedProviderConfigBuilder {
    pub temperature: Option<ResolvedProperty<Temperature>>,
    pub max_tokens: Option<ResolvedProperty<u32>>,
    pub model: Option<ResolvedProperty<String>>,
    pub system: Option<ResolvedProperty<String>>,
    pub cache_ttl: Option<ResolvedProperty<u32>>,
    pub stream: Option<ResolvedProperty<bool>>,
    pub api_key: Option<ResolvedProperty<String>>,
    pub endpoint: Option<ResolvedProperty<String>>,
}

impl View for ResolvedProviderConfigBuilder {
    type V = ResolutionView;

    open spec fn view(&self) -> ResolutionView {
        ResolutionView {
            globals: GlobalsView {
                temperature: opt_prop(self.temperature),
                max_tokens: opt_prop(self.max_tokens),
                model: opt_prop(self.model),
                system: opt_prop(self.system),
                cache_ttl: opt_prop(self.cache_ttl),
                stream: opt_prop(self.stream),
            },
            api_key: opt_prop(self.api_key),
            endpoint: opt_prop(self.endpoint),
        }
    }
}

fn or_prop<T>(new: Option<ResolvedProperty<T>>, old: Option<ResolvedProperty<T>>) -> (r: Option<
    ResolvedProperty<T>,
>)
    ensures
        r == (if new is Some {
            new
        } else {
            old
        }),
{
    match new {
        Some(p) => Some(p),
        None => old,
    }
}

impl ResolvedProviderConfigBuilder {
    pub fn new() -> (r: Self)
        ensures
            r@ == empty_resolution(),
    {
        ResolvedProviderConfigBuilder {
            temperature: None,
            max_tokens: None,
            model: None,
            system: None,
            cache_ttl: None,
            stream: None,
            api_key: None,
            endpoint: None,
        }
    }

    pub fn from_defaults() -> (r: Self)
        ensures
            r@ == defaults_resolution(),
    {
        ResolvedProviderConfigBuilder {
            temperature: Some(
                ResolvedProperty {
                    source: ResolvedPropertySource::Default,
                    value: Temperature { bits: DEFAULT_TEMPERATURE_BITS },
                },
            ),
            max_tokens: None,
            model: None,
            system: Some(
                ResolvedProperty {
                    source: ResolvedPropertySource::Default,
                    value: string_of(DEFAULT_SYSTEM),
                },
            ),
            cache_ttl: Some(
                ResolvedProperty { source: ResolvedPropertySource::Default, value: DEFAULT_CACHE_TTL },
            ),
            stream: Some(
                ResolvedProperty { source: ResolvedPropertySource::Default, value: DEFAULT_STREAM },
            ),
            api_key: None,
            endpoint: None,
        }
    }

    /// The settings of a provider's table, tagged with `source`.
    pub fn from_config(config: &Config, source: &ResolvedPropertySource, kind: ProviderKind) -> (r:
        Self)
        ensures
            r@ == config_resolution(config@, source@, kind),
    {
        ResolvedProviderConfigBuilder {
            temperature: tag_copy(config.temperature, source),
            max_tokens: tag_copy(config.max_tokens, source),
            model: tag_text(&config.model, source),
            system: tag_text(&config.system, source),
            cache_ttl: tag_copy(config.cache_ttl, source),
            stream: tag_copy(config.stream, source),
            api_key: if kind.has_api_key() {
                tag_text(&config.api_key, source)
            } else {
                None
            },
            endpoint: if kind.has_endpoint() {
                tag_text(&config.endpoint, source)
            } else {
                None
            },
        }
    }

    fn apply_env_with_prefix(self, env: &Environment, prefix: &str, kind: ProviderKind) -> (r: Self)
        ensures
            r@ == with_env(self@, env@, prefix@, kind),
    {
        let temperature = or_prop(
            read_temperature(env, env_name(prefix, "TEMPERATURE")),
            self.temperature,
        );
        let max_tokens = or_prop(read_u32(env, env_name(prefix, "MAX_TOKENS")), self.max_tokens);
        let model = or_prop(read_text(env, env_name(prefix, "MODEL")), self.model);
        let system = or_prop(read_text(env, env_name(prefix, "SYSTEM")), self.system);
        let cache_ttl = or_prop(read_u32(env, env_name(prefix, "CACHE_TTL")), self.cache_ttl);
        let stream = or_prop(read_bool(env, env_name(prefix, "STREAM")), self.stream);
        let api_key = if kind.has_api_key() {
            or_prop(read_text(env, env_name(prefix, "API_KEY")), self.api_key)
        } else {
            self.api_key
        };
        let endpoint = if kind.has_endpoint() {
            or_prop(read_text(env, env_name(prefix, "ENDPOINT")), self.endpoint)
        } else {
            self.endpoint
        };
        ResolvedProviderConfigBuilder {
            temperature,
            max_tokens,
            model,
            system,
            cache_ttl,
            stream,
            api_key,
            endpoint,
        }
    }

    /// Settings from the `PROMPTCMD_PROVIDERS_<SETTING>` variables.
    pub fn apply_providers_env(self, env: &Environment, kind: ProviderKind) -> (r: Self)
        ensures
            r@ == with_env(self@, env@, providers_env_prefix(), kind),
    {
        self.apply_env_with_prefix(env, "PROMPTCMD_PROVIDERS_", kind)
    }

    /// Settings from the `PROMPTCMD_<PROVIDER>_<SETTING>` variables.
    pub fn apply_env(self, env: &Environment, kind: ProviderKind) -> (r: Self)
        ensures
            r@ == with_env(self@, env@, provider_env_prefix(kind), kind),
    {
        let mut prefix = string_of("PROMPTCMD_");
        push_str(&mut prefix, kind.env_key());
        push_str(&mut prefix, "_");
        self.apply_env_with_prefix(env, prefix.as_str(), kind)
    }

    /// Settings from the `PROMPTCMD_<PROVIDER>_<VARIANT>_<SETTING>` variables,
    /// with the variant's name in upper case.
    pub fn apply_variant_env(self, env: &Environment, kind: ProviderKind, upper_name: &str) -> (r:
        Self)
        ensures
            r@ == with_env(self@, env@, variant_env_prefix(kind, upper_name@), kind),
    {
        let mut prefix = string_of("PROMPTCMD_");
        push_str(&mut prefix, kind.env_key());
        push_str(&mut prefix, "_");
        push_str(&mut prefix, upper_name);
        push_str(&mut prefix, "_");
        self.apply_env_with_prefix(env, prefix.as_str(), kind)
    }

    pub fn apply_global_overrides(self, globals: Option<ResolvedGlobalProperties>) -> (r: Self)
        ensures
            r@ == with_globals(self@, opt_globals(globals)),
    {
        match globals {
            None => self,
            Some(g) => ResolvedProviderConfigBuilder {
                temperature: or_prop(g.temperature, self.temperature),
                max_tokens: or_prop(g.max_tokens, self.max_tokens),
                model: or_prop(g.model, self.model),
                system: or_prop(g.system, self.system),
                cache_ttl: or_prop(g.cache_ttl, self.cache_ttl),
                stream: or_prop(g.stream, self.stream),
                api_key: self.api_key,
                endpoint: self.endpoint,
            },
        }
    }

    pub fn override_from(self, other: ProviderResolution) -> (r: Self)
        ensures
            r@ == with_override(self@, other@),
    {
        let g = other.globals;
        ResolvedProviderConfigBuilder {
            temperature: or_prop(g.temperature, self.temperature),
            max_tokens: or_prop(g.max_tokens, self.max_tokens),
            model: or_prop(g.model, self.model),
            system: or_prop(g.system, self.system),
            cache_ttl: or_prop(g.cache_ttl, self.cache_ttl),
            stream: or_prop(g.stream, self.stream),
            api_key: or_prop(other.api_key, self.api_key),
            endpoint: or_prop(other.endpoint, self.endpoint),
        }
    }

    pub fn override_model(self, model: Option<ResolvedProperty<String>>) -> (r: Self)
        ensures
            r@ == with_model(self@, opt_prop(model)),
    {
        ResolvedProviderConfigBuilder { model: or_prop(model, self.model), ..self }
    }

    pub fn build(self) -> (r: ProviderResolution)
        ensures
            r@ == self@,
    {
        ProviderResolution {
            globals: ResolvedGlobalProperties {
                temperature: self.temperature,
                max_tokens: self.max_tokens,
                model: self.model,
                system: self.system,
                cache_ttl: self.cache_ttl,
                stream: self.stream,
            },
            api_key: self.api_key,
            endpoint: self.endpoint,
        }
    }
}

} // verus!
