use vstd::prelude::*;

use crate::config::environment::{EnvVarView, Environment};
use crate::config::providers::error::ToModelInfoError;
use crate::config::providers::{kind_name, Config, ConfigView, ModelInfo, ModelInfoView, ProviderKind};
use crate::config::resolver::property::{
    config_resolution,
    defaults_resolution,
    opt_globals,
    opt_prop,
    provider_env_prefix,
    providers_env_prefix,
    with_env,
    with_globals,
    with_model,
    with_override,
    GlobalsView,
    PropView,
    ProviderResolution,
    ResolutionView,
    ResolvedGlobalProperties,
    ResolvedProperty,
    ResolvedPropertySource,
    ResolvedProviderConfigBuilder,
    SourceView,
};
use crate::text::string_of;

verus! {

/// A provider's table, as the source of a base configuration.
pub enum BaseProviderConfigSource<'a> {
    Ollama(&'a Config),
    Anthropic(&'a Config),
    OpenAI(&'a Config),
    Google(&'a Config),
    OpenRouter(&'a Config),
}

impl<'a> BaseProviderConfigSource<'a> {
    pub open spec fn kind(&self) -> ProviderKind {
        match self {
            BaseProviderConfigSource::Ollama(_) => ProviderKind::Ollama,
            BaseProviderConfigSource::Anthropic(_) => ProviderKind::Anthropic,
            BaseProviderConfigSource::OpenAI(_) => ProviderKind::OpenAI,
            BaseProviderConfigSource::Google(_) => ProviderKind::Google,
            BaseProviderConfigSource::OpenRouter(_) => ProviderKind::OpenRouter,
        }
    }

    pub open spec fn config(&self) -> ConfigView {
        match self {
            BaseProviderConfigSource::Ollama(c) => c@,
            BaseProviderConfigSource::Anthropic(c) => c@,
            BaseProviderConfigSource::OpenAI(c) => c@,
            BaseProviderConfigSource::Google(c) => c@,
            BaseProviderConfigSource::OpenRouter(c) => c@,
        }
    }

    /// The source for the table `config` of provider `kind`.
    pub fn of(kind: ProviderKind, config: &'a Config) -> (r: Self)
        ensures
            r.kind() == kind,
            r.config() == config@,
    {
        match kind {
            ProviderKind::Ollama => BaseProviderConfigSource::Ollama(config),
            ProviderKind::Anthropic => BaseProviderConfigSource::Anthropic(config),
            ProviderKind::OpenAI => BaseProviderConfigSource::OpenAI(config),
            ProviderKind::Google => BaseProviderConfigSource::Google(config),
            ProviderKind::OpenRouter => BaseProviderConfigSource::OpenRouter(config),
        }
    }

    fn parts(&self) -> (r: (ProviderKind, &'a Config))
        ensures
            r.0 == self.kind(),
            r.1@ == self.config(),
    {
        match self {
            BaseProviderConfigSource::Ollama(c) => (ProviderKind::Ollama, *c),
            BaseProviderConfigSource::Anthropic(c) => (ProviderKind::Anthropic, *c),
            BaseProviderConfigSource::OpenAI(c) => (ProviderKind::OpenAI, *c),
            BaseProviderConfigSource::Google(c) => (ProviderKind::Google, *c),
            BaseProviderConfigSource::OpenRouter(c) => (ProviderKind::OpenRouter, *c),
        }
    }
}

/// A provider's resolved settings, tagged with the provider.
#[derive(Debug, PartialEq, Eq)]
pub enum ResolvedProviderConfig {
    Ollama(ProviderResolution),
    Anthropic(ProviderResolution),
    OpenAI(ProviderResolution),
    Google(ProviderResolution),
    OpenRouter(ProviderResolution),
}

pub struct ResolvedProviderConfigView {
    pub kind: ProviderKind,
    pub settings: ResolutionView,
}

impl View for ResolvedProviderConfig {
    type V = ResolvedProviderConfigView;

    open spec fn view(&self) -> ResolvedProviderConfigView {
        match self {
            ResolvedProviderConfig::Ollama(r) => ResolvedProviderConfigView {
                kind: ProviderKind::Ollama,
                settings: r@,
            },
            ResolvedProviderConfig::Anthropic(r) => ResolvedProviderConfigView {
                kind: ProviderKind::Anthropic,
                settings: r@,
            },
            ResolvedProviderConfig::OpenAI(r) => ResolvedProviderConfigView {
                kind: ProviderKind::OpenAI,
                settings: r@,
            },
            ResolvedProviderConfig::Google(r) => ResolvedProviderConfigView {
                kind: ProviderKind::Google,
                settings: r@,
            },
            ResolvedProviderConfig::OpenRouter(r) => ResolvedProviderConfigView {
                kind: ProviderKind::OpenRouter,
                settings: r@,
            },
        }
    }
}

impl ResolvedProviderConfig {
    pub fn tag(kind: ProviderKind, r: ProviderResolution) -> (t: Self)
        ensures
            t@ == (ResolvedProviderConfigView { kind, settings: r@ }),
    {
        match kind {
            ProviderKind::Ollama => ResolvedProviderConfig::Ollama(r),
            ProviderKind::Anthropic => ResolvedProviderConfig::Anthropic(r),
            ProviderKind::OpenAI => ResolvedProviderConfig::OpenAI(r),
            ProviderKind::Google => ResolvedProviderConfig::Google(r),
            ProviderKind::OpenRouter => ResolvedProviderConfig::OpenRouter(r),
        }
    }

    pub fn settings(&self) -> (r: &ProviderResolution)
        ensures
            r@ == self@.settings,
    {
        match self {
            ResolvedProviderConfig::Ollama(r) => r,
            ResolvedProviderConfig::Anthropic(r) => r,
            ResolvedProviderConfig::OpenAI(r) => r,
            ResolvedProviderConfig::Google(r) => r,
            ResolvedProviderConfig::OpenRouter(r) => r,
        }
    }

    pub fn kind(&self) -> (k: ProviderKind)
        ensures
            k == self@.kind,
    {
        match self {
            ResolvedProviderConfig::Ollama(_) => ProviderKind::Ollama,
            ResolvedProviderConfig::Anthropic(_) => ProviderKind::Anthropic,
            ResolvedProviderConfig::OpenAI(_) => ProviderKind::OpenAI,
            ResolvedProviderConfig::Google(_) => ProviderKind::Google,
            ResolvedProviderConfig::OpenRouter(_) => ProviderKind::OpenRouter,
        }
    }
}

/// The model a provider's resolved settings name, or the setting that is
/// missing.
pub open spec fn model_info_spec(k: ProviderKind, r: ResolutionView) -> Result<ModelInfoView, Seq<char>> {
    match r.globals.model {
        Some(m) => Ok(ModelInfoView { provider: kind_name(k), model: m.value }),
        None => Err("model"@),
    }
}

pub open spec fn model_info_view(r: Result<ModelInfo, ToModelInfoError>) -> Result<ModelInfoView, Seq<char>> {
    match r {
        Ok(m) => Ok(m@),
        Err(e) => Err(e.setting()@),
    }
}

/// `ModelInfo::try_from` a provider's resolved settings.
pub fn model_info_of(kind: ProviderKind, r: &ProviderResolution) -> (m: Result<ModelInfo, ToModelInfoError>)
    ensures
        model_info_view(m) == model_info_spec(kind, r@),
{
    match &r.globals.model {
        Some(p) => Ok(ModelInfo { provider: string_of(kind.name()), model: string_of(p.value.as_str()) }),
        None => Err(ToModelInfoError::RequiredConfiguration("model")),
    }
}

/// A provider's settings: the defaults, the `PROMPTCMD_PROVIDERS_*`
/// variables, the settings for all providers, the `PROMPTCMD_<PROVIDER>_*`
/// variables, the provider's table, the prompt file's settings, the overrides
/// given at invocation, and the model named with the provider, each layer
/// taking the place of the ones before it where it holds a setting.
#[verifier::opaque]
pub open spec fn base_resolution(
    k: ProviderKind,
    name: Seq<char>,
    config: ConfigView,
    fm: Option<GlobalsView>,
    overrides: Option<GlobalsView>,
    globals: GlobalsView,
    model: Option<PropView<Seq<char>>>,
    env: Seq<EnvVarView>,
) -> ResolutionView {
    let r0 = with_env(defaults_resolution(), env, providers_env_prefix(), k);
    let r1 = with_globals(r0, Some(globals));
    let r2 = with_env(r1, env, provider_env_prefix(k), k);
    let r3 = with_override(r2, config_resolution(config, SourceView::Base(name), k));
    let r4 = with_globals(r3, fm);
    let r5 = with_globals(r4, overrides);
    with_model(r5, model)
}

/// A provider used directly (not through a variant).
#[derive(Debug, PartialEq, Eq)]
pub struct Base {
    pub name: String,
    pub resolved: ResolvedProviderConfig,
    pub model_info: Result<ModelInfo, ToModelInfoError>,
    pub globals: ResolvedGlobalProperties,
}

pub struct BaseView {
    pub name: Seq<char>,
    pub resolved: ResolvedProviderConfigView,
    pub model_info: Result<ModelInfoView, Seq<char>>,
    pub globals: GlobalsView,
}

impl View for Base {
    type V = BaseView;

    open spec fn view(&self) -> BaseView {
        BaseView {
            name: self.name@,
            resolved: self.resolved@,
            model_info: model_info_view(self.model_info),
            globals: self.globals@,
        }
    }
}

/// The base that `Base::new` builds.
pub open spec fn base_spec(
    name: Seq<char>,
    k: ProviderKind,
    config: ConfigView,
    fm: Option<GlobalsView>,
    overrides: Option<GlobalsView>,
    globals: GlobalsView,
    model: Option<PropView<Seq<char>>>,
    env: Seq<EnvVarView>,
) -> BaseView {
    let r = base_resolution(k, name, config, fm, overrides, globals, model, env);
    BaseView {
        name,
        resolved: ResolvedProviderConfigView { kind: k, settings: r },
        model_info: model_info_spec(k, r),
        globals: r.globals,
    }
}

impl Base {
    pub fn new(
        name: String,
        source: BaseProviderConfigSource,
        fm_properties: Option<ResolvedGlobalProperties>,
        overrides: Option<ResolvedGlobalProperties>,
        global_provider_properties: ResolvedGlobalProperties,
        model_resolved_property: Option<ResolvedProperty<String>>,
        env: &Environment,
    ) -> (r: Self)
        ensures
            r@ == base_spec(
                name@,
                source.kind(),
                source.config(),
                opt_globals(fm_properties),
                opt_globals(overrides),
                global_provider_properties@,
                opt_prop(model_resolved_property),
                env@,
            ),
    {
        proof {
            reveal(base_resolution);
        }
        let (kind, config) = source.parts();
        let base_source = ResolvedPropertySource::Base(string_of(name.as_str()));
        let resolved = ResolvedProviderConfigBuilder::from_defaults()
            .apply_providers_env(env, kind)
            .apply_global_overrides(Some(global_provider_properties))
            .apply_env(env, kind)
            .override_from(ResolvedProviderConfigBuilder::from_config(config, &base_source, kind).build())
            .apply_global_overrides(fm_properties)
            .apply_global_overrides(overrides)
            .override_model(model_resolved_property)
            .build();
        let globals = resolved.globals.duplicate();
        let model_info = model_info_of(kind, &resolved);
        Base { name, resolved: ResolvedProviderConfig::tag(kind, resolved), model_info, globals }
    }
}

} // verus!
