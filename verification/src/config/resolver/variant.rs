use vstd::prelude::*;

use crate::config::environment::{EnvVarView, Environment};
use crate::config::providers::error::ToModelInfoError;
use crate::config::providers::{Config, ConfigView, ModelInfo, ModelInfoView, ProviderKind};
use crate::config::resolver::base::{
    model_info_of,
    model_info_spec,
    model_info_view,
    ResolvedProviderConfig,
    ResolvedProviderConfigView,
};
use crate::config::resolver::property::{
    config_resolution,
    defaults_resolution,
    opt_globals,
    opt_prop,
    provider_env_prefix,
    providers_env_prefix,
    variant_env_prefix,
    with_env,
    with_globals,
    with_model,
    with_override,
    GlobalsView,
    PropView,
    ResolutionView,
    ResolvedGlobalProperties,
    ResolvedProperty,
    ResolvedPropertySource,
    ResolvedProviderConfigBuilder,
    SourceView,
};
use crate::text::{string_of, to_uppercase, to_uppercase_spec};

verus! {

/// A variant's table and the table of the provider it belongs to.
pub enum VariantProviderConfigSource<'a> {
    Ollama(&'a Config, &'a Config),
    Anthropic(&'a Config, &'a Config),
    OpenAI(&'a Config, &'a Config),
    Google(&'a Config, &'a Config),
    OpenRouter(&'a Config, &'a Config),
}

impl<'a> VariantProviderConfigSource<'a> {
    pub open spec fn kind(&self) -> ProviderKind {
        match self {
            VariantProviderConfigSource::Ollama(_, _) => ProviderKind::Ollama,
            VariantProviderConfigSource::Anthropic(_, _) => ProviderKind::Anthropic,
            VariantProviderConfigSource::OpenAI(_, _) => ProviderKind::OpenAI,
            VariantProviderConfigSource::Google(_, _) => ProviderKind::Google,
            VariantProviderConfigSource::OpenRouter(_, _) => ProviderKind::OpenRouter,
        }
    }

    pub open spec fn variant_config(&self) -> ConfigView {
        match self {
            VariantProviderConfigSource::Ollama(v, _) => v@,
            VariantProviderConfigSource::Anthropic(v, _) => v@,
            VariantProviderConfigSource::OpenAI(v, _) => v@,
            VariantProviderConfigSource::Google(v, _) => v@,
            VariantProviderConfigSource::OpenRouter(v, _) => v@,
        }
    }

    pub open spec fn base_config(&self) -> ConfigView {
        match self {
            VariantProviderConfigSource::Ollama(_, b) => b@,
            VariantProviderConfigSource::Anthropic(_, b) => b@,
            VariantProviderConfigSource::OpenAI(_, b) => b@,
            VariantProviderConfigSource::Google(_, b) => b@,
            VariantProviderConfigSource::OpenRouter(_, b) => b@,
        }
    }

    /// The source for the variant table `variant` of provider `kind`, whose
    /// own table is `base`.
    pub fn of(kind: ProviderKind, variant: &'a Config, base: &'a Config) -> (r: Self)
        ensures
            r.kind() == kind,
            r.variant_config() == variant@,
            r.base_config() == base@,
    {
        match kind {
            ProviderKind::Ollama => VariantProviderConfigSource::Ollama(variant, base),
            ProviderKind::Anthropic => VariantProviderConfigSource::Anthropic(variant, base),
            ProviderKind::OpenAI => VariantProviderConfigSource::OpenAI(variant, base),
            ProviderKind::Google => VariantProviderConfigSource::Google(variant, base),
            ProviderKind::OpenRouter => VariantProviderConfigSource::OpenRouter(variant, base),
        }
    }

    fn parts(&self) -> (r: (ProviderKind, &'a Config, &'a Config))
        ensures
            r.0 == self.kind(),
            r.1@ == self.variant_config(),
            r.2@ == self.base_config(),
    {
        match self {
            VariantProviderConfigSource::Ollama(v, b) => (ProviderKind::Ollama, *v, *b),
            VariantProviderConfigSource::Anthropic(v, b) => (ProviderKind::Anthropic, *v, *b),
            VariantProviderConfigSource::OpenAI(v, b) => (ProviderKind::OpenAI, *v, *b),
            VariantProviderConfigSource::Google(v, b) => (ProviderKind::Google, *v, *b),
            VariantProviderConfigSource::OpenRouter(v, b) => (ProviderKind::OpenRouter, *v, *b),
        }
    }
}

/// A variant's settings: those of its provider up to the prompt file's
/// settings, then the `PROMPTCMD_<PROVIDER>_<VARIANT>_*` variables, the
/// variant's table, the overrides given at invocation, and the model named
/// with the variant, each layer taking the place of the ones before it where
/// it holds a setting.
#[verifier::opaque]
pub open spec fn variant_resolution(
    k: ProviderKind,
    name: Seq<char>,
    base_name: Seq<char>,
    variant_config: ConfigView,
    base_config: ConfigView,
    fm: Option<GlobalsView>,
    overrides: Option<GlobalsView>,
    globals: GlobalsView,
    model: Option<PropView<Seq<char>>>,
    env: Seq<EnvVarView>,
) -> ResolutionView {
    let r0 = with_env(defaults_resolution(), env, providers_env_prefix(), k);
    let r1 = with_globals(r0, Some(globals));
    let r2 = with_env(r1, env, provider_env_prefix(k), k);
    let r3 = with_override(r2, config_resolution(base_config, SourceView::Base(base_name), k));
    let r4 = with_globals(r3, fm);
    let r5 = with_env(r4, env, variant_env_prefix(k, to_uppercase_spec(name)), k);
    let r6 = with_override(r5, config_resolution(variant_config, SourceView::Variant(name), k));
    let r7 = with_globals(r6, overrides);
    with_model(r7, model)
}

/// A named sub-configuration of a provider.
#[derive(Debug, PartialEq, Eq)]
pub struct Variant {
    pub name: String,
    pub base_name: String,
    pub resolved: ResolvedProviderConfig,
    pub model_info: Result<ModelInfo, ToModelInfoError>,
    pub globals: ResolvedGlobalProperties,
}

pub struct VariantView {
    pub name: Seq<char>,
    pub base_name: Seq<char>,
    pub resolved: ResolvedProviderConfigView,
    pub model_info: Result<ModelInfoView, Seq<char>>,
    pub globals: GlobalsView,
}

impl View for Variant {
    type V = VariantView;

    open spec fn view(&self) -> VariantView {
        VariantView {
            name: self.name@,
            base_name: self.base_name@,
            resolved: self.resolved@,
            model_info: model_info_view(self.model_info),
            globals: self.globals@,
        }
    }
}

/// The variant that `Variant::new` builds.
pub open spec fn variant_spec(
    name: Seq<char>,
    base_name: Seq<char>,
    k: ProviderKind,
    variant_config: ConfigView,
    base_config: ConfigView,
    fm: Option<GlobalsView>,
    overrides: Option<GlobalsView>,
    globals: GlobalsView,
    model: Option<PropView<Seq<char>>>,
    env: Seq<EnvVarView>,
) -> VariantView {
    let r = variant_resolution(
        k,
        name,
        base_name,
        variant_config,
        base_config,
        fm,
        overrides,
        globals,
        model,
        env,
    );
    VariantView {
        name,
        base_name,
        resolved: ResolvedProviderConfigView { kind: k, settings: r },
        model_info: model_info_spec(k, r),
        globals: r.globals,
    }
}

impl Variant {
    pub fn new(
        name: String,
        base_name: String,
        source: VariantProviderConfigSource,
        fm_properties: Option<ResolvedGlobalProperties>,
        overrides: Option<ResolvedGlobalProperties>,
        global_provider_properties: ResolvedGlobalProperties,
        model_resolved_property: Option<ResolvedProperty<String>>,
        env: &Environment,
    ) -> (r: Self)
        ensures
            r@ == variant_spec(
                name@,
                base_name@,
                source.kind(),
                source.variant_config(),
                source.base_config(),
                opt_globals(fm_properties),
                opt_globals(overrides),
                global_provider_properties@,
                opt_prop(model_resolved_property),
                env@,
            ),
    {
        proof {
            reveal(variant_resolution);
        }
        let (kind, variant_config, base_config) = source.parts();
        let base_source = ResolvedPropertySource::Base(string_of(base_name.as_str()));
        let variant_source = ResolvedPropertySource::Variant(string_of(name.as_str()));
        let upper_name = to_uppercase(name.as_str());
        let resolved = ResolvedProviderConfigBuilder::from_defaults()
            .apply_providers_env(env, kind)
            .apply_global_overrides(Some(global_provider_properties))
            .apply_env(env, kind)
            .override_from(ResolvedProviderConfigBuilder::from_config(base_config, &base_source, kind).build())
            .apply_global_overrides(fm_properties)
            .apply_variant_env(env, kind, upper_name.as_str())
            .override_from(
                ResolvedProviderConfigBuilder::from_config(variant_config, &variant_source, kind).build(),
            )
            .apply_global_overrides(overrides)
            .override_model(model_resolved_property)
            .build();
        let globals = resolved.globals.duplicate();
        let model_info = model_info_of(kind, &resolved);
        Variant {
            name,
            base_name,
            resolved: ResolvedProviderConfig::tag(kind, resolved),
            model_info,
            globals,
        }
    }
}

} // verus!
