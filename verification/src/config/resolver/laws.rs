use vstd::prelude::*;

use crate::config::appconfig::{AppConfig, LongGroupProviderConfigView};
use crate::config::environment::EnvVarView;
use crate::config::providers::{ConfigView, ProviderKind};
use crate::config::resolver::base::base_resolution;
use crate::config::resolver::group::GroupMemberView;
use crate::config::resolver::property::{GlobalsView, PropView, SourceView};
use crate::config::resolver::variant::variant_resolution;
use crate::config::resolver::{ResolvedConfigView, ResolveErrorView, Resolver};

verus! {

/// Settings given at invocation win over every other source of a provider's
/// settings; a model named with the provider (`provider/model`) wins over all
/// of them, the invocation's included.
pub proof fn lemma_base_overrides_win(
    k: ProviderKind,
    name: Seq<char>,
    config: ConfigView,
    fm: Option<GlobalsView>,
    overrides: GlobalsView,
    globals: GlobalsView,
    model: Option<PropView<Seq<char>>>,
    env: Seq<EnvVarView>,
)
    ensures
        ({
            let r = base_resolution(k, name, config, fm, Some(overrides), globals, model, env);
            &&& overrides.temperature is Some ==> r.globals.temperature == overrides.temperature
            &&& overrides.max_tokens is Some ==> r.globals.max_tokens == overrides.max_tokens
            &&& overrides.system is Some ==> r.globals.system == overrides.system
            &&& overrides.cache_ttl is Some ==> r.globals.cache_ttl == overrides.cache_ttl
            &&& overrides.stream is Some ==> r.globals.stream == overrides.stream
            &&& model is Some ==> r.globals.model == model
            &&& model is None && overrides.model is Some ==> r.globals.model == overrides.model
        }),
{
    reveal(base_resolution);
}

/// The same holds of a variant: the invocation's settings win over the
/// variant's table and everything below it, and a model named with the
/// variant wins over all.
pub proof fn lemma_variant_overrides_win(
    k: ProviderKind,
    name: Seq<char>,
    base_name: Seq<char>,
    variant_config: ConfigView,
    base_config: ConfigView,
    fm: Option<GlobalsView>,
    overrides: GlobalsView,
    globals: GlobalsView,
    model: Option<PropView<Seq<char>>>,
    env: Seq<EnvVarView>,
)
    ensures
        ({
            let r = variant_resolution(
                k,
                name,
                base_name,
                variant_config,
                base_config,
                fm,
                Some(overrides),
                globals,
                model,
                env,
            );
            &&& overrides.temperature is Some ==> r.globals.temperature == overrides.temperature
            &&& overrides.max_tokens is Some ==> r.globals.max_tokens == overrides.max_tokens
            &&& overrides.system is Some ==> r.globals.system == overrides.system
            &&& overrides.cache_ttl is Some ==> r.globals.cache_ttl == overrides.cache_ttl
            &&& overrides.stream is Some ==> r.globals.stream == overrides.stream
            &&& model is Some ==> r.globals.model == model
            &&& model is None && overrides.model is Some ==> r.globals.model == overrides.model
        }),
{
    reveal(variant_resolution);
}

/// A setting in a variant's table wins over the provider's table, the prompt
/// file and the environment, unless the invocation sets it; it carries the
/// variant as its source.
pub proof fn lemma_variant_table_wins(
    k: ProviderKind,
    name: Seq<char>,
    base_name: Seq<char>,
    variant_config: ConfigView,
    base_config: ConfigView,
    fm: Option<GlobalsView>,
    globals: GlobalsView,
    env: Seq<EnvVarView>,
)
    ensures
        ({
            let r = variant_resolution(
                k,
                name,
                base_name,
                variant_config,
                base_config,
                fm,
                None,
                globals,
                None,
                env,
            );
            &&& variant_config.system matches Some(s) ==> r.globals.system == Some(
                PropView { source: SourceView::Variant(name), value: s },
            )
            &&& variant_config.temperature matches Some(t) ==> r.globals.temperature == Some(
                PropView { source: SourceView::Variant(name), value: t },
            )
            &&& variant_config.model matches Some(m) ==> r.globals.model == Some(
                PropView { source: SourceView::Variant(name), value: m },
            )
            &&& variant_config.max_tokens matches Some(n) ==> r.globals.max_tokens == Some(
                PropView { source: SourceView::Variant(name), value: n },
            )
        }),
{
    reveal(variant_resolution);
}

/// Every member of a resolved group names a model.
pub proof fn lemma_members_name_models(
    rs: Resolver,
    cfg: AppConfig,
    group: Seq<char>,
    items: Seq<LongGroupProviderConfigView>,
    env: Seq<EnvVarView>,
)
    ensures
        rs.members_spec(cfg, group, items, env) matches Ok(ms) ==> forall|i: int|
            0 <= i < ms.len() ==> match #[trigger] ms[i] {
                GroupMemberView::Base(b, _) => b.model_info is Ok,
                GroupMemberView::Variant(v, _) => v.model_info is Ok,
            },
    decreases items.len(),
{
    if items.len() > 0 {
        lemma_members_name_models(rs, cfg, group, items.drop_last(), env);
    }
}

/// What resolution gives always names a model: a base, a variant, and every
/// member of a group; a name that resolves to none of these is an error.
pub proof fn lemma_resolved_names_a_model(
    rs: Resolver,
    cfg: AppConfig,
    input: Option<Seq<char>>,
    env: Seq<EnvVarView>,
)
    ensures
        rs.resolve_spec(cfg, input, env) matches Ok(c) ==> match c {
            ResolvedConfigView::Base(b) => b.model_info is Ok,
            ResolvedConfigView::Variant(v) => v.model_info is Ok,
            ResolvedConfigView::Group(g) => forall|i: int|
                0 <= i < g.members.len() ==> match #[trigger] g.members[i] {
                    GroupMemberView::Base(b, _) => b.model_info is Ok,
                    GroupMemberView::Variant(v, _) => v.model_info is Ok,
                },
        },
{
    match rs.resolve_name_spec(input, cfg.providers@.globals, cfg.providers@.default, env) {
        None => {},
        Some(p) => {
            match crate::config::appconfig::group_find(cfg.groups@, p.value) {
                Some(items) => {
                    lemma_members_name_models(rs, cfg, p.value, items, env);
                },
                None => {},
            }
        },
    }
}

/// A name without a model part that names no provider, no variant and no
/// group is reported as not found, under its own name.
pub proof fn lemma_unknown_name_not_found(
    rs: Resolver,
    cfg: AppConfig,
    name: Seq<char>,
    env: Seq<EnvVarView>,
)
    requires
        crate::config::providers::kind_of_name(crate::config::resolver::name_parts(name).0) is None,
        crate::config::resolver::variant_lookup(cfg.providers@, crate::config::resolver::name_parts(name).0) is None,
        crate::config::appconfig::group_find(cfg.groups@, name) is None,
    ensures
        rs.resolve_spec(cfg, Some(name), env) == Err::<ResolvedConfigView, ResolveErrorView>(
            ResolveErrorView::NotFound(name),
        ),
{
}

/// A name given at invocation is the one resolved, whatever the overrides,
/// the prompt file, the configuration and the environment name.
pub proof fn lemma_input_name_wins(
    r: Resolver,
    name: Seq<char>,
    globals: crate::config::appconfig::GlobalProviderPropertiesView,
    config_default: Option<Seq<char>>,
    env: Seq<EnvVarView>,
)
    ensures
        r.resolve_name_spec(Some(name), globals, config_default, env) == Some(
            PropView { source: SourceView::Inputs, value: name },
        ),
{
}

} // verus!

verus! {

/// Where no name is given at invocation and the invocation's settings name
/// no model, the model named in the prompt file is the name resolved, with
/// its source: ahead of the configuration's global model, its configured
/// default and `PROMPTCMD_MODEL`, whatever they hold.
pub proof fn lemma_prompt_model_is_resolved(
    r: Resolver,
    globals: crate::config::appconfig::GlobalProviderPropertiesView,
    config_default: Option<Seq<char>>,
    env: Seq<EnvVarView>,
)
    requires
        r.overrides is None || r.overrides->0@.model is None,
        r.fm_properties is Some,
        r.fm_properties->0@.model is Some,
    ensures
        r.resolve_name_spec(None, globals, config_default, env) == r.fm_properties->0@.model,
{
}

/// Where the prompt file names a provider and a model (`provider/model`), and
/// neither the invocation nor its settings name one, resolving gives that
/// provider with that model.
pub proof fn lemma_prompt_model_gives_its_provider(r: Resolver, cfg: AppConfig, env: Seq<EnvVarView>)
    requires
        r.overrides is None || r.overrides->0@.model is None,
        r.fm_properties is Some,
        r.fm_properties->0@.model is Some,
        crate::config::resolver::kind_of_name(
            crate::config::resolver::name_parts(r.fm_properties->0@.model->0.value).0,
        ) is Some,
        crate::config::resolver::name_parts(r.fm_properties->0@.model->0.value).1 is Some,
    ensures
        ({
            let m = r.fm_properties->0@.model->0.value;
            let provider = crate::config::resolver::name_parts(m).0;
            let k = crate::config::resolver::kind_of_name(provider)->0;
            r.resolve_spec(cfg, None, env) matches Ok(ResolvedConfigView::Base(b)) && b.name == provider
                && b.model_info == Ok::<crate::config::providers::ModelInfoView, Seq<char>>(
                crate::config::providers::ModelInfoView {
                    provider: crate::config::providers::kind_name(k),
                    model: crate::config::resolver::name_parts(m).1->0,
                },
            )
        }),
{
    lemma_prompt_model_is_resolved(r, cfg.providers@.globals, cfg.providers@.default, env);
    reveal(base_resolution);
}

} // verus!
