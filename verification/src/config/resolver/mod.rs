pub mod base;
pub mod client;
pub mod error;
pub mod group;
pub mod laws;
pub mod property;
pub mod variant;

use vstd::prelude::*;

use crate::config::appconfig::{
    group_find,
    provider_table,
    AppConfig,
    GlobalProviderProperties,
    GlobalProviderPropertiesView,
    LongGroupProviderConfigView,
    ProvidersView,
};
use crate::config::environment::{env_find, EnvVarView, Environment};
use crate::config::providers::{kind_name, kind_of_name, named_find, ConfigView, ProviderKind};
use crate::text::{chars_of, find_char, first_index_of, split_once, split_once_spec, string_of};

pub use base::{
    base_spec,
    Base,
    BaseProviderConfigSource,
    BaseView,
    ResolvedProviderConfig,
    ResolvedProviderConfigView,
};
pub use error::{ResolveError, ResolveErrorView};
pub use group::{Group, GroupMember, GroupMemberView, GroupView};
pub use property::{
    globals_from_spec,
    opt_globals,
    opt_prop,
    GlobalsView,
    PropView,
    ProviderResolution,
    ResolutionView,
    ResolvedGlobalProperties,
    ResolvedProperty,
    ResolvedPropertySource,
    SourceView,
};
pub use variant::{variant_spec, Variant, VariantProviderConfigSource, VariantView};

verus! {

/// What a name resolves to.
#[derive(Debug, PartialEq, Eq)]
pub enum ResolvedConfig {
    Base(Base),
    Variant(Variant),
    Group(Group),
}

pub enum ResolvedConfigView {
    Base(BaseView),
    Variant(VariantView),
    Group(GroupView),
}

impl View for ResolvedConfig {
    type V = ResolvedConfigView;

    open spec fn view(&self) -> ResolvedConfigView {
        match self {
            ResolvedConfig::Base(b) => ResolvedConfigView::Base(b@),
            ResolvedConfig::Variant(v) => ResolvedConfigView::Variant(v@),
            ResolvedConfig::Group(g) => ResolvedConfigView::Group(g@),
        }
    }
}

/// A name split at its first `/` into the provider (or variant, or group)
/// part and the model part.
pub open spec fn name_parts(v: Seq<char>) -> (Seq<char>, Option<Seq<char>>) {
    match split_once_spec(v, '/') {
        Some(p) => (p.0, Some(p.1)),
        None => (v, None),
    }
}

/// The model named after the `/` of a name, with the name's source.
pub open spec fn model_part(p: PropView<Seq<char>>) -> Option<PropView<Seq<char>>> {
    match name_parts(p.value).1 {
        Some(m) => Some(PropView { source: p.source, value: m }),
        None => None,
    }
}

/// The prompt file's settings as they take part in resolving a name from
/// `source`: their model is left out where the name came from the
/// invocation's inputs or from a group, and where it is only a short name
/// (without `/`).
pub open spec fn fm_for(fm: Option<GlobalsView>, source: SourceView) -> Option<GlobalsView> {
    match fm {
        None => None,
        Some(p) => Some(
            GlobalsView {
                model: if source is Inputs || source is Group {
                    None
                } else {
                    match p.model {
                        Some(m) => if first_index_of(m.value, '/') is Some {
                            Some(m)
                        } else {
                            None
                        },
                        None => None,
                    }
                },
                ..p
            },
        ),
    }
}

/// The first provider (in the order ollama, anthropic, openai, google,
/// openrouter) that has a variant named `name`, and that variant's table.
pub open spec fn variant_lookup(p: ProvidersView, name: Seq<char>) -> Option<(ProviderKind, ConfigView)> {
    if named_find(p.ollama.named, name) is Some {
        Some((ProviderKind::Ollama, named_find(p.ollama.named, name)->0))
    } else if named_find(p.anthropic.named, name) is Some {
        Some((ProviderKind::Anthropic, named_find(p.anthropic.named, name)->0))
    } else if named_find(p.openai.named, name) is Some {
        Some((ProviderKind::OpenAI, named_find(p.openai.named, name)->0))
    } else if named_find(p.google.named, name) is Some {
        Some((ProviderKind::Google, named_find(p.google.named, name)->0))
    } else if named_find(p.openrouter.named, name) is Some {
        Some((ProviderKind::OpenRouter, named_find(p.openrouter.named, name)->0))
    } else {
        None
    }
}

/// A member's error as the group's error.
pub open spec fn group_error(group: Seq<char>, e: ResolveErrorView) -> ResolveErrorView {
    match e {
        ResolveErrorView::NotFound(n) => ResolveErrorView::GroupMemberNotFound(group, n),
        e => ResolveErrorView::GroupMemberError(group, Box::new(e)),
    }
}

/// Resolves model, variant and group names against the configuration, with
/// the settings given at invocation and those of the prompt file.
pub struct Resolver {
    pub overrides: Option<ResolvedGlobalProperties>,
    pub fm_properties: Option<ResolvedGlobalProperties>,
}

impl Resolver {
    /// What resolving a name as a base gives.
    pub open spec fn resolve_base_spec(&self, cfg: AppConfig, p: PropView<Seq<char>>, env: Seq<EnvVarView>) -> Result<BaseView, ResolveErrorView> {
        let provider = name_parts(p.value).0;
        match kind_of_name(provider) {
            None => Err(ResolveErrorView::NotFound(p.value)),
            Some(k) => {
                let b = base_spec(
                    provider,
                    k,
                    provider_table(cfg.providers@, k).config,
                    fm_for(opt_globals(self.fm_properties), p.source),
                    opt_globals(self.overrides),
                    globals_from_spec(cfg.providers@.globals, SourceView::Globals),
                    model_part(p),
                    env,
                );
                if b.model_info is Err {
                    Err(ResolveErrorView::NoNameToResolve)
                } else {
                    Ok(b)
                }
            },
        }
    }

    /// What resolving a name as a variant gives.
    pub open spec fn resolve_variant_spec(&self, cfg: AppConfig, p: PropView<Seq<char>>, env: Seq<EnvVarView>) -> Result<VariantView, ResolveErrorView> {
        let provider = name_parts(p.value).0;
        match variant_lookup(cfg.providers@, provider) {
            None => Err(ResolveErrorView::NotFound(p.value)),
            Some((k, vcfg)) => {
                let v = variant_spec(
                    provider,
                    kind_name(k),
                    k,
                    vcfg,
                    provider_table(cfg.providers@, k).config,
                    fm_for(opt_globals(self.fm_properties), p.source),
                    opt_globals(self.overrides),
                    globals_from_spec(cfg.providers@.globals, SourceView::Globals),
                    model_part(p),
                    env,
                );
                if v.model_info is Err {
                    Err(ResolveErrorView::NoNameToResolve)
                } else {
                    Ok(v)
                }
            },
        }
    }

    /// What one member of group `group` resolves to: a base if it resolves
    /// as one, else a variant.
    pub open spec fn member_spec(&self, cfg: AppConfig, group: Seq<char>, item: LongGroupProviderConfigView, env: Seq<EnvVarView>) -> Result<GroupMemberView, ResolveErrorView> {
        let p = PropView { source: SourceView::Group(group, item.name), value: item.name };
        let w: u32 = match item.weight {
            Some(w) => w,
            None => 1,
        };
        match self.resolve_base_spec(cfg, p, env) {
            Ok(b) => Ok(GroupMemberView::Base(b, w)),
            Err(_) => match self.resolve_variant_spec(cfg, p, env) {
                Ok(v) => Ok(GroupMemberView::Variant(v, w)),
                Err(e) => Err(e),
            },
        }
    }

    /// The members of a group in order, or the error of the first member
    /// that does not resolve.
    pub open spec fn members_spec(&self, cfg: AppConfig, group: Seq<char>, items: Seq<LongGroupProviderConfigView>, env: Seq<EnvVarView>) -> Result<Seq<GroupMemberView>, ResolveErrorView>
        decreases items.len(),
    {
        if items.len() == 0 {
            Ok(Seq::empty())
        } else {
            match self.members_spec(cfg, group, items.drop_last(), env) {
                Err(e) => Err(e),
                Ok(ms) => match self.member_spec(cfg, group, items.last(), env) {
                    Ok(m) => Ok(ms.push(m)),
                    Err(e) => Err(e),
                },
            }
        }
    }

    pub proof fn lemma_members_prefix_err(&self, cfg: AppConfig, group: Seq<char>, items: Seq<LongGroupProviderConfigView>, k: int, env: Seq<EnvVarView>)
        requires
            0 <= k <= items.len(),
            self.members_spec(cfg, group, items.take(k), env) is Err,
        ensures
            self.members_spec(cfg, group, items, env) == self.members_spec(cfg, group, items.take(k), env),
        decreases items.len(),
    {
        if k < items.len() {
            assert(items.drop_last().take(k) =~= items.take(k));
            self.lemma_members_prefix_err(cfg, group, items.drop_last(), k, env);
        } else {
            assert(items.take(k) =~= items);
        }
    }

    /// What resolving a name as a group gives.
    pub open spec fn resolve_group_spec(&self, cfg: AppConfig, p: PropView<Seq<char>>, env: Seq<EnvVarView>) -> Result<GroupView, ResolveErrorView> {
        match group_find(cfg.groups@, p.value) {
            None => Err(ResolveErrorView::NotFound(p.value)),
            Some(items) => match self.members_spec(cfg, p.value, items, env) {
                Ok(ms) => Ok(GroupView { name: p.value, members: ms }),
                Err(e) => Err(group_error(p.value, e)),
            },
        }
    }

    /// The name to resolve, from the highest priority source that gives one:
    /// the invocation's input, the overrides' model, the prompt file's model,
    /// the `model` for all providers, the configured default, the
    /// `PROMPTCMD_MODEL` variable.
    pub open spec fn resolve_name_spec(&self, input: Option<Seq<char>>, globals: GlobalProviderPropertiesView, config_default: Option<Seq<char>>, env: Seq<EnvVarView>) -> Option<PropView<Seq<char>>> {
        if input is Some {
            Some(PropView { source: SourceView::Inputs, value: input->0 })
        } else if self.overrides is Some && self.overrides->0@.model is Some {
            self.overrides->0@.model
        } else if self.fm_properties is Some && self.fm_properties->0@.model is Some {
            self.fm_properties->0@.model
        } else if globals.model is Some {
            Some(PropView { source: SourceView::Globals, value: globals.model->0 })
        } else if config_default is Some {
            Some(PropView { source: SourceView::Globals, value: config_default->0 })
        } else if env_find(env, "PROMPTCMD_MODEL"@) is Some {
            Some(
                PropView {
                    source: SourceView::Env("PROMPTCMD_MODEL"@),
                    value: env_find(env, "PROMPTCMD_MODEL"@)->0.value,
                },
            )
        } else {
            None
        }
    }

    /// What `resolve` gives: the name as a base, else (where no provider has
    /// that name) as a variant, else (where no variant has it) as a group.
    pub open spec fn resolve_spec(&self, cfg: AppConfig, input: Option<Seq<char>>, env: Seq<EnvVarView>) -> Result<ResolvedConfigView, ResolveErrorView> {
        match self.resolve_name_spec(
            input,
            cfg.providers@.globals,
            cfg.providers@.default,
            env,
        ) {
            None => Err(ResolveErrorView::NoNameToResolve),
            Some(p) => match self.resolve_base_spec(cfg, p, env) {
                Ok(b) => Ok(ResolvedConfigView::Base(b)),
                Err(ResolveErrorView::NotFound(_)) => match self.resolve_variant_spec(cfg, p, env) {
                    Ok(v) => Ok(ResolvedConfigView::Variant(v)),
                    Err(ResolveErrorView::NotFound(_)) => match self.resolve_group_spec(cfg, p, env) {
                        Ok(g) => Ok(ResolvedConfigView::Group(g)),
                        Err(e) => Err(e),
                    },
                    Err(e) => Err(e),
                },
                Err(e) => Err(e),
            },
        }
    }
}

} // verus!

verus! {

pub open spec fn base_result_view(r: Result<Base, ResolveError>) -> Result<BaseView, ResolveErrorView> {
    match r {
        Ok(b) => Ok(b@),
        Err(e) => Err(e@),
    }
}

pub open spec fn variant_result_view(r: Result<Variant, ResolveError>) -> Result<VariantView, ResolveErrorView> {
    match r {
        Ok(v) => Ok(v@),
        Err(e) => Err(e@),
    }
}

pub open spec fn group_result_view(r: Result<Group, ResolveError>) -> Result<GroupView, ResolveErrorView> {
    match r {
        Ok(g) => Ok(g@),
        Err(e) => Err(e@),
    }
}

pub open spec fn resolved_result_view(r: Result<ResolvedConfig, ResolveError>) -> Result<ResolvedConfigView, ResolveErrorView> {
    match r {
        Ok(c) => Ok(c@),
        Err(e) => Err(e@),
    }
}

/// Splits a name at its first `/`.
fn split_name(v: &str) -> (r: (String, Option<String>))
    ensures
        r.0@ == name_parts(v@).0,
        crate::config::providers::opt_text(r.1) == name_parts(v@).1,
{
    match split_once(v, '/') {
        Some((a, b)) => (a, Some(b)),
        None => (string_of(v), None),
    }
}

fn group_error_exec(group: &str, e: ResolveError) -> (r: ResolveError)
    ensures
        r@ == group_error(group@, e@),
{
    match e {
        ResolveError::NotFound(name) => ResolveError::GroupMemberNotFound(string_of(group), name),
        err => ResolveError::GroupMemberError(string_of(group), Box::new(err)),
    }
}

impl Resolver {
    /// The prompt file's settings as they take part in resolving a name from
    /// `source`.
    fn fm_for_source(&self, source: &ResolvedPropertySource) -> (r: Option<ResolvedGlobalProperties>)
        ensures
            opt_globals(r) == fm_for(opt_globals(self.fm_properties), source@),
    {
        match &self.fm_properties {
            None => None,
            Some(props) => {
                let mut p = props.duplicate();
                let drop_model = match source {
                    ResolvedPropertySource::Inputs => true,
                    ResolvedPropertySource::Group(_, _) => true,
                    _ => false,
                };
                let model = if drop_model {
                    None
                } else {
                    match p.model {
                        Some(m) => {
                            let cs = chars_of(m.value.as_str());
                            if find_char(&cs, '/').is_some() {
                                Some(m)
                            } else {
                                None
                            }
                        },
                        None => None,
                    }
                };
                p.model = model;
                Some(p)
            },
        }
    }

    fn model_part_of(p: &ResolvedProperty<String>, model: Option<String>) -> (r: Option<ResolvedProperty<String>>)
        requires
            crate::config::providers::opt_text(model) == name_parts(p.value@).1,
        ensures
            opt_prop(r) == model_part(p@),
    {
        match model {
            Some(m) => Some(ResolvedProperty { source: p.source.duplicate(), value: m }),
            None => None,
        }
    }

    fn resolve_base(&self, appconfig: &AppConfig, base_name_property: ResolvedProperty<String>, env: &Environment) -> (r: Result<Base, ResolveError>)
        ensures
            base_result_view(r) == self.resolve_base_spec(*appconfig, base_name_property@, env@),
    {
        let (provider, model) = split_name(base_name_property.value.as_str());
        let model_resolved_property = Self::model_part_of(&base_name_property, model);
        let global_provider_properties = ResolvedGlobalProperties::from_properties(
            &appconfig.providers.globals,
            ResolvedPropertySource::Globals,
        );
        let fm_properties = self.fm_for_source(&base_name_property.source);
        let kind = match crate::config::providers::ProviderKind::from_name(provider.as_str()) {
            Some(k) => k,
            None => {
                return Err(ResolveError::NotFound(base_name_property.value));
            },
        };
        let table = appconfig.providers.table(kind);
        let overrides = match &self.overrides {
            Some(o) => Some(o.duplicate()),
            None => None,
        };
        let base = Base::new(
            provider,
            BaseProviderConfigSource::of(kind, &table.config),
            fm_properties,
            overrides,
            global_provider_properties,
            model_resolved_property,
            env,
        );
        if base.model_info.is_err() {
            Err(ResolveError::NoNameToResolve)
        } else {
            Ok(base)
        }
    }

    fn resolve_variant(&self, appconfig: &AppConfig, variant_name_property: ResolvedProperty<String>, env: &Environment) -> (r: Result<Variant, ResolveError>)
        ensures
            variant_result_view(r) == self.resolve_variant_spec(*appconfig, variant_name_property@, env@),
    {
        let (provider, model) = split_name(variant_name_property.value.as_str());
        let model_resolved_property = Self::model_part_of(&variant_name_property, model);
        let fm_properties = self.fm_for_source(&variant_name_property.source);
        let global_provider_properties = ResolvedGlobalProperties::from_properties(
            &appconfig.providers.globals,
            ResolvedPropertySource::Globals,
        );
        let p = &appconfig.providers;
        let found = if let Some(conf) = p.ollama.get_named(provider.as_str()) {
            Some((ProviderKind::Ollama, conf))
        } else if let Some(conf) = p.anthropic.get_named(provider.as_str()) {
            Some((ProviderKind::Anthropic, conf))
        } else if let Some(conf) = p.openai.get_named(provider.as_str()) {
            Some((ProviderKind::OpenAI, conf))
        } else if let Some(conf) = p.google.get_named(provider.as_str()) {
            Some((ProviderKind::Google, conf))
        } else if let Some(conf) = p.openrouter.get_named(provider.as_str()) {
            Some((ProviderKind::OpenRouter, conf))
        } else {
            None
        };
        let (kind, conf) = match found {
            Some(f) => f,
            None => {
                return Err(ResolveError::NotFound(variant_name_property.value));
            },
        };
        let overrides = match &self.overrides {
            Some(o) => Some(o.duplicate()),
            None => None,
        };
        let variant = Variant::new(
            provider,
            string_of(kind.name()),
            VariantProviderConfigSource::of(kind, conf, &p.table(kind).config),
            fm_properties,
            overrides,
            global_provider_properties,
            model_resolved_property,
            env,
        );
        if variant.model_info.is_err() {
            Err(ResolveError::NoNameToResolve)
        } else {
            Ok(variant)
        }
    }
}

} // verus!

verus! {

impl Resolver {
    fn resolve_group(&self, appconfig: &AppConfig, group_name_property: ResolvedProperty<String>, env: &Environment) -> (r: Result<Group, ResolveError>)
        ensures
            group_result_view(r) == self.resolve_group_spec(*appconfig, group_name_property@, env@),
    {
        let group_name = group_name_property.value.as_str();
        let group = match appconfig.get_group(group_name) {
            Some(g) => g,
            None => {
                return Err(ResolveError::NotFound(string_of(group_name)));
            },
        };
        let ghost items = crate::config::appconfig::group_members_view(*group);
        let mut members: Vec<GroupMember> = Vec::new();
        proof {
            assert(items.take(0) =~= Seq::<crate::config::appconfig::LongGroupProviderConfigView>::empty());
            assert(members@.map_values(|m: GroupMember| m@) =~= Seq::<GroupMemberView>::empty());
        }
        let mut i: usize = 0;
        while i < group.providers.len()
            invariant
                i <= group.providers@.len(),
                items == crate::config::appconfig::group_members_view(*group),
                group_find(appconfig.groups@, group_name@) == Some(items),
                group_name@ == group_name_property@.value,
                self.members_spec(*appconfig, group_name@, items.take(i as int), env@) == Ok::<
                    Seq<GroupMemberView>,
                    ResolveErrorView,
                >(members@.map_values(|m: GroupMember| m@)),
            decreases group.providers@.len() - i,
        {
            proof {
                assert(items.take(i + 1).drop_last() =~= items.take(i as int));
                assert(items.take(i + 1).last() == items[i as int]);
            }
            let item = group.providers[i].to_long();
            let weight = match item.weight {
                Some(w) => w,
                None => 1,
            };
            let name_property = ResolvedProperty {
                source: ResolvedPropertySource::Group(string_of(group_name), string_of(item.name.as_str())),
                value: string_of(item.name.as_str()),
            };
            let name_property2 = ResolvedProperty {
                source: ResolvedPropertySource::Group(string_of(group_name), string_of(item.name.as_str())),
                value: string_of(item.name.as_str()),
            };
            let member = match self.resolve_base(appconfig, name_property, env) {
                Ok(base) => GroupMember::Base(base, weight),
                Err(_) => match self.resolve_variant(appconfig, name_property2, env) {
                    Ok(variant) => GroupMember::Variant(variant, weight),
                    Err(e) => {
                        proof {
                            self.lemma_members_prefix_err(*appconfig, group_name@, items, i + 1, env@);
                        }
                        return Err(group_error_exec(group_name, e));
                    },
                },
            };
            members.push(member);
            proof {
                assert(members@.map_values(|m: GroupMember| m@) =~= self.members_spec(
                    *appconfig,
                    group_name@,
                    items.take(i + 1),
                    env@,
                )->Ok_0);
            }
            i = i + 1;
        }
        proof {
            assert(items.take(i as int) =~= items);
        }
        Ok(Group { name: string_of(group_name), members })
    }

    /// The name to resolve and where it came from.
    fn resolve_name(
        &self,
        input_name: Option<String>,
        global_provider_properties: &GlobalProviderProperties,
        config_default: Option<&String>,
        env: &Environment,
    ) -> (r: Option<ResolvedProperty<String>>)
        ensures
            opt_prop(r) == self.resolve_name_spec(
                crate::config::providers::opt_text(input_name),
                global_provider_properties@,
                match config_default {
                    Some(d) => Some(d@),
                    None => None,
                },
                env@,
            ),
    {
        if let Some(name) = input_name {
            return Some(ResolvedProperty { source: ResolvedPropertySource::Inputs, value: name });
        }
        if let Some(overrides) = &self.overrides {
            if let Some(model) = &overrides.model {
                return Some(property::clone_prop_text(model));
            }
        }
        if let Some(fm) = &self.fm_properties {
            if let Some(model) = &fm.model {
                return Some(property::clone_prop_text(model));
            }
        }
        if let Some(model) = &global_provider_properties.model {
            return Some(
                ResolvedProperty {
                    source: ResolvedPropertySource::Globals,
                    value: string_of(model.as_str()),
                },
            );
        }
        if let Some(model) = config_default {
            return Some(
                ResolvedProperty {
                    source: ResolvedPropertySource::Globals,
                    value: string_of(model.as_str()),
                },
            );
        }
        match env.find("PROMPTCMD_MODEL") {
            Some(v) => Some(
                ResolvedProperty {
                    source: ResolvedPropertySource::Env(string_of("PROMPTCMD_MODEL")),
                    value: string_of(v.value.as_str()),
                },
            ),
            None => None,
        }
    }

    /// Resolves the name to use (see `resolve_name_spec`) as a base, a
    /// variant or a group, in that order.
    pub fn resolve(&self, appconfig: &AppConfig, input_name: Option<String>, env: &Environment) -> (r: Result<ResolvedConfig, ResolveError>)
        ensures
            resolved_result_view(r) == self.resolve_spec(
                *appconfig,
                crate::config::providers::opt_text(input_name),
                env@,
            ),
    {
        let name_property = match self.resolve_name(
            input_name,
            &appconfig.providers.globals,
            appconfig.providers.default.as_ref(),
            env,
        ) {
            Some(p) => p,
            None => {
                return Err(ResolveError::NoNameToResolve);
            },
        };
        match self.resolve_base(appconfig, property::clone_prop_text(&name_property), env) {
            Ok(base) => Ok(ResolvedConfig::Base(base)),
            Err(ResolveError::NotFound(_)) => {
                match self.resolve_variant(appconfig, property::clone_prop_text(&name_property), env) {
                    Ok(variant) => Ok(ResolvedConfig::Variant(variant)),
                    Err(ResolveError::NotFound(_)) => {
                        match self.resolve_group(appconfig, name_property, env) {
                            Ok(group) => Ok(ResolvedConfig::Group(group)),
                            Err(err) => Err(err),
                        }
                    },
                    Err(err) => Err(err),
                }
            },
            Err(err) => Err(err),
        }
    }
}

} // verus!
