use promptcmd::config::resolver::property::{ResolvedGlobalProperties, ResolvedProperty, ResolvedPropertySource};
use promptcmd::config::providers::error::ToLLMBuilderError;
use promptcmd::config::appconfig::{AppConfig, GroupConfig, GroupProviderConfig, LongGroupProviderConfig, NamedGroup};
use promptcmd::config::environment::{EnvVar, Environment};
use promptcmd::config::providers::{Config, NamedConfig};
use promptcmd::config::resolver::error::ResolveError;
use promptcmd::config::resolver::{ResolvedConfig, Resolver};
use promptcmd::lb::weighted_lb::{SummaryItem, WeightedLoadBalancer};
use promptcmd::lb::{BalanceLevel, BalanceScope, Choice, FetchError};

fn sample_config() -> AppConfig {
    let mut cfg = AppConfig::default();
    cfg.providers.anthropic.config.api_key = Some("sk-test".to_string());
    cfg.providers.anthropic.config.model = Some("sonnet-4-5".to_string());
    cfg.providers.anthropic.named.push(NamedConfig {
        name: "glados".to_string(),
        config: Config { system: Some("Use sarcasm.".to_string()), ..Config::default() },
    });
    cfg.providers.openai.config.api_key = Some("key".to_string());
    cfg.providers.openai.config.model = Some("gpt-4o".to_string());
    cfg.providers.google.config.api_key = Some("gkey".to_string());
    cfg.providers.google.config.model = Some("gemini".to_string());
    cfg.groups.push(NamedGroup {
        name: "balanced".to_string(),
        config: GroupConfig {
            providers: vec![
                GroupProviderConfig::Short("openai".to_string()),
                GroupProviderConfig::Long(LongGroupProviderConfig { name: "google".to_string(), weight: Some(3) }),
            ],
        },
    });
    cfg
}

fn no_env() -> Environment {
    Environment { vars: Vec::new() }
}

fn resolver() -> Resolver {
    Resolver { overrides: None, fm_properties: None }
}

#[test]
fn resolve_provider_name_gives_base() {
    let cfg = sample_config();
    match resolver().resolve(&cfg, Some("openai".to_string()), &no_env()) {
        Ok(ResolvedConfig::Base(base)) => {
            assert_eq!(base.name, "openai");
            let info = base.model_info.unwrap();
            assert_eq!(info.provider, "openai");
            assert_eq!(info.model, "gpt-4o");
        }
        _ => panic!("expected a base configuration"),
    }
}

#[test]
fn resolve_provider_and_model() {
    let cfg = sample_config();
    match resolver().resolve(&cfg, Some("openai/gpt-4.1".to_string()), &no_env()) {
        Ok(ResolvedConfig::Base(base)) => assert_eq!(base.model_info.unwrap().model, "gpt-4.1"),
        _ => panic!("expected a base configuration"),
    }
}

#[test]
fn resolve_variant_name() {
    let cfg = sample_config();
    match resolver().resolve(&cfg, Some("glados".to_string()), &no_env()) {
        Ok(ResolvedConfig::Variant(v)) => {
            assert_eq!(v.name, "glados");
            assert_eq!(v.base_name, "anthropic");
            assert_eq!(v.globals.system.unwrap().value, "Use sarcasm.");
            assert_eq!(v.model_info.unwrap().model, "sonnet-4-5");
        }
        _ => panic!("expected a variant"),
    }
}

#[test]
fn resolve_group_members_in_order() {
    let cfg = sample_config();
    match resolver().resolve(&cfg, Some("balanced".to_string()), &no_env()) {
        Ok(ResolvedConfig::Group(g)) => {
            assert_eq!(g.name, "balanced");
            assert_eq!(g.members.len(), 2);
            assert_eq!(g.members[0].weight(), 1);
            assert_eq!(g.members[1].weight(), 3);
        }
        _ => panic!("expected a group"),
    }
}

#[test]
fn resolve_unknown_name() {
    let cfg = sample_config();
    match resolver().resolve(&cfg, Some("nothing".to_string()), &no_env()) {
        Err(ResolveError::NotFound(n)) => assert_eq!(n, "nothing"),
        _ => panic!("expected NotFound"),
    }
}

#[test]
fn resolve_without_any_name() {
    let cfg = sample_config();
    match resolver().resolve(&cfg, None, &no_env()) {
        Err(ResolveError::NoNameToResolve) => {}
        _ => panic!("expected NoNameToResolve"),
    }
}

#[test]
fn resolve_name_from_default() {
    let mut cfg = sample_config();
    cfg.providers.default = Some("anthropic".to_string());
    match resolver().resolve(&cfg, None, &no_env()) {
        Ok(ResolvedConfig::Base(base)) => assert_eq!(base.name, "anthropic"),
        _ => panic!("expected the default provider"),
    }
}

#[test]
fn resolve_env_fills_in_model() {
    let mut cfg = sample_config();
    cfg.providers.openai.config.model = None;
    let env = Environment {
        vars: vec![EnvVar { name: "PROMPTCMD_OPENAI_MODEL".to_string(), value: "gpt-env".to_string(), float_bits: None }],
    };
    match resolver().resolve(&cfg, Some("openai".to_string()), &env) {
        Ok(ResolvedConfig::Base(base)) => assert_eq!(base.model_info.unwrap().model, "gpt-env"),
        _ => panic!("expected a base configuration"),
    }
    // The provider's table comes after the variables and wins.
    let cfg = sample_config();
    match resolver().resolve(&cfg, Some("openai".to_string()), &env) {
        Ok(ResolvedConfig::Base(base)) => assert_eq!(base.model_info.unwrap().model, "gpt-4o"),
        _ => panic!("expected a base configuration"),
    }
}

#[test]
fn balancer_picks_member_furthest_behind() {
    let cfg = sample_config();
    let group = match resolver().resolve(&cfg, Some("balanced".to_string()), &no_env()) {
        Ok(ResolvedConfig::Group(g)) => g,
        _ => panic!("expected a group"),
    };
    let lb = WeightedLoadBalancer::new();
    let queries = lb.summary_queries(&group, &BalanceScope::Group, &BalanceLevel::Variant).unwrap();
    assert_eq!(queries.len(), 2);
    let usage = |tokens: u32| -> Result<Vec<SummaryItem>, FetchError> {
        Ok(vec![SummaryItem {
            provider: String::new(),
            model: String::new(),
            count: 1,
            prompt_tokens: tokens,
            completion_tokens: 0,
            tps: 0,
        }])
    };
    // openai (weight 1) used 100 tokens, google (weight 3) used 100: google is behind.
    match lb.choose_member(&group, &vec![usage(100), usage(100)]).unwrap() {
        Choice::Base(b) => assert_eq!(b.name, "google"),
        _ => panic!("expected a base member"),
    }
    // google used far more than its share: openai is behind.
    match lb.choose_member(&group, &vec![usage(10), usage(1000)]).unwrap() {
        Choice::Base(b) => assert_eq!(b.name, "openai"),
        _ => panic!("expected a base member"),
    }
}

#[test]
fn resolve_variant_reads_upper_case_env() {
    let cfg = sample_config();
    let env = Environment {
        vars: vec![EnvVar {
            name: "PROMPTCMD_ANTHROPIC_GLADOS_MAX_TOKENS".to_string(),
            value: "77".to_string(),
            float_bits: None,
        }],
    };
    match resolver().resolve(&cfg, Some("glados".to_string()), &env) {
        Ok(ResolvedConfig::Variant(v)) => assert_eq!(v.globals.max_tokens.unwrap().value, 77),
        _ => panic!("expected a variant"),
    }
}

#[test]
fn client_settings_need_api_key() {
    let mut cfg = sample_config();
    cfg.providers.openai.config.api_key = None;
    match resolver().resolve(&cfg, Some("openai".to_string()), &no_env()) {
        Ok(ResolvedConfig::Base(base)) => match base.resolved.client() {
            Err(ToLLMBuilderError::RequiredConfiguration(p, s)) => {
                assert_eq!(p, "openai");
                assert_eq!(s, "api_key");
            }
            _ => panic!("expected a missing api key"),
        },
        _ => panic!("expected a base configuration"),
    }
    let cfg = sample_config();
    match resolver().resolve(&cfg, Some("openai".to_string()), &no_env()) {
        Ok(ResolvedConfig::Base(base)) => {
            let (info, settings) = base.resolved.client().unwrap();
            assert_eq!(info.model, "gpt-4o");
            assert_eq!(settings.model, "gpt-4o");
            assert_eq!(settings.api_key.as_deref(), Some("key"));
        }
        _ => panic!("expected a base configuration"),
    }
}

fn overrides_with_system(system: &str) -> ResolvedGlobalProperties {
    ResolvedGlobalProperties {
        temperature: None,
        max_tokens: None,
        model: None,
        system: Some(ResolvedProperty { source: ResolvedPropertySource::Input("cli".to_string()), value: system.to_string() }),
        cache_ttl: None,
        stream: None,
    }
}

#[test]
fn invocation_settings_win_over_tables() {
    let mut cfg = sample_config();
    cfg.providers.openai.config.system = Some("from table".to_string());
    let r = Resolver { overrides: Some(overrides_with_system("from invocation")), fm_properties: None };
    match r.resolve(&cfg, Some("openai".to_string()), &no_env()) {
        Ok(ResolvedConfig::Base(base)) => assert_eq!(base.globals.system.unwrap().value, "from invocation"),
        _ => panic!("expected a base configuration"),
    }
    let r = Resolver { overrides: Some(overrides_with_system("from invocation")), fm_properties: None };
    match r.resolve(&cfg, Some("glados".to_string()), &no_env()) {
        Ok(ResolvedConfig::Variant(v)) => assert_eq!(v.globals.system.unwrap().value, "from invocation"),
        _ => panic!("expected a variant"),
    }
}

#[test]
fn explicit_name_wins_over_default() {
    let mut cfg = sample_config();
    cfg.providers.default = Some("anthropic".to_string());
    match resolver().resolve(&cfg, Some("google".to_string()), &no_env()) {
        Ok(ResolvedConfig::Base(base)) => assert_eq!(base.name, "google"),
        _ => panic!("expected the named provider"),
    }
}
