use promptcmd::config::appconfig::{AppConfig, GroupConfig, GroupProviderConfig, NamedGroup};
use promptcmd::config::environment::Environment;
use promptcmd::config::resolver::error::ResolveError;
use promptcmd::config::resolver::Resolver;
use promptcmd::dotprompt::{DotPrompt, Frontmatter, Output};
use promptcmd::executor::cache_key;
use promptcmd::executor::flow::{execute_step, ExecAction, ExecEvent, ExecPhase, ExecState};
use promptcmd::executor::ExecutorErorr;

fn flow_config(ttl: Option<u32>, stream: Option<bool>) -> AppConfig {
    let mut cfg = AppConfig::default();
    cfg.providers.openai.config.api_key = Some("key".to_string());
    cfg.providers.openai.config.model = Some("gpt-4o".to_string());
    cfg.providers.openai.config.cache_ttl = ttl;
    cfg.providers.openai.config.stream = stream;
    cfg.providers.ollama.config.model = Some("llama".to_string());
    cfg.groups.push(NamedGroup {
        name: "pair".to_string(),
        config: GroupConfig {
            providers: vec![GroupProviderConfig::Short("openai".to_string()), GroupProviderConfig::Short("ollama".to_string())],
        },
    });
    cfg
}

fn prompt(format: &str) -> DotPrompt {
    DotPrompt {
        frontmatter: Frontmatter {
            model: "openai/gpt-4o".to_string(),
            input: None,
            output: Some(Output { format: format.to_string(), schema: None }),
        },
        template: "Say hi".to_string(),
    }
}

fn resolved(cfg: &AppConfig, name: &str) -> ExecEvent {
    let r = Resolver { overrides: None, fm_properties: None };
    ExecEvent::Resolved(r.resolve(cfg, Some(name.to_string()), &Environment { vars: Vec::new() }))
}

fn start(dp: &DotPrompt, render_only: bool, dry: bool) -> ExecState {
    let (s, a) = execute_step(
        ExecState::new(dp),
        ExecEvent::Start { render_only, dry, rendered: "Say hi".to_string() },
    );
    assert!(matches!(a, ExecAction::Resolve));
    s
}

#[test]
fn render_only_shows_rendered_prompt() {
    let dp = prompt("text");
    let (_, a) = execute_step(
        ExecState::new(&dp),
        ExecEvent::Start { render_only: true, dry: false, rendered: "rendered".to_string() },
    );
    match a {
        ExecAction::ShowRendered(t) => assert_eq!(t, "rendered"),
        _ => panic!("expected the rendered prompt"),
    }
}

#[test]
fn resolve_error_fails_execution() {
    let dp = prompt("text");
    let s = start(&dp, false, false);
    let (_, a) = execute_step(s, ExecEvent::Resolved(Err(ResolveError::NoNameToResolve)));
    match a {
        ExecAction::Fail(ExecutorErorr::Other(m)) => {
            assert_eq!(m, "No model specified and no default model set in config")
        }
        _ => panic!("expected a failure"),
    }
}

#[test]
fn cached_answer_is_shown_without_model_call() {
    let dp = prompt("code");
    let cfg = flow_config(Some(60), None);
    let s = start(&dp, false, false);
    let (s, a) = execute_step(s, resolved(&cfg, "openai"));
    match a {
        ExecAction::LookUpCache { key, ttl } => {
            assert_eq!(ttl, 60);
            assert_eq!(key, cache_key("Say hi", "openai", "gpt-4o", None, None, "Say hi"));
        }
        _ => panic!("expected a cache lookup"),
    }
    let (s, a) = execute_step(s, ExecEvent::CacheAnswer(Some("x\n```py\nprint(1)\n```".to_string())));
    match a {
        ExecAction::Show(t) => assert_eq!(t, "print(1)"),
        _ => panic!("expected the cached answer"),
    }
    assert_eq!(s.current_phase(), ExecPhase::Done);
}

#[test]
fn cache_miss_calls_model_then_answers() {
    let dp = prompt("text");
    let cfg = flow_config(Some(60), Some(false));
    let s = start(&dp, false, false);
    let (s, _) = execute_step(s, resolved(&cfg, "openai"));
    let (s, a) = execute_step(s, ExecEvent::CacheAnswer(None));
    match a {
        ExecAction::CallModel { settings, schema, stream, structured, record } => {
            assert_eq!(settings.model, "gpt-4o");
            assert!(schema.is_none());
            assert!(!stream);
            assert!(structured);
            assert_eq!(record.promptname, "Say hi");
            assert_eq!(record.provider, "openai");
        }
        _ => panic!("expected a model call"),
    }
    let (_, a) = execute_step(s, ExecEvent::Reply(Ok((Some(" hi ".to_string()), Some((3, 4))))));
    match a {
        ExecAction::Answered { shown, outcome } => {
            assert_eq!(shown, " hi ");
            assert!(outcome.success);
            assert_eq!((outcome.prompt_tokens, outcome.completion_tokens), (3, 4));
        }
        _ => panic!("expected an answer"),
    }
}

#[test]
fn no_cache_calls_model_directly_with_stream() {
    let dp = prompt("json");
    let cfg = flow_config(None, Some(true));
    let s = start(&dp, false, false);
    let (_, a) = execute_step(s, resolved(&cfg, "openai"));
    match a {
        ExecAction::CallModel { schema, stream, structured, .. } => {
            assert!(schema.is_some());
            assert!(stream);
            assert!(structured);
        }
        _ => panic!("expected a model call"),
    }
}

#[test]
fn dry_run_never_calls_model() {
    let dp = prompt("text");
    let cfg = flow_config(Some(60), None);
    let s = start(&dp, false, true);
    let (_, a) = execute_step(s, resolved(&cfg, "openai"));
    match a {
        ExecAction::DryRun { target, rendered } => {
            assert_eq!(target.model_info.model, "gpt-4o");
            assert_eq!(rendered, "Say hi");
        }
        _ => panic!("expected a dry run"),
    }
}

#[test]
fn group_asks_for_usage_then_chooses() {
    let dp = prompt("text");
    let cfg = flow_config(None, None);
    let s = start(&dp, false, false);
    let (s, a) = execute_step(s, resolved(&cfg, "pair"));
    let n = match a {
        ExecAction::FetchSummaries(qs) => qs.len(),
        _ => panic!("expected usage queries"),
    };
    assert_eq!(n, 2);
    let (_, a) = execute_step(s, ExecEvent::Fetched(vec![Ok(Vec::new()), Ok(Vec::new())]));
    match a {
        ExecAction::CallModel { record, .. } => assert_eq!(record.group, Some("pair".to_string())),
        _ => panic!("expected a model call"),
    }
}

#[test]
fn unexpected_event_fails() {
    let dp = prompt("text");
    let (_, a) = execute_step(ExecState::new(&dp), ExecEvent::CacheAnswer(None));
    assert!(matches!(a, ExecAction::Fail(ExecutorErorr::Other(_))));
}
