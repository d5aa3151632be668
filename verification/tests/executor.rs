use promptcmd::config::resolver::error::ResolveError;
use promptcmd::config::appconfig::AppConfig;
use promptcmd::dotprompt::Frontmatter;
use promptcmd::executor::partiallog::{ChatOutcome, PartialLogRecord};
use promptcmd::lb::weighted_lb::WeightedLoadBalancer;
use promptcmd::executor::streaming_output::{StreamEvent, StreamStep, StreamingOutputState};
use promptcmd::executor::structured_streaming_output::{StreamChunk, StructuredStreamingOutputState};
use promptcmd::executor::{
    cache_key, extract_fenced_code, resolve_failure, Executor, shown_output, uses_structured_stream, ExecutorErorr,
    OutputFormat,
};

fn record() -> PartialLogRecord {
    PartialLogRecord {
        promptname: "p".to_string(),
        group: None,
        variant: None,
        provider: "openai".to_string(),
        model: "m".to_string(),
        cache_key: None,
    }
}

#[test]
fn cache_key_ignores_spaces_and_newlines() {
    let a = cache_key("p", "openai", "gpt", None, Some("g"), "hello world\n");
    let b = cache_key("p", "openai", "gpt", None, Some("g"), "helloworld");
    assert_eq!(a, b);
}

#[test]
fn cache_key_distinguishes_fields() {
    let a = cache_key("p", "openai", "gpt", None, None, "x");
    let b = cache_key("p", "openai", "gpt", Some("v"), None, "x");
    let c = cache_key("q", "openai", "gpt", None, None, "x");
    assert_ne!(a, b);
    assert_ne!(a, c);
}

#[test]
fn cache_key_hashes_the_key_text() {
    let expected = xxhash_rust::xxh3::xxh3_64("p|openai|gpt|-|-|ab".as_bytes()) as i64;
    assert_eq!(cache_key("p", "openai", "gpt", None, None, "a b"), expected);
}

#[test]
fn fenced_code_is_extracted() {
    let text = "Here:\n```bash\necho hi\n```\nand\n```\nls\n```";
    assert_eq!(extract_fenced_code(text), vec!["echo hi\n".to_string(), "ls\n".to_string()]);
}

#[test]
fn code_output_shows_only_code() {
    let text = "Here:\n```bash\necho hi\n```\nand\n```\nls\n```".to_string();
    assert_eq!(shown_output(OutputFormat::Code, text.clone()), "echo hi\n\nls");
    assert_eq!(shown_output(OutputFormat::Text, text.clone()), text);
    assert_eq!(shown_output(OutputFormat::Code, "no code".to_string()), "no code");
}

#[test]
fn structured_stream_providers() {
    assert!(uses_structured_stream("openai"));
    assert!(uses_structured_stream("google"));
    assert!(uses_structured_stream("openrouter"));
    assert!(!uses_structured_stream("ollama"));
    assert!(!uses_structured_stream("anthropic"));
}

#[test]
fn missing_name_has_its_own_message() {
    match resolve_failure(ResolveError::NoNameToResolve) {
        ExecutorErorr::Other(m) => assert_eq!(m, "No model specified and no default model set in config"),
        other => panic!("unexpected {:?}", other),
    }
    match resolve_failure(ResolveError::NoGroups) {
        ExecutorErorr::ResolverError(ResolveError::NoGroups) => {}
        other => panic!("unexpected {:?}", other),
    }
}

#[test]
fn plain_stream_collects_chunks() {
    let mut s = StreamingOutputState::new(record());
    match s.on_event(StreamEvent::Chunk("ab".to_string())) {
        StreamStep::Emit(t) => assert_eq!(t, "ab"),
        other => panic!("unexpected {:?}", other),
    }
    s.on_event(StreamEvent::Chunk("c".to_string()));
    assert!(matches!(s.on_event(StreamEvent::Ended), StreamStep::Ended));
    let log = s.log_data(true, 7);
    assert_eq!(log.result, "abc");
    assert_eq!(log.time_taken, 7);
    let failed = s.log_data(false, 7);
    assert!(!failed.success);
    assert_eq!(failed.time_taken, 0);
}

#[test]
fn structured_stream_keeps_text_and_usage() {
    let mut s = StructuredStreamingOutputState::new(record(), OutputFormat::Text);
    let out = s.on_chunk(StreamChunk {
        contents: vec![Some("Hel".to_string()), None, Some("lo".to_string())],
        usage: Some((3, 4)),
    });
    assert_eq!(out, Some("Hello".to_string()));
    let log = s.log_data(true, 2);
    assert_eq!(log.result, "Hello");
    assert_eq!((log.prompt_tokens, log.completion_tokens), (3, 4));
}

#[test]
fn structured_stream_code_format_emits_code_only() {
    let mut s = StructuredStreamingOutputState::new(record(), OutputFormat::Code);
    let mut shown = String::new();
    for piece in ["```sh\n", "echo hi\n", "```\n"] {
        if let Some(t) = s.on_chunk(StreamChunk { contents: vec![Some(piece.to_string())], usage: None }) {
            shown.push_str(&t);
        }
    }
    assert_eq!(shown, "echo hi\n");
}

fn executor() -> Executor {
    Executor { loadbalancer: WeightedLoadBalancer::new(), appconfig: AppConfig::default() }
}

fn model_only(text: &str) -> Result<Frontmatter, String> {
    if text.starts_with("model:") {
        Ok(Frontmatter { model: text[6..].trim().to_string(), input: None, output: None })
    } else {
        Err("no model".to_string())
    }
}

#[test]
fn load_dotprompt_parses_stored_file() {
    let stored = Ok(("/p/hello.prompt".to_string(), "---\nmodel: openai/gpt\n---\nSay {{name}}\n".to_string()));
    let p = executor().load_dotprompt("hello", stored, &model_only).unwrap();
    assert_eq!(p.frontmatter.model, "openai/gpt");
    assert_eq!(p.template, "Say {{name}}");
}

#[test]
fn load_dotprompt_reports_storage_failure() {
    match executor().load_dotprompt("hello", Err("not found".to_string()), &model_only) {
        Err(ExecutorErorr::PromptFilesStorageError(m)) => assert_eq!(m, "not found"),
        other => panic!("unexpected {:?}", other.map(|p| p.template)),
    }
}

#[test]
fn load_dotprompt_reports_missing_delimiter() {
    let stored = Ok(("x".to_string(), "model: a/b\nhello".to_string()));
    match executor().load_dotprompt("hello", stored, &model_only) {
        Err(ExecutorErorr::DotPromptParseError(e)) => {
            assert_eq!(e.0, "input must start with frontmatter delimiter `---`")
        }
        other => panic!("unexpected {:?}", other.map(|p| p.template)),
    }
}

#[test]
fn load_dotprompt_reports_bad_frontmatter() {
    let stored = Ok(("x".to_string(), "---\nmodle: a/b\n---\nhello".to_string()));
    match executor().load_dotprompt("hello", stored, &model_only) {
        Err(ExecutorErorr::DotPromptParseError(e)) => assert_eq!(e.0, "invalid YAML frontmatter: no model"),
        other => panic!("unexpected {:?}", other.map(|p| p.template)),
    }
}

#[test]
fn chat_outcome_of_reply() {
    let ok = ChatOutcome::from_reply(Ok((Some(" answer\n".to_string()), Some((12, 34)))));
    assert!(ok.success);
    assert_eq!(ok.text, " answer\n");
    let data = ok.log_data(7);
    assert!(data.success);
    assert_eq!(data.result, " answer\n");
    assert_eq!((data.prompt_tokens, data.completion_tokens, data.time_taken), (12, 34, 7));

    let bare = ChatOutcome::from_reply(Ok((None, None)));
    assert!(bare.success);
    assert_eq!(bare.text, "");
    assert_eq!((bare.prompt_tokens, bare.completion_tokens), (0, 0));

    let failed = ChatOutcome::from_reply(Err("timeout".to_string()));
    assert!(!failed.success);
    assert_eq!(failed.text, "timeout");
    let data = failed.log_data(3);
    assert!(!data.success);
    assert_eq!(data.result, "timeout");
    assert_eq!((data.prompt_tokens, data.completion_tokens, data.time_taken), (0, 0, 3));
}
