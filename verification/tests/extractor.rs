use promptcmd::executor::streaming_code_extractor::StreamingCodeExtractor;

fn feed_all(pieces: &[&str]) -> (String, Vec<String>) {
    let mut ex = StreamingCodeExtractor::new();
    let mut out = String::new();
    for p in pieces {
        ex.feed(p, &mut out);
    }
    (out, ex.completed_blocks())
}

#[test]
fn extractor_passes_only_code() {
    let (out, blocks) = feed_all(&["Text\n```rust\nfn main() {}\n```\nafter"]);
    assert_eq!(out, "fn main() {}\n");
    assert_eq!(blocks, vec!["fn main() {}\n".to_string()]);
}

#[test]
fn extractor_same_for_any_chunking() {
    let whole = feed_all(&["a```py\nx = 1\n```b```\ny\n```"]);
    let pieces = feed_all(&["a`", "``p", "y\nx", " = 1\n`", "``b``", "`\ny\n``", "`"]);
    assert_eq!(whole, pieces);
}

#[test]
fn extractor_reports_settled_state() {
    let mut ex = StreamingCodeExtractor::new();
    let mut out = String::new();
    assert!(ex.feed("plain ", &mut out));
    assert!(!ex.feed("``", &mut out));
    assert!(ex.feed("`\ncode", &mut out));
    assert_eq!(out, "code");
}

#[test]
fn read_cmd_config_filename() {
    let cmd = promptcmd::read::cmd::ReadCmd { command: "translate".to_string(), rest: vec![] };
    assert_eq!(cmd.config_filename(), "translate.prompt");
}

#[test]
fn extractor_follows_fences_with_an_open_block() {
    let text = "a```rs\nfn x()``` b ```\ny`";
    let pieces: Vec<String> = text.chars().map(|c| c.to_string()).collect();
    let refs: Vec<&str> = pieces.iter().map(|s| s.as_str()).collect();
    let (out, blocks) = feed_all(&refs);
    assert_eq!(blocks, vec!["fn x()".to_string()]);
    assert_eq!(out, "fn x()y");
    let mut ex = StreamingCodeExtractor::new();
    let mut buf = String::new();
    assert!(!ex.feed(text, &mut buf));
    assert_eq!(buf, "fn x()y");
}

#[test]
fn extractor_header_without_line_feed_gives_nothing() {
    let (out, blocks) = feed_all(&["intro ``", "`python no newline yet"]);
    assert_eq!(out, "");
    assert!(blocks.is_empty());
}
