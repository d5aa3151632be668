pub mod flow;
pub mod partiallog;
pub mod streaming_code_extractor;
pub mod streaming_output;
pub mod structured_streaming_output;

use vstd::prelude::*;

use crate::config::appconfig::AppConfig;
use crate::config::providers::error::ToLLMBuilderError;
use crate::config::resolver::error::ResolveError;
use crate::config::resolver::property::ResolvedGlobalProperties;
use crate::dotprompt::args::DotPromptArgsError;
use crate::dotprompt::{split_source, split_source_spec, DotPrompt, Frontmatter, ParseDotPromptError};
use crate::lb::weighted_lb::WeightedLoadBalancer;
use crate::lb::LBError;
use crate::text::{join_spec, join_strings, push_char, push_str, string_of, trim, trim_spec};

verus! {

/// Why a prompt could not be executed.
#[derive(Debug)]
pub enum ExecutorErorr {
    PromptFilesStorageError(String),
    DotPromptParseError(ParseDotPromptError),
    DotPromptRenderError(DotPromptArgsError),
    ResolverError(ResolveError),
    LMBuilderError(ToLLMBuilderError),
    /// The model's failure, with its message.
    LLMError(String),
    LoadBalancerError(LBError),
    /// A JSON failure, with its message.
    JSONError(String),
    Other(String),
}

/// What a prompt answers with.
#[derive(Debug, Clone, Copy, PartialEq, Eq, Structural)]
pub enum OutputFormat {
    Text,
    Json,
    Code,
}

/// The output format that a prompt's format name asks for: `json` and
/// `code` name their formats, any other name is plain text.
pub open spec fn format_named(name: Seq<char>) -> OutputFormat {
    if name == "json"@ {
        OutputFormat::Json
    } else if name == "code"@ {
        OutputFormat::Code
    } else {
        OutputFormat::Text
    }
}

pub fn output_format_of(name: &str) -> (r: OutputFormat)
    ensures
        r == format_named(name@),
{
    if crate::text::str_eq(name, "json") {
        OutputFormat::Json
    } else if crate::text::str_eq(name, "code") {
        OutputFormat::Code
    } else {
        OutputFormat::Text
    }
}

/// Runs prompts against the configured models.
pub struct Executor {
    pub loadbalancer: WeightedLoadBalancer,
    pub appconfig: AppConfig,
}

pub open spec fn no_model_message() -> Seq<char> {
    "No model specified and no default model set in config"@
}

/// A resolution failure as an execution failure: that no name was given
/// becomes a message of its own.
pub fn resolve_failure(err: ResolveError) -> (r: ExecutorErorr)
    ensures
        err is NoNameToResolve ==> (r matches ExecutorErorr::Other(m) && m@ == no_model_message()),
        !(err is NoNameToResolve) ==> r == ExecutorErorr::ResolverError(err),
{
    match err {
        ResolveError::NoNameToResolve => ExecutorErorr::Other(
            string_of("No model specified and no default model set in config"),
        ),
        err => ExecutorErorr::ResolverError(err),
    }
}

/// A call of `read` on the frontmatter text `text` gave `f`.
pub open spec fn frontmatter_read<F: Fn(&str) -> Result<Frontmatter, String>>(
    read: F,
    text: Seq<char>,
    f: Result<Frontmatter, String>,
) -> bool {
    exists|t: &str| t@ == text && #[trigger] read.ensures((t,), f)
}

impl Executor {
    /// The prompt `promptname` from what the prompt store gave for it: the
    /// file's path and content, or the store's failure. The file is split
    /// into frontmatter and template, and `read` reads the frontmatter text.
    pub fn load_dotprompt<F: Fn(&str) -> Result<Frontmatter, String>>(
        &self,
        promptname: &str,
        stored: Result<(String, String), String>,
        read: &F,
    ) -> (r: Result<DotPrompt, ExecutorErorr>)
        requires
            forall|s: &str| #[trigger] read.requires((s,)),
        ensures
            match stored {
                Err(e) => r matches Err(ExecutorErorr::PromptFilesStorageError(m)) && m@ == e@,
                Ok(file) => match split_source_spec(file.1@) {
                    Err(m) => r matches Err(ExecutorErorr::DotPromptParseError(e)) && e.0@ == m,
                    Ok(parts) => exists|f: Result<Frontmatter, String>|
                        #[trigger] frontmatter_read(*read, parts.0, f) && match f {
                            Ok(fm) => r matches Ok(p) && p.frontmatter == fm && p.template@
                                == parts.1,
                            Err(m) => r matches Err(ExecutorErorr::DotPromptParseError(e))
                                && e.0@ == "invalid YAML frontmatter: "@ + m@,
                        },
                },
            },
    {
        match stored {
            Err(e) => Err(ExecutorErorr::PromptFilesStorageError(e)),
            Ok((_path, content)) => match split_source(content.as_str()) {
                Err(e) => Err(ExecutorErorr::DotPromptParseError(e)),
                Ok((fm, template)) => {
                    let f = read(fm.as_str());
                    assert(frontmatter_read(*read, fm@, f));
                    match DotPrompt::from_parts(f, template) {
                        Ok(p) => Ok(p),
                        Err(e) => Err(ExecutorErorr::DotPromptParseError(e)),
                    }
                },
            },
        }
    }
}

// ---------------------------------------------------------------------------
// Cache keys
// ---------------------------------------------------------------------------
/// The 64-bit XXH3 hash, with seed 0, of the UTF-8 encoding of `s`.
pub uninterp spec fn xxh3_64_of(s: Seq<char>) -> u64;

/// `xxhash_rust::xxh3::xxh3_64` on the bytes of `s`. The contract names the
/// hash.
#[verifier::external_body]
fn xxh3_of(s: &str) -> (r: u64)
    ensures
        r == xxh3_64_of(s@),
{
    xxhash_rust::xxh3::xxh3_64(s.as_bytes())
}

/// `s` without spaces and line feeds.
pub open spec fn without_blanks(s: Seq<char>) -> Seq<char>
    decreases s.len(),
{
    if s.len() == 0 {
        s
    } else if s.last() == ' ' || s.last() == '\n' {
        without_blanks(s.drop_last())
    } else {
        without_blanks(s.drop_last()).push(s.last())
    }
}

fn strip_blanks(s: &str) -> (r: String)
    ensures
        r@ == without_blanks(s@),
{
    let cs = crate::text::chars_of(s);
    let mut r = String::new();
    let mut i: usize = 0;
    while i < cs.len()
        invariant
            i <= cs@.len(),
            cs@ == s@,
            r@ == without_blanks(cs@.take(i as int)),
        decreases cs@.len() - i,
    {
        proof {
            assert(cs@.take(i + 1).drop_last() =~= cs@.take(i as int));
        }
        let c = cs[i];
        if c != ' ' && c != '\n' {
            push_char(&mut r, c);
        }
        i = i + 1;
    }
    proof {
        assert(cs@.take(cs@.len() as int) =~= cs@);
    }
    r
}

pub open spec fn or_dash(o: Option<Seq<char>>) -> Seq<char> {
    match o {
        Some(s) => s,
        None => "-"@,
    }
}

/// The text whose hash keys the cache: the prompt, the provider, the model,
/// the variant and the group (`-` where there is none) and the rendered
/// prompt without spaces and line feeds, separated by `|`.
pub open spec fn cache_key_text(
    promptname: Seq<char>,
    provider: Seq<char>,
    model: Seq<char>,
    variant: Option<Seq<char>>,
    group: Option<Seq<char>>,
    data: Seq<char>,
) -> Seq<char> {
    promptname + "|"@ + provider + "|"@ + model + "|"@ + or_dash(variant) + "|"@ + or_dash(group)
        + "|"@ + without_blanks(data)
}

pub open spec fn opt_view(o: Option<&str>) -> Option<Seq<char>> {
    match o {
        Some(s) => Some(s@),
        None => None,
    }
}

/// The cache key of an execution: the hash of its key text, its bits read
/// as a signed number.
pub fn cache_key(
    promptname: &str,
    provider: &str,
    model: &str,
    variant: Option<&str>,
    group: Option<&str>,
    data: &str,
) -> (r: i64)
    ensures
        r == xxh3_64_of(
            cache_key_text(promptname@, provider@, model@, opt_view(variant), opt_view(group), data@),
        ) as i64,
{
    proof {
        reveal_strlit("|");
        reveal_strlit("-");
    }
    let mut full = string_of(promptname);
    push_char(&mut full, '|');
    push_str(&mut full, provider);
    push_char(&mut full, '|');
    push_str(&mut full, model);
    push_char(&mut full, '|');
    match variant {
        Some(v) => push_str(&mut full, v),
        None => push_char(&mut full, '-'),
    }
    push_char(&mut full, '|');
    match group {
        Some(g) => push_str(&mut full, g),
        None => push_char(&mut full, '-'),
    }
    push_char(&mut full, '|');
    let stripped = strip_blanks(data);
    push_str(&mut full, stripped.as_str());
    assert(full@ =~= cache_key_text(
        promptname@,
        provider@,
        model@,
        opt_view(variant),
        opt_view(group),
        data@,
    ));
    let h = xxh3_of(full.as_str());
    h as i64
}

// ---------------------------------------------------------------------------
// Answers in code format
// ---------------------------------------------------------------------------
/// A fenced code block: three backticks, an optional language of word
/// characters, a line feed, the code (as little as possible, across lines),
/// three backticks.
pub const FENCE_PATTERN: &'static str = "(?s)```(?:\\w+)?\\n(.*?)```";

/// What `regex` finds for `pattern` in `input`: for each successive
/// non-overlapping match, the text of its first group (empty where the group
/// took no part); `None` where the pattern is no valid expression.
pub uninterp spec fn regex_group1_all(pattern: Seq<char>, input: Seq<char>) -> Option<
    Seq<Seq<char>>,
>;

/// `regex::Regex::new` and `captures_iter`, keeping each match's first
/// group. The contract names the result.
#[verifier::external_body]
fn captures_group1(pattern: &str, input: &str) -> (r: Option<Vec<String>>)
    ensures
        regex_group1_all(pattern@, input@) == match r {
            Some(v) => Some(v@.map_values(|s: String| s@)),
            None => None::<Seq<Seq<char>>>,
        },
{
    let re = regex::Regex::new(pattern).ok()?;
    Some(
        re.captures_iter(input).map(
            |c| c.get(1).map_or(String::new(), |m| m.as_str().to_string()),
        ).collect(),
    )
}

/// The code of the fenced code blocks of `input`, in order.
pub open spec fn fenced_code_spec(input: Seq<char>) -> Seq<Seq<char>> {
    match regex_group1_all(FENCE_PATTERN@, input) {
        Some(v) => v,
        None => Seq::empty(),
    }
}

/// The code of the fenced code blocks of `input`, in order.
pub fn extract_fenced_code(input: &str) -> (r: Vec<String>)
    ensures
        r@.map_values(|s: String| s@) == fenced_code_spec(input@),
{
    match captures_group1(FENCE_PATTERN, input) {
        Some(v) => v,
        None => {
            let v: Vec<String> = Vec::new();
            assert(v@.map_values(|s: String| s@) =~= Seq::<Seq<char>>::empty());
            v
        },
    }
}

/// What is shown of an answer: for code, the code of its fenced blocks
/// joined with line feeds and trimmed, where it has any; else the answer.
pub open spec fn shown_answer(format: OutputFormat, text: Seq<char>) -> Seq<char> {
    let blocks = fenced_code_spec(text);
    if format == OutputFormat::Code && blocks.len() > 0 {
        trim_spec(join_spec(blocks, "\n"@))
    } else {
        text
    }
}

/// What is shown of an answer.
pub fn shown_output(format: OutputFormat, text: String) -> (r: String)
    ensures
        r@ == shown_answer(format, text@),
{
    if format == OutputFormat::Code {
        let blocks = extract_fenced_code(text.as_str());
        if blocks.len() > 0 {
            let joined = join_strings(&blocks, "\n");
            return trim(joined.as_str());
        }
    }
    text
}

// ---------------------------------------------------------------------------
// Choices along an execution
// ---------------------------------------------------------------------------
/// The providers whose streams carry structured responses.
pub open spec fn streams_structured(provider: Seq<char>) -> bool {
    provider == "openai"@ || provider == "google"@ || provider == "openrouter"@
}

pub fn uses_structured_stream(provider: &str) -> (r: bool)
    ensures
        r == streams_structured(provider@),
{
    crate::text::str_eq(provider, "openai") || crate::text::str_eq(provider, "google")
        || crate::text::str_eq(provider, "openrouter")
}

/// The time to live of cached answers, where one above zero is configured.
pub fn cache_ttl_requested(globals: &ResolvedGlobalProperties) -> (r: Option<u32>)
    ensures
        match globals.cache_ttl {
            Some(p) => if p.value > 0 {
                r == Some(p.value)
            } else {
                r is None
            },
            None => r is None,
        },
{
    match &globals.cache_ttl {
        Some(p) => if p.value > 0 {
            Some(p.value)
        } else {
            None
        },
        None => None,
    }
}

/// Whether the answer is streamed.
pub fn stream_requested(globals: &ResolvedGlobalProperties) -> (r: bool)
    ensures
        r == match globals.stream {
            Some(p) => p.value,
            None => false,
        },
{
    match &globals.stream {
        Some(p) => p.value,
        None => false,
    }
}

} // verus!

verus! {

/// Executions whose rendered prompts differ only in spaces and line feeds
/// share their cache key.
pub proof fn lemma_cache_key_ignores_blanks(
    promptname: Seq<char>,
    provider: Seq<char>,
    model: Seq<char>,
    variant: Option<Seq<char>>,
    group: Option<Seq<char>>,
    data1: Seq<char>,
    data2: Seq<char>,
)
    requires
        without_blanks(data1) == without_blanks(data2),
    ensures
        cache_key_text(promptname, provider, model, variant, group, data1) == cache_key_text(
            promptname,
            provider,
            model,
            variant,
            group,
            data2,
        ),
{
}

/// Removing spaces and line feeds from joined texts removes them from each.
pub proof fn lemma_without_blanks_append(a: Seq<char>, b: Seq<char>)
    ensures
        without_blanks(a + b) == without_blanks(a) + without_blanks(b),
    decreases b.len(),
{
    if b.len() == 0 {
        assert(a + b =~= a);
        assert(without_blanks(a) + without_blanks(b) =~= without_blanks(a));
    } else {
        lemma_without_blanks_append(a, b.drop_last());
        assert((a + b).drop_last() =~= a + b.drop_last());
        assert((a + b).last() == b.last());
        if !(b.last() == ' ' || b.last() == '\n') {
            assert(without_blanks(a) + without_blanks(b) =~= (without_blanks(a) + without_blanks(
                b.drop_last(),
            )).push(b.last()));
        }
    }
}

/// A space or a line feed inserted anywhere into a rendered prompt leaves
/// its cache key text as it was.
pub proof fn lemma_blank_inserted(a: Seq<char>, b: Seq<char>, c: char)
    requires
        c == ' ' || c == '\n',
    ensures
        without_blanks(a + seq![c] + b) == without_blanks(a + b),
{
    lemma_without_blanks_append(a + seq![c], b);
    lemma_without_blanks_append(a, seq![c]);
    lemma_without_blanks_append(a, b);
    assert(seq![c].drop_last() =~= Seq::<char>::empty());
    assert(seq![c].last() == c);
    assert(without_blanks(Seq::<char>::empty()) == Seq::<char>::empty());
    assert(without_blanks(seq![c]) == without_blanks(seq![c].drop_last()));
    assert(without_blanks(seq![c]) =~= Seq::<char>::empty());
    assert(without_blanks(a) + Seq::<char>::empty() =~= without_blanks(a));
}

} // verus!
