use vstd::prelude::*;

use crate::config::providers::ModelInfo;
use crate::config::providers::opt_text;
use crate::config::resolver::base::ResolvedProviderConfigView;
use crate::config::resolver::client::{client_spec, client_view, LlmSettings};
use crate::config::resolver::error::ResolveError;
use crate::config::resolver::group::{Group, GroupMemberView};
use crate::config::resolver::property::{GlobalsView, ResolvedGlobalProperties};
use crate::config::resolver::base::ResolvedProviderConfig;
use crate::config::resolver::ResolvedConfig;
use crate::dotprompt::DotPrompt;
use crate::executor::partiallog::{reply_outcome, ChatOutcome, PartialLogRecord};
use crate::executor::{
    cache_key, cache_key_text, cache_ttl_requested, format_named, no_model_message,
    output_format_of, resolve_failure, shown_answer, shown_output, stream_requested,
    streams_structured, uses_structured_stream, xxh3_64_of, ExecutorErorr, OutputFormat,
};
use crate::lb::weighted_lb::{
    choose_spec, fetched_view, first_model_error, query_spec, SummaryItem, SummaryQuery,
    WeightedLoadBalancer,
};
use crate::lb::{BalanceLevel, BalanceScope, Choice, FetchError, LBError};
use crate::text::string_of;

verus! {

/// Where an execution stands.
#[derive(Debug, Clone, Copy, PartialEq, Eq, Structural)]
pub enum ExecPhase {
    /// Nothing has happened yet.
    Start,
    /// Waiting for the name of the model to be resolved.
    Resolving,
    /// Waiting for the usage of the members of a group.
    Balancing,
    /// Waiting for a cached answer.
    CacheLookup,
    /// Waiting for the model's answer.
    Calling,
    /// The execution has ended.
    Done,
}

/// The model chosen for an execution, and what the execution asks of it.
#[derive(Debug)]
pub struct Target {
    pub model_info: ModelInfo,
    pub settings: LlmSettings,
    /// Whether the answer is streamed.
    pub stream: bool,
    /// Whether the provider streams structured responses.
    pub structured: bool,
    /// How long cached answers may be reused, where caching is asked for.
    pub cache_ttl: Option<u32>,
    /// The variant chosen, where one was.
    pub variant: Option<String>,
    /// The group balanced over, where one was.
    pub group: Option<String>,
    pub cache_key: i64,
}

/// What happened outside, handed to the execution.
pub enum ExecEvent {
    /// The execution is asked for, with its prompt rendered.
    Start { render_only: bool, dry: bool, rendered: String },
    /// What the name of the model resolved to.
    Resolved(Result<ResolvedConfig, ResolveError>),
    /// The usage of each member of the group, in the order of the queries.
    Fetched(Vec<Result<Vec<SummaryItem>, FetchError>>),
    /// The cached answer, where there is one.
    CacheAnswer(Option<String>),
    /// The model's reply: its text and token counts, or its failure.
    Reply(Result<(Option<String>, Option<(u32, u32)>), String>),
}

/// What the execution asks to be done next.
pub enum ExecAction {
    /// Print the rendered prompt; nothing more.
    ShowRendered(String),
    /// Resolve the model's name.
    Resolve,
    /// Fetch the usage of the members of the group.
    FetchSummaries(Vec<SummaryQuery>),
    /// Show what would be run; nothing more.
    DryRun { target: Target, rendered: String },
    /// Look for an answer cached under `key` less than `ttl` seconds ago.
    LookUpCache { key: i64, ttl: u32 },
    /// Call the model with the rendered prompt: streamed or not, and through
    /// a structured stream or not; `schema` is the JSON schema that a
    /// structured answer must follow. `record` is what the statistics record.
    CallModel {
        settings: LlmSettings,
        schema: Option<String>,
        stream: bool,
        structured: bool,
        record: PartialLogRecord,
    },
    /// Show this answer; nothing more.
    Show(String),
    /// Show this answer and record this outcome; nothing more.
    Answered { shown: String, outcome: ChatOutcome },
    /// The execution fails.
    Fail(ExecutorErorr),
}

/// An execution of a prompt, step by step.
pub struct ExecState {
    phase: ExecPhase,
    template: String,
    format: OutputFormat,
    schema: Option<String>,
    dry: bool,
    rendered: String,
    group: Option<Group>,
    target: Option<Target>,
}

/// How long cached answers may be reused: the configured time, where one
/// above zero is configured.
pub open spec fn ttl_of(g: GlobalsView) -> Option<u32> {
    match g.cache_ttl {
        Some(p) => if p.value > 0 {
            Some(p.value)
        } else {
            None
        },
        None => None,
    }
}

/// Whether the answer is streamed.
pub open spec fn stream_of(g: GlobalsView) -> bool {
    match g.stream {
        Some(p) => p.value,
        None => false,
    }
}

/// `t` is the target for the resolved provider settings `rv` and properties
/// `gv`, through `variant` and `group`, for the prompt `template` rendered as
/// `rendered`.
pub open spec fn target_matches(
    t: Target,
    template: Seq<char>,
    rendered: Seq<char>,
    rv: ResolvedProviderConfigView,
    gv: GlobalsView,
    variant: Option<Seq<char>>,
    group: Option<Seq<char>>,
) -> bool {
    &&& client_view(Ok((t.model_info, t.settings))) == client_spec(rv.kind, rv.settings)
    &&& t.stream == stream_of(gv)
    &&& t.structured == streams_structured(t.model_info.provider@)
    &&& t.cache_ttl == ttl_of(gv)
    &&& opt_text(t.variant) == variant
    &&& opt_text(t.group) == group
    &&& t.cache_key == xxh3_64_of(
        cache_key_text(template, t.model_info.provider@, t.model_info.model@, variant, group, rendered),
    ) as i64
}

/// The statistics record of an execution with target `t`.
pub open spec fn record_matches(r: PartialLogRecord, t: Target, template: Seq<char>) -> bool {
    &&& r.promptname@ == template
    &&& r.provider@ == t.model_info.provider@
    &&& r.model@ == t.model_info.model@
    &&& opt_text(r.variant) == opt_text(t.variant)
    &&& opt_text(r.group) == opt_text(t.group)
    &&& r.cache_key == Some(t.cache_key)
}

impl ExecState {
    #[verifier::type_invariant]
    spec fn wf(self) -> bool {
        &&& self.phase == ExecPhase::CacheLookup ==> !self.dry && self.target is Some
        &&& self.phase == ExecPhase::Calling ==> !self.dry
        &&& self.phase == ExecPhase::Balancing ==> self.group is Some
    }

    pub closed spec fn phase(self) -> ExecPhase {
        self.phase
    }

    pub closed spec fn is_dry(self) -> bool {
        self.dry
    }

    pub closed spec fn format(self) -> OutputFormat {
        self.format
    }

    pub closed spec fn template(self) -> Seq<char> {
        self.template@
    }

    pub closed spec fn schema(self) -> Option<String> {
        self.schema
    }

    pub closed spec fn rendered(self) -> Seq<char> {
        self.rendered@
    }

    pub closed spec fn group(self) -> Option<Group> {
        self.group
    }

    pub closed spec fn target(self) -> Option<Target> {
        self.target
    }

    /// The execution of `dotprompt`, before anything has happened: its
    /// output format, and for a JSON answer the schema it must follow.
    pub fn new(dotprompt: &DotPrompt) -> (r: ExecState)
        ensures
            r.phase() == ExecPhase::Start,
            r.format() == format_named(
                match dotprompt.frontmatter.output {
                    Some(o) => o.format@,
                    None => "text"@,
                },
            ),
            r.template() == dotprompt.template@,
            r.schema() is Some <==> r.format() == OutputFormat::Json,
            !r.is_dry(),
    {
        let format = output_format_of(dotprompt.output_format().as_str());
        let schema = if format == OutputFormat::Json {
            Some(dotprompt.output_to_extract_structured_json(""))
        } else {
            None
        };
        ExecState {
            phase: ExecPhase::Start,
            template: string_of(dotprompt.template.as_str()),
            format,
            schema,
            dry: false,
            rendered: String::new(),
            group: None,
            target: None,
        }
    }

    /// Where the execution stands.
    pub fn current_phase(&self) -> (r: ExecPhase)
        ensures
            r == self.phase(),
    {
        self.phase
    }

    /// The group being balanced over, while the execution waits for its
    /// usage.
    pub fn balancing_group(&self) -> (r: Option<&Group>)
        ensures
            match self.group() {
                Some(g) => self.phase() == ExecPhase::Balancing ==> r == Some(&g),
                None => true,
            },
            self.phase() != ExecPhase::Balancing ==> r is None,
    {
        if self.phase == ExecPhase::Balancing {
            self.group.as_ref()
        } else {
            None
        }
    }
}

fn copy_opt(o: &Option<String>) -> (r: Option<String>)
    ensures
        opt_text(r) == opt_text(*o),
{
    match o {
        Some(s) => Some(string_of(s.as_str())),
        None => None,
    }
}

fn as_opt_str(o: &Option<String>) -> (r: Option<&str>)
    ensures
        crate::executor::opt_view(r) == opt_text(*o),
{
    match o {
        Some(s) => Some(s.as_str()),
        None => None,
    }
}

/// The target for a resolved base or variant.
fn target_of(
    template: &str,
    rendered: &str,
    resolved: &ResolvedProviderConfig,
    globals: &ResolvedGlobalProperties,
    variant: Option<String>,
    group: Option<String>,
) -> (r: Result<Target, crate::config::providers::error::ToLLMBuilderError>)
    ensures
        match client_spec(resolved@.kind, resolved@.settings) {
            Ok(_) => r matches Ok(t) && target_matches(
                t,
                template@,
                rendered@,
                resolved@,
                globals@,
                opt_text(variant),
                opt_text(group),
            ),
            Err(_) => r is Err,
        },
{
    match resolved.client() {
        Err(e) => Err(e),
        Ok((model_info, settings)) => {
            let stream = stream_requested(globals);
            let structured = uses_structured_stream(model_info.provider.as_str());
            let cache_ttl = cache_ttl_requested(globals);
            let key = cache_key(
                template,
                model_info.provider.as_str(),
                model_info.model.as_str(),
                as_opt_str(&variant),
                as_opt_str(&group),
                rendered,
            );
            Ok(Target { model_info, settings, stream, structured, cache_ttl, variant, group, cache_key: key })
        },
    }
}

fn record_of(t: &Target, template: &str) -> (r: PartialLogRecord)
    ensures
        record_matches(r, *t, template@),
{
    PartialLogRecord {
        promptname: string_of(template),
        group: copy_opt(&t.group),
        variant: copy_opt(&t.variant),
        provider: string_of(t.model_info.provider.as_str()),
        model: string_of(t.model_info.model.as_str()),
        cache_key: Some(t.cache_key),
    }
}

/// `a` calls the model of target `t` as the execution asks: streamed where
/// the properties ask for it, through a structured stream where the provider
/// has one, with the schema `schema` and the record of `t`.
pub open spec fn calls_model(a: ExecAction, t: Target, schema: Option<String>, template: Seq<char>) -> bool {
    a matches ExecAction::CallModel { settings, schema: s, stream, structured, record } && settings
        == t.settings && s == schema && stream == t.stream && structured == t.structured
        && record_matches(record, t, template)
}

/// Once the target `t` is known: a dry run shows it and stops; otherwise
/// the cache is asked where caching is configured, and the model is called
/// where it is not.
pub open spec fn proceeds_with(s: ExecState, t: Target, r: (ExecState, ExecAction)) -> bool {
    if s.is_dry() {
        r.0.phase() == ExecPhase::Done && (r.1 matches ExecAction::DryRun { target, rendered }
            && target == t && rendered@ == s.rendered())
    } else {
        match t.cache_ttl {
            Some(ttl) => {
                &&& r.0.phase() == ExecPhase::CacheLookup
                &&& r.0.target() == Some(t)
                &&& r.1 matches ExecAction::LookUpCache { key, ttl: x } && key == t.cache_key && x == ttl
            },
            None => r.0.phase() == ExecPhase::Calling && calls_model(r.1, t, s.schema(), s.template()),
        }
    }
}

/// What the execution does once the model of a resolved base or variant is
/// known: it fails where its client settings are incomplete, and otherwise
/// proceeds with the target.
pub open spec fn settles_on(
    s: ExecState,
    rv: ResolvedProviderConfigView,
    gv: GlobalsView,
    variant: Option<Seq<char>>,
    group: Option<Seq<char>>,
    r: (ExecState, ExecAction),
) -> bool {
    match client_spec(rv.kind, rv.settings) {
        Err(_) => r.0.phase() == ExecPhase::Done && r.1 matches ExecAction::Fail(
            ExecutorErorr::LMBuilderError(_),
        ),
        Ok(_) => exists|t: Target|
            #[trigger] target_matches(t, s.template(), s.rendered(), rv, gv, variant, group)
                && proceeds_with(s, t, r),
    }
}

/// The member `m` of the group `group` is what the execution goes on with.
pub open spec fn settles_on_member(s: ExecState, m: GroupMemberView, group: Seq<char>, r: (ExecState, ExecAction)) -> bool {
    match m {
        GroupMemberView::Base(b, _) => settles_on(s, b.resolved, b.globals, None, Some(group), r),
        GroupMemberView::Variant(v, _) => settles_on(
            s,
            v.resolved,
            v.globals,
            Some(v.name),
            Some(group),
            r,
        ),
    }
}

/// `f` is the failure for the resolution error `e`.
pub open spec fn resolve_failed(e: ResolveError, f: ExecutorErorr) -> bool {
    &&& e is NoNameToResolve ==> (f matches ExecutorErorr::Other(m) && m@ == no_model_message())
    &&& !(e is NoNameToResolve) ==> f == ExecutorErorr::ResolverError(e)
}

/// The event is one that the execution waits for where it stands.
pub open spec fn expected(phase: ExecPhase, event: ExecEvent) -> bool {
    ||| phase == ExecPhase::Start && event is Start
    ||| phase == ExecPhase::Resolving && event is Resolved
    ||| phase == ExecPhase::Balancing && event is Fetched
    ||| phase == ExecPhase::CacheLookup && event is CacheAnswer
    ||| phase == ExecPhase::Calling && event is Reply
}

fn done(s: ExecState) -> (r: ExecState)
    ensures
        r.phase() == ExecPhase::Done,
        r.format() == s.format(),
        r.is_dry() == s.is_dry(),
{
    ExecState {
        phase: ExecPhase::Done,
        template: s.template,
        format: s.format,
        schema: None,
        dry: s.dry,
        rendered: s.rendered,
        group: None,
        target: None,
    }
}

/// The step once the target is known.
fn proceed(s: ExecState, t: Target) -> (r: (ExecState, ExecAction))
    requires
        s.phase() == ExecPhase::Resolving || s.phase() == ExecPhase::Balancing,
    ensures
        proceeds_with(s, t, r),
        r.0.format() == s.format(),
        r.0.is_dry() == s.is_dry(),
{
    let ghost s0 = s;
    let ghost t0 = t;
    if s.dry {
        let rendered = string_of(s.rendered.as_str());
        (done(s), ExecAction::DryRun { target: t, rendered })
    } else {
        match t.cache_ttl {
            Some(ttl) => {
                let key = t.cache_key;
                let next = ExecState {
                    phase: ExecPhase::CacheLookup,
                    template: s.template,
                    format: s.format,
                    schema: s.schema,
                    dry: false,
                    rendered: s.rendered,
                    group: None,
                    target: Some(t),
                };
                (next, ExecAction::LookUpCache { key, ttl })
            },
            None => {
                let record = record_of(&t, s.template.as_str());
                let next = ExecState {
                    phase: ExecPhase::Calling,
                    template: s.template,
                    format: s.format,
                    schema: None,
                    dry: false,
                    rendered: s.rendered,
                    group: None,
                    target: None,
                };
                let a = ExecAction::CallModel {
                    settings: t.settings,
                    schema: s.schema,
                    stream: t.stream,
                    structured: t.structured,
                    record,
                };
                assert(calls_model(a, t0, s0.schema(), s0.template()));
                (next, a)
            },
        }
    }
}

/// The step with a resolved base or variant.
fn settle(
    s: ExecState,
    resolved: &ResolvedProviderConfig,
    globals: &ResolvedGlobalProperties,
    variant: Option<String>,
    group: Option<String>,
) -> (r: (ExecState, ExecAction))
    requires
        s.phase() == ExecPhase::Resolving || s.phase() == ExecPhase::Balancing,
    ensures
        settles_on(s, resolved@, globals@, opt_text(variant), opt_text(group), r),
        r.0.format() == s.format(),
        r.0.is_dry() == s.is_dry(),
{
    let ghost s0 = s;
    let ghost vv = opt_text(variant);
    let ghost gg = opt_text(group);
    match target_of(s.template.as_str(), s.rendered.as_str(), resolved, globals, variant, group) {
        Err(e) => (done(s), ExecAction::Fail(ExecutorErorr::LMBuilderError(e))),
        Ok(t) => {
            let ghost t0 = t;
            let r = proceed(s, t);
            assert(target_matches(t0, s0.template(), s0.rendered(), resolved@, globals@, vv, gg));
            r
        },
    }
}

/// Two executions alike in what the step reads go on alike.
proof fn lemma_settles_same(
    a: ExecState,
    b: ExecState,
    rv: ResolvedProviderConfigView,
    gv: GlobalsView,
    variant: Option<Seq<char>>,
    group: Option<Seq<char>>,
    r: (ExecState, ExecAction),
)
    requires
        a.template() == b.template(),
        a.rendered() == b.rendered(),
        a.is_dry() == b.is_dry(),
        a.schema() == b.schema(),
        settles_on(a, rv, gv, variant, group, r),
    ensures
        settles_on(b, rv, gv, variant, group, r),
{
    if client_spec(rv.kind, rv.settings) is Ok {
        let t = choose|t: Target|
            #[trigger] target_matches(t, a.template(), a.rendered(), rv, gv, variant, group)
                && proceeds_with(a, t, r);
        assert(target_matches(t, b.template(), b.rendered(), rv, gv, variant, group));
    }
}

/// One step of an execution: what it does with `event` where it stands.
///
/// Rendering only shows the rendered prompt and resolves nothing. A
/// resolution error fails the execution. A group asks for the usage of its
/// members, and the balancer chooses one. Once the model is known, a dry run
/// shows it and calls nothing; where caching is configured the cache is
/// asked first, and a cached answer is shown without calling the model;
/// otherwise the model is called, streamed or not as the properties ask.
/// The model's reply is shown as the output format asks and recorded. Any
/// other event ends the execution with a failure.
pub fn execute_step(state: ExecState, event: ExecEvent) -> (r: (ExecState, ExecAction))
    requires
        state.phase() == ExecPhase::Balancing ==> (event matches ExecEvent::Fetched(fs)
            ==> crate::lb::weighted_lb::choose_defined(
            state.group()->0@.members,
            fs@.map_values(|f: Result<Vec<SummaryItem>, FetchError>| fetched_view(f)),
        ) && fs@.len() == state.group()->0@.members.len()),
    ensures
        r.0.format() == state.format(),
        r.1 is CallModel ==> !state.is_dry() && state.phase() != ExecPhase::Start,
        r.1 is CallModel <==> r.0.phase() == ExecPhase::Calling,
        r.1 is LookUpCache ==> r.0.phase() == ExecPhase::CacheLookup && !state.is_dry(),
        !expected(state.phase(), event) ==> r.0.phase() == ExecPhase::Done && r.1 matches ExecAction::Fail(
            ExecutorErorr::Other(_),
        ),
        state.phase() == ExecPhase::Start ==> match event {
            ExecEvent::Start { render_only, dry, rendered } => if render_only {
                r.0.phase() == ExecPhase::Done && (r.1 matches ExecAction::ShowRendered(x) && x@
                    == rendered@)
            } else {
                r.0.phase() == ExecPhase::Resolving && r.1 is Resolve && r.0.is_dry() == dry
                    && r.0.rendered() == rendered@ && r.0.template() == state.template()
                    && r.0.schema() == state.schema()
            },
            _ => true,
        },
        state.phase() == ExecPhase::Resolving ==> match event {
            ExecEvent::Resolved(Err(e)) => r.0.phase() == ExecPhase::Done && (r.1 matches ExecAction::Fail(
                f,
            ) && resolve_failed(e, f)),
            ExecEvent::Resolved(Ok(ResolvedConfig::Base(b))) => settles_on(
                state,
                b@.resolved,
                b@.globals,
                None,
                None,
                r,
            ),
            ExecEvent::Resolved(Ok(ResolvedConfig::Variant(v))) => settles_on(
                state,
                v@.resolved,
                v@.globals,
                Some(v@.name),
                None,
                r,
            ),
            ExecEvent::Resolved(Ok(ResolvedConfig::Group(g))) => match first_model_error(
                g@.members,
            ) {
                Some(m) => r.0.phase() == ExecPhase::Done && (r.1 matches ExecAction::Fail(
                    ExecutorErorr::LoadBalancerError(e),
                ) && e@ == crate::lb::LBErrorView::ModelInfoError(m)),
                None => {
                    &&& r.0.phase() == ExecPhase::Balancing
                    &&& r.0.group() == Some(g)
                    &&& r.1 matches ExecAction::FetchSummaries(qs) && qs@.len() == g@.members.len()
                        && forall|i: int|
                        0 <= i < qs@.len() ==> #[trigger] qs@[i]@ == query_spec(
                            g@,
                            g@.members[i],
                            BalanceScope::Group,
                            BalanceLevel::Variant,
                        )
                },
            },
            _ => true,
        },
        state.phase() == ExecPhase::Balancing ==> match event {
            ExecEvent::Fetched(fs) => {
                let g = state.group()->0;
                match choose_spec(
                    g@.members,
                    fs@.map_values(|f: Result<Vec<SummaryItem>, FetchError>| fetched_view(f)),
                ) {
                    Err(ev) => r.0.phase() == ExecPhase::Done && (r.1 matches ExecAction::Fail(
                        ExecutorErorr::LoadBalancerError(e),
                    ) && e@ == ev),
                    Ok(i) => 0 <= i < g@.members.len() && settles_on_member(
                        state,
                        g@.members[i],
                        g@.name,
                        r,
                    ),
                }
            },
            _ => true,
        },
        state.phase() == ExecPhase::CacheLookup ==> match event {
            ExecEvent::CacheAnswer(Some(t)) => r.0.phase() == ExecPhase::Done && (r.1 matches ExecAction::Show(
                x,
            ) && x@ == shown_answer(state.format(), t@)),
            ExecEvent::CacheAnswer(None) => r.0.phase() == ExecPhase::Calling && calls_model(
                r.1,
                state.target()->0,
                state.schema(),
                state.template(),
            ),
            _ => true,
        },
        state.phase() == ExecPhase::Calling ==> match event {
            ExecEvent::Reply(rep) => r.0.phase() == ExecPhase::Done && (r.1 matches ExecAction::Answered {
                shown,
                outcome,
            } && reply_outcome(rep, outcome) && shown@ == shown_answer(state.format(), outcome.text@)),
            _ => true,
        },
{
    proof {
        use_type_invariant(&state);
    }
    let ghost s0 = state;
    match state.phase {
        ExecPhase::Start => {
            if let ExecEvent::Start { render_only, dry, rendered } = event {
                if render_only {
                    return (done(state), ExecAction::ShowRendered(rendered));
                }
                let next = ExecState {
                    phase: ExecPhase::Resolving,
                    template: state.template,
                    format: state.format,
                    schema: state.schema,
                    dry,
                    rendered,
                    group: None,
                    target: None,
                };
                return (next, ExecAction::Resolve);
            }
        },
        ExecPhase::Resolving => {
            if let ExecEvent::Resolved(res) = event {
                match res {
                    Err(e) => {
                        let f = resolve_failure(e);
                        return (done(state), ExecAction::Fail(f));
                    },
                    Ok(ResolvedConfig::Base(b)) => {
                        return settle(state, &b.resolved, &b.globals, None, None);
                    },
                    Ok(ResolvedConfig::Variant(v)) => {
                        let name = string_of(v.name.as_str());
                        return settle(state, &v.resolved, &v.globals, Some(name), None);
                    },
                    Ok(ResolvedConfig::Group(g)) => {
                        let lb = WeightedLoadBalancer::new();
                        match lb.summary_queries(&g, &BalanceScope::Group, &BalanceLevel::Variant) {
                            Err(e) => {
                                return (done(state), ExecAction::Fail(ExecutorErorr::LoadBalancerError(e)));
                            },
                            Ok(qs) => {
                                let next = ExecState {
                                    phase: ExecPhase::Balancing,
                                    template: state.template,
                                    format: state.format,
                                    schema: state.schema,
                                    dry: state.dry,
                                    rendered: state.rendered,
                                    group: Some(g),
                                    target: None,
                                };
                                return (next, ExecAction::FetchSummaries(qs));
                            },
                        }
                    },
                }
            }
        },
        ExecPhase::Balancing => {
            if let ExecEvent::Fetched(fs) = event {
                let ExecState { phase, template, format, schema, dry, rendered, group, target } = state;
                let g = match group {
                    Some(g) => g,
                    None => {
                        return (
                            done(ExecState { phase, template, format, schema, dry, rendered, group: None, target }),
                            ExecAction::Fail(ExecutorErorr::Other(string_of("unexpected event"))),
                        );
                    },
                };
                let s = ExecState { phase: ExecPhase::Resolving, template, format, schema, dry, rendered, group: None, target: None };
                let lb = WeightedLoadBalancer::new();
                let gname = string_of(g.name.as_str());
                match lb.choose_member(&g, &fs) {
                    Err(e) => {
                        return (done(s), ExecAction::Fail(ExecutorErorr::LoadBalancerError(e)));
                    },
                    Ok(Choice::Base(b)) => {
                        let ghost sv = s;
                        let ghost gn = gname@;
                        let r = settle(s, &b.resolved, &b.globals, None, Some(gname));
                        proof {
                            lemma_settles_same(sv, s0, b@.resolved, b@.globals, None, Some(gn), r);
                        }
                        return r;
                    },
                    Ok(Choice::Variant(v)) => {
                        let name = string_of(v.name.as_str());
                        let ghost sv = s;
                        let ghost gn = gname@;
                        let ghost vn = name@;
                        let r = settle(s, &v.resolved, &v.globals, Some(name), Some(gname));
                        proof {
                            lemma_settles_same(sv, s0, v@.resolved, v@.globals, Some(vn), Some(gn), r);
                        }
                        return r;
                    },
                }
            }
        },
        ExecPhase::CacheLookup => {
            if let ExecEvent::CacheAnswer(answer) = event {
                match answer {
                    Some(text) => {
                        let shown = shown_output(state.format, text);
                        return (done(state), ExecAction::Show(shown));
                    },
                    None => {
                        let ExecState { phase, template, format, schema, dry, rendered, group, target } = state;
                        let t = match target {
                            Some(t) => t,
                            None => {
                                return (
                                    done(ExecState { phase, template, format, schema, dry, rendered, group, target: None }),
                                    ExecAction::Fail(ExecutorErorr::Other(string_of("unexpected event"))),
                                );
                            },
                        };
                        let ghost t0 = t;
                        let record = record_of(&t, template.as_str());
                        let a = ExecAction::CallModel {
                            settings: t.settings,
                            schema,
                            stream: t.stream,
                            structured: t.structured,
                            record,
                        };
                        assert(calls_model(a, t0, s0.schema(), s0.template()));
                        let next = ExecState {
                            phase: ExecPhase::Calling,
                            template,
                            format,
                            schema: None,
                            dry: false,
                            rendered,
                            group: None,
                            target: None,
                        };
                        return (next, a);
                    },
                }
            }
        },
        ExecPhase::Calling => {
            if let ExecEvent::Reply(rep) = event {
                let outcome = ChatOutcome::from_reply(rep);
                let shown = shown_output(state.format, string_of(outcome.text.as_str()));
                return (done(state), ExecAction::Answered { shown, outcome });
            }
        },
        ExecPhase::Done => {},
    }
    (done(state), ExecAction::Fail(ExecutorErorr::Other(string_of("unexpected event"))))
}

} // verus!
