use vstd::prelude::*;

use crate::dotprompt::schema::{
    distinct_keys, elements_view, lemma_schema_map, schema_map, Schema, SchemaElement,
    SchemaElementView,
};
use crate::dotprompt::{input_elements, DotPrompt};
use crate::text::{push_char, push_str, str_eq, string_of};

verus! {

/// Why the command-line arguments of a prompt could not be made or used.
#[derive(Debug)]
pub enum DotPromptArgsError {
    ArgsFromDotPromptError(String),
    UnsupportedDataType { key: String, data_type: String },
    /// The template could not be read, with the template engine's message.
    HandlebarsRegisterTemplateError(String),
    /// The template could not be rendered, with the template engine's
    /// message.
    HandlebarsRenderTemplateError(String),
}

/// How an argument is given on the command line.
#[derive(Debug, Clone, Copy, PartialEq, Eq, Structural)]
pub enum ArgKind {
    /// `--key`, setting `true`.
    Flag,
    /// `--key value`.
    Named,
    /// Values without a name, at least `min_values` of them.
    Positional { min_values: usize },
}

/// One command-line argument of a prompt.
#[derive(Debug)]
pub struct ArgSpec {
    pub key: String,
    pub help: String,
    pub required: bool,
    pub kind: ArgKind,
}

pub struct ArgSpecView {
    pub key: Seq<char>,
    pub help: Seq<char>,
    pub required: bool,
    pub kind: ArgKind,
}

impl View for ArgSpec {
    type V = ArgSpecView;

    open spec fn view(&self) -> ArgSpecView {
        ArgSpecView { key: self.key@, help: self.help@, required: self.required, kind: self.kind }
    }
}

/// The argument for an element of the input schema: a flag for `boolean`;
/// for `string`, positional values (at least one where it is required) or a
/// named value; no argument for any other type.
pub open spec fn arg_of(e: SchemaElementView) -> Option<ArgSpecView> {
    if e.data_type == "boolean"@ {
        Some(ArgSpecView { key: e.key, help: e.description, required: e.required, kind: ArgKind::Flag })
    } else if e.data_type == "string"@ {
        Some(
            ArgSpecView {
                key: e.key,
                help: e.description,
                required: e.required,
                kind: if e.positional {
                    ArgKind::Positional { min_values: if e.required { 1 } else { 0 } }
                } else {
                    ArgKind::Named
                },
            },
        )
    } else {
        None
    }
}

fn arg_for(e: &SchemaElement) -> (r: Option<ArgSpec>)
    ensures
        match arg_of(e@) {
            Some(a) => r matches Some(s) && s@ == a,
            None => r is None,
        },
{
    let kind = if str_eq(e.data_type.as_str(), "boolean") {
        ArgKind::Flag
    } else if str_eq(e.data_type.as_str(), "string") {
        if e.positional {
            ArgKind::Positional { min_values: if e.required { 1 } else { 0 } }
        } else {
            ArgKind::Named
        }
    } else {
        return None;
    };
    Some(
        ArgSpec {
            key: string_of(e.key.as_str()),
            help: string_of(e.description.as_str()),
            required: e.required,
            kind,
        },
    )
}

/// `e` is the error for an element whose type is not supported.
pub open spec fn unsupported(e: DotPromptArgsError, el: SchemaElementView) -> bool {
    e matches DotPromptArgsError::UnsupportedDataType { key, data_type } && key@ == el.key
        && data_type@ == el.data_type
}

/// The command-line arguments of the elements, each in its place, or the
/// first element whose type has no argument.
pub fn args_of_elements(es: &Vec<SchemaElement>) -> (r: Result<Vec<ArgSpec>, DotPromptArgsError>)
    ensures
        (r is Ok) <==> (forall|i: int| 0 <= i < es@.len() ==> (arg_of(#[trigger] es@[i]@) is Some)),
        r matches Ok(v) ==> v@.len() == es@.len() && forall|i: int|
            0 <= i < es@.len() ==> Some(#[trigger] v@[i]@) == arg_of(es@[i]@),
        r matches Err(e) ==> exists|i: int|
            0 <= i < es@.len() && (arg_of(#[trigger] es@[i]@) is None) && unsupported(e, es@[i]@),
{
    let mut args: Vec<ArgSpec> = Vec::new();
    let mut i: usize = 0;
    while i < es.len()
        invariant
            i <= es@.len(),
            args@.len() == i,
            forall|j: int| 0 <= j < i ==> arg_of(#[trigger] es@[j]@) is Some,
            forall|j: int| 0 <= j < i ==> Some(#[trigger] args@[j]@) == arg_of(es@[j]@),
        decreases es@.len() - i,
    {
        match arg_for(&es[i]) {
            Some(a) => args.push(a),
            None => {
                let key = string_of(es[i].key.as_str());
                let data_type = string_of(es[i].data_type.as_str());
                return Err(DotPromptArgsError::UnsupportedDataType { key, data_type });
            },
        }
        i = i + 1;
    }
    Ok(args)
}

} // verus!

verus! {

/// What the command line gave for one argument.
#[derive(Debug)]
pub enum ArgValue {
    Flag(bool),
    Many(Vec<String>),
    One(String),
    /// A value read as a whole number.
    Int(i64),
    /// A value read as a single-precision number, as its bits.
    Number(u32),
}

pub enum ArgValueView {
    Flag(bool),
    Many(Seq<Seq<char>>),
    One(Seq<char>),
    Int(i64),
    Number(u32),
}

impl View for ArgValue {
    type V = ArgValueView;

    open spec fn view(&self) -> ArgValueView {
        match self {
            ArgValue::Flag(b) => ArgValueView::Flag(*b),
            ArgValue::Many(v) => ArgValueView::Many(v@.map_values(|s: String| s@)),
            ArgValue::One(s) => ArgValueView::One(s@),
            ArgValue::Int(i) => ArgValueView::Int(*i),
            ArgValue::Number(b) => ArgValueView::Number(*b),
        }
    }
}

/// The values that the command line gave, by argument key.
pub open spec fn matched_view(m: Seq<(String, ArgValue)>) -> Seq<(Seq<char>, ArgValueView)> {
    m.map_values(|p: (String, ArgValue)| (p.0@, p.1@))
}

/// The first value given for `key`.
pub open spec fn matched_find(m: Seq<(Seq<char>, ArgValueView)>, key: Seq<char>) -> Option<
    ArgValueView,
>
    decreases m.len(),
{
    if m.len() == 0 {
        None
    } else if m[0].0 == key {
        Some(m[0].1)
    } else {
        matched_find(m.drop_first(), key)
    }
}

/// `words` joined with single spaces.
pub open spec fn join_words(words: Seq<Seq<char>>) -> Seq<char>
    decreases words.len(),
{
    if words.len() == 0 {
        Seq::empty()
    } else if words.len() == 1 {
        words[0]
    } else {
        join_words(words.drop_last()) + seq![' '] + words.last()
    }
}

/// `true` or `false` as text.
pub open spec fn bool_text(b: bool) -> Seq<char> {
    if b {
        "true"@
    } else {
        "false"@
    }
}

/// The text that the template sees for an element: a flag as `true` or
/// `false`, positional values joined with spaces, a named value as given,
/// the empty text where nothing of the right shape was given; no text for
/// an element of any other type.
pub open spec fn input_text(e: SchemaElementView, given: Option<ArgValueView>) -> Option<Seq<char>> {
    if e.data_type == "boolean"@ {
        Some(
            match given {
                Some(ArgValueView::Flag(b)) => bool_text(b),
                _ => Seq::empty(),
            },
        )
    } else if e.data_type == "string"@ {
        Some(
            if e.positional {
                match given {
                    Some(ArgValueView::Many(ws)) => join_words(ws),
                    _ => Seq::empty(),
                }
            } else {
                match given {
                    Some(ArgValueView::One(s)) => s,
                    _ => Seq::empty(),
                }
            },
        )
    } else {
        None
    }
}

/// The variables of the template: `extra`, then one entry for each element,
/// a later entry for a key replacing an earlier one.
pub open spec fn template_vars(
    es: Seq<SchemaElementView>,
    matched: Seq<(Seq<char>, ArgValueView)>,
    extra: Seq<(Seq<char>, Seq<char>)>,
) -> Option<Seq<(Seq<char>, Seq<char>)>>
    decreases es.len(),
{
    if es.len() == 0 {
        Some(extra)
    } else {
        match template_vars(es.drop_last(), matched, extra) {
            Some(vs) => match input_text(es.last(), matched_find(matched, es.last().key)) {
                Some(t) => Some(vs.push((es.last().key, t))),
                None => None,
            },
            None => None,
        }
    }
}

pub fn find_matched<'a>(m: &'a Vec<(String, ArgValue)>, key: &str) -> (r: Option<&'a ArgValue>)
    ensures
        match matched_find(matched_view(m@), key@) {
            Some(v) => r matches Some(a) && a@ == v,
            None => r is None,
        },
{
    let ghost mv = matched_view(m@);
    let mut i: usize = 0;
    assert(mv.skip(0) =~= mv);
    while i < m.len()
        invariant
            i <= m@.len(),
            mv == matched_view(m@),
            matched_find(mv, key@) == matched_find(mv.skip(i as int), key@),
        decreases m@.len() - i,
    {
        assert(mv.skip(i as int)[0] == mv[i as int]);
        assert(mv.skip(i as int).drop_first() =~= mv.skip(i + 1));
        if str_eq(m[i].0.as_str(), key) {
            return Some(&m[i].1);
        }
        i = i + 1;
    }
    None
}

pub fn join_with_spaces(words: &Vec<String>) -> (r: String)
    ensures
        r@ == join_words(words@.map_values(|s: String| s@)),
{
    let ghost ws = words@.map_values(|s: String| s@);
    let mut r = String::new();
    let mut i: usize = 0;
    proof {
        assert(ws.take(0) =~= Seq::<Seq<char>>::empty());
    }
    while i < words.len()
        invariant
            i <= words@.len(),
            ws == words@.map_values(|s: String| s@),
            r@ == join_words(ws.take(i as int)),
        decreases words@.len() - i,
    {
        proof {
            assert(ws.take(i + 1).drop_last() =~= ws.take(i as int));
        }
        if i > 0 {
            push_char(&mut r, ' ');
        }
        push_str(&mut r, words[i].as_str());
        proof {
            if i == 0 {
                assert(ws.take(1) =~= seq![ws[0]]);
            }
        }
        i = i + 1;
    }
    proof {
        assert(ws.take(words@.len() as int) =~= ws);
    }
    r
}

fn text_for(e: &SchemaElement, given: Option<&ArgValue>) -> (r: Option<String>)
    ensures
        match input_text(
            e@,
            match given {
                Some(a) => Some(a@),
                None => None,
            },
        ) {
            Some(t) => r matches Some(s) && s@ == t,
            None => r is None,
        },
{
    proof {
        reveal_strlit("true");
        reveal_strlit("false");
    }
    if str_eq(e.data_type.as_str(), "boolean") {
        Some(
            match given {
                Some(ArgValue::Flag(b)) => if *b {
                    string_of("true")
                } else {
                    string_of("false")
                },
                _ => String::new(),
            },
        )
    } else if str_eq(e.data_type.as_str(), "string") {
        if e.positional {
            Some(
                match given {
                    Some(ArgValue::Many(ws)) => join_with_spaces(ws),
                    _ => String::new(),
                },
            )
        } else {
            Some(
                match given {
                    Some(ArgValue::One(s)) => string_of(s.as_str()),
                    _ => String::new(),
                },
            )
        }
    } else {
        None
    }
}

pub open spec fn vars_view(v: Seq<(String, String)>) -> Seq<(Seq<char>, Seq<char>)> {
    v.map_values(|p: (String, String)| (p.0@, p.1@))
}

/// The variables of the template for the elements `es`, given what the
/// command line matched and the `extra` variables; the first element whose
/// type has no text is the error.
pub fn vars_of_elements(
    es: &Vec<SchemaElement>,
    matched: &Vec<(String, ArgValue)>,
    extra: &Vec<(String, String)>,
) -> (r: Result<Vec<(String, String)>, DotPromptArgsError>)
    ensures
        match template_vars(elements_view(es@), matched_view(matched@), vars_view(extra@)) {
            Some(vs) => r matches Ok(v) && vars_view(v@) == vs,
            None => r matches Err(e) && exists|i: int|
                0 <= i < es@.len() && (input_text(#[trigger] es@[i]@, None) is None) && unsupported(
                    e,
                    es@[i]@,
                ),
        },
{
    let ghost ev = elements_view(es@);
    let ghost mv = matched_view(matched@);
    let ghost xv = vars_view(extra@);
    let mut vars: Vec<(String, String)> = Vec::new();
    let mut j: usize = 0;
    while j < extra.len()
        invariant
            j <= extra@.len(),
            xv == vars_view(extra@),
            vars_view(vars@) == xv.take(j as int),
        decreases extra@.len() - j,
    {
        let k = string_of(extra[j].0.as_str());
        let v = string_of(extra[j].1.as_str());
        let ghost before = vars_view(vars@);
        vars.push((k, v));
        proof {
            assert(vars_view(vars@) =~= before.push((k@, v@)));
            assert(xv[j as int] == (extra@[j as int].0@, extra@[j as int].1@));
            assert(vars_view(vars@) =~= xv.take(j + 1));
        }
        j = j + 1;
    }
    proof {
        assert(xv.take(extra@.len() as int) =~= xv);
        assert(ev.take(0) =~= Seq::<SchemaElementView>::empty());
    }
    let mut i: usize = 0;
    while i < es.len()
        invariant
            i <= es@.len(),
            ev == elements_view(es@),
            mv == matched_view(matched@),
            xv == vars_view(extra@),
            template_vars(ev.take(i as int), mv, xv) == Some(vars_view(vars@)),
        decreases es@.len() - i,
    {
        let e = &es[i];
        proof {
            assert(ev.take(i + 1).drop_last() =~= ev.take(i as int));
            assert(ev.take(i + 1).last() == e@);
        }
        let given = find_matched(matched, e.key.as_str());
        match text_for(e, given) {
            Some(t) => {
                let k = string_of(e.key.as_str());
                let ghost before = vars_view(vars@);
                vars.push((k, t));
                proof {
                    assert(vars_view(vars@) =~= before.push((e@.key, t@)));
                }
            },
            None => {
                proof {
                    assert(input_text(e@, None) is None);
                    lemma_template_vars_none(ev, mv, xv, i as int);
                }
                let key = string_of(e.key.as_str());
                let data_type = string_of(e.data_type.as_str());
                return Err(DotPromptArgsError::UnsupportedDataType { key, data_type });
            },
        }
        i = i + 1;
    }
    proof {
        assert(ev.take(es@.len() as int) =~= ev);
    }
    Ok(vars)
}

proof fn lemma_template_vars_none(
    es: Seq<SchemaElementView>,
    m: Seq<(Seq<char>, ArgValueView)>,
    x: Seq<(Seq<char>, Seq<char>)>,
    i: int,
)
    requires
        0 <= i < es.len(),
        input_text(es[i], None) is None,
    ensures
        template_vars(es, m, x) is None,
    decreases es.len(),
{
    if i < es.len() - 1 {
        assert(es.drop_last()[i] == es[i]);
        lemma_template_vars_none(es.drop_last(), m, x, i);
    }
}

/// What the template engine makes of `template`, registered under `name`,
/// with the variables `vars` (a later entry for a key replacing an earlier
/// one): the rendered text;
/// or, with `true`, the message of a template that could not be read; or,
/// with `false`, the message of a rendering that failed.
pub uninterp spec fn handlebars_render(
    name: Seq<char>,
    template: Seq<char>,
    vars: Seq<(Seq<char>, Seq<char>)>,
) -> Result<Seq<char>, (bool, Seq<char>)>;

/// `handlebars::Handlebars` with its defaults: registers `template` under
/// `name` and renders it with the variables. The contract names the outcome.
#[verifier::external_body]
fn render_template(name: &str, template: &str, vars: &Vec<(String, String)>) -> (r: Result<
    String,
    (bool, String),
>)
    ensures
        handlebars_render(name@, template@, vars_view(vars@)) == match r {
            Ok(s) => Ok::<Seq<char>, (bool, Seq<char>)>(s@),
            Err(e) => Err((e.0, e.1@)),
        },
{
    let map: std::collections::HashMap<&str, &str> = vars.iter().map(
        |p| (p.0.as_str(), p.1.as_str()),
    ).collect();
    let mut hbs = handlebars::Handlebars::new();
    if let Err(e) = hbs.register_template_string(name, template) {
        return Err((true, e.to_string()));
    }
    hbs.render(name, &map).map_err(|e| (false, e.to_string()))
}

/// The name under which a prompt's template is registered for rendering.
pub const TEMPLATE_NAME: &'static str = "prompt";

/// The outcome of rendering the prompt with its variables.
pub open spec fn render_spec(
    template: Seq<char>,
    vars: Option<Seq<(Seq<char>, Seq<char>)>>,
) -> Option<Result<Seq<char>, (bool, Seq<char>)>> {
    match vars {
        Some(vs) => Some(handlebars_render(TEMPLATE_NAME@, template, vs)),
        None => None,
    }
}

impl DotPrompt {
    /// The command-line arguments of the prompt, one for each element of its
    /// input schema.
    pub fn arg_specs(&self) -> (r: Result<Vec<ArgSpec>, DotPromptArgsError>)
        ensures
            (r is Ok) <==> (forall|k: Seq<char>|
                #[trigger] schema_map(input_elements(self.input_raw())).contains_key(k) ==> (arg_of(
                    schema_map(input_elements(self.input_raw()))[k],
                ) is Some)),
            r matches Ok(v) ==> {
                let s = schema_map(input_elements(self.input_raw()));
                &&& v@.len() == s.dom().len()
                &&& forall|i: int|
                    0 <= i < v@.len() ==> s.contains_key(#[trigger] v@[i]@.key) && Some(v@[i]@)
                        == arg_of(s[v@[i]@.key])
                &&& forall|i: int, j: int| 0 <= i < j < v@.len() ==> v@[i]@.key != v@[j]@.key
            },
            r matches Err(e) ==> {
                let s = schema_map(input_elements(self.input_raw()));
                exists|k: Seq<char>|
                    #[trigger] s.contains_key(k) && (arg_of(s[k]) is None) && unsupported(e, s[k])
            },
    {
        let schema = self.input_schema();
        let es = schema.elements();
        let r = args_of_elements(es);
        proof {
            let ev = elements_view(es@);
            lemma_schema_map(ev);
            let s = schema_map(ev);
            match &r {
            Ok(v) => {
                assert forall|i: int| 0 <= i < v@.len() implies s.contains_key(#[trigger] v@[i]@.key)
                    && Some(v@[i]@) == arg_of(s[v@[i]@.key]) by {
                    assert(ev[i] == es@[i]@);
                    assert(Some(v@[i]@) == arg_of(es@[i]@));
                }
                assert forall|i: int, j: int| 0 <= i < j < v@.len() implies v@[i]@.key
                    != v@[j]@.key by {
                    assert(ev[i] == es@[i]@);
                    assert(ev[j] == es@[j]@);
                    assert(Some(v@[i]@) == arg_of(es@[i]@));
                    assert(Some(v@[j]@) == arg_of(es@[j]@));
                }
                assert forall|k: Seq<char>| #[trigger] s.contains_key(k) implies (arg_of(s[k]) is Some) by {
                    let i = choose|i: int| 0 <= i < ev.len() && ev[i].key == k;
                    assert(ev[i] == es@[i]@);
                }
            }
            Err(e) => {
                let i = choose|i: int|
                    0 <= i < es@.len() && (arg_of(#[trigger] es@[i]@) is None) && unsupported(
                        *e,
                        es@[i]@,
                    );
                assert(ev[i] == es@[i]@);
                assert(s.contains_key(ev[i].key));
            }
            }
        }
        r
    }

    /// The prompt rendered with what the command line matched and the
    /// `extra` variables. Each element of the input schema, taken in the
    /// order of `Schema::elements`, gives the template one variable.
    pub fn render(&self, matched: &Vec<(String, ArgValue)>, extra: &Vec<(String, String)>) -> (r:
        Result<String, DotPromptArgsError>)
        ensures
            exists|es: Seq<SchemaElementView>|
                {
                    &&& distinct_keys(es)
                    &&& schema_map(es) == schema_map(
                        input_elements(self.input_raw()),
                    )
                    &&& match #[trigger] render_spec(
                        self.template@,
                        template_vars(es, matched_view(matched@), vars_view(extra@)),
                    ) {
                        None => r matches Err(e) && exists|i: int|
                            0 <= i < es.len() && (input_text(#[trigger] es[i], None) is None)
                                && unsupported(e, es[i]),
                        Some(Ok(t)) => r matches Ok(s) && s@ == t,
                        Some(Err((true, m))) => r matches Err(
                            DotPromptArgsError::HandlebarsRegisterTemplateError(s),
                        ) && s@ == m,
                        Some(Err((false, m))) => r matches Err(
                            DotPromptArgsError::HandlebarsRenderTemplateError(s),
                        ) && s@ == m,
                    }
                },
    {
        let schema = self.input_schema();
        let es = schema.elements();
        let ghost ev = elements_view(es@);
        let vars = vars_of_elements(es, matched, extra);
        let r = match vars {
            Err(e) => Err(e),
            Ok(vs) => match render_template(TEMPLATE_NAME, self.template.as_str(), &vs) {
                Ok(s) => Ok(s),
                Err((true, m)) => Err(DotPromptArgsError::HandlebarsRegisterTemplateError(m)),
                Err((false, m)) => Err(DotPromptArgsError::HandlebarsRenderTemplateError(m)),
            },
        };
        proof {
            if template_vars(ev, matched_view(matched@), vars_view(extra@)) is None {
                let i = choose|i: int|
                    0 <= i < es@.len() && (input_text(#[trigger] es@[i]@, None) is None) && (r matches Err(e) && unsupported(e, es@[i]@));
                assert(ev[i] == es@[i]@);
            }
        }
        assert(match render_spec(
            self.template@,
            template_vars(ev, matched_view(matched@), vars_view(extra@)),
        ) {
            None => r matches Err(e) && exists|i: int|
                0 <= i < ev.len() && (input_text(#[trigger] ev[i], None) is None)
                    && unsupported(e, ev[i]),
            Some(Ok(t)) => r matches Ok(s) && s@ == t,
            Some(Err((true, m))) => r matches Err(
                DotPromptArgsError::HandlebarsRegisterTemplateError(s),
            ) && s@ == m,
            Some(Err((false, m))) => r matches Err(
                DotPromptArgsError::HandlebarsRenderTemplateError(s),
            ) && s@ == m,
        });
        r
    }
}

} // verus!
