use vstd::prelude::*;

use crate::dotprompt::args::{
    find_matched, join_with_spaces, join_words, matched_find, matched_view, ArgValue,
    ArgValueView,
};
use crate::dotprompt::schema::{
    distinct_keys, elements_view, lemma_schema_map, schema_map, strings_view, SchemaElement,
    SchemaElementView,
};
use crate::dotprompt::{input_elements, DotPrompt};
use crate::text::{str_eq, string_of};

verus! {

/// Why a prompt's inputs could not be gathered or rendered.
#[derive(Debug)]
pub enum RenderError {
    UnsupportedDataType { key: String, data_type: String },
    /// The template could not be rendered, with the template engine's
    /// message.
    HandlebarsRenderTemplateError(String),
    /// The template could not be read, with the template engine's message.
    HandlebarsRegisterTemplateError(String),
}

/// A value that the template sees.
#[derive(Debug)]
pub enum InputValue {
    Bool(bool),
    Int(i64),
    /// A single-precision number, as its bits.
    Number(u32),
    Text(String),
}

pub enum InputValueView {
    Bool(bool),
    Int(i64),
    Number(u32),
    Text(Seq<char>),
}

impl View for InputValue {
    type V = InputValueView;

    open spec fn view(&self) -> InputValueView {
        match self {
            InputValue::Bool(b) => InputValueView::Bool(*b),
            InputValue::Int(i) => InputValueView::Int(*i),
            InputValue::Number(n) => InputValueView::Number(*n),
            InputValue::Text(t) => InputValueView::Text(t@),
        }
    }
}

/// The inputs of a prompt, by key: a later entry for a key replaces an
/// earlier one.
#[derive(Debug)]
pub struct PromptInputs {
    pub map: Vec<(String, InputValue)>,
}

pub open spec fn inputs_view(m: Seq<(String, InputValue)>) -> Seq<(Seq<char>, InputValueView)> {
    m.map_values(|p: (String, InputValue)| (p.0@, p.1@))
}

/// The first position of `key`.
pub open spec fn key_index(m: Seq<(Seq<char>, InputValueView)>, key: Seq<char>) -> Option<int>
    decreases m.len(),
{
    if m.len() == 0 {
        None
    } else {
        match key_index(m.drop_last(), key) {
            Some(i) => Some(i),
            None => if m.last().0 == key {
                Some(m.len() - 1)
            } else {
                None
            },
        }
    }
}

proof fn lemma_key_index(m: Seq<(Seq<char>, InputValueView)>, key: Seq<char>)
    ensures
        key_index(m, key) matches Some(i) ==> 0 <= i < m.len() && m[i].0 == key,
        key_index(m, key) is None ==> forall|j: int| 0 <= j < m.len() ==> m[j].0 != key,
    decreases m.len(),
{
    if m.len() > 0 {
        lemma_key_index(m.drop_last(), key);
        assert(forall|j: int| 0 <= j < m.len() - 1 ==> m.drop_last()[j] == m[j]);
    }
}

proof fn lemma_key_index_first(m: Seq<(Seq<char>, InputValueView)>, key: Seq<char>, i: int)
    requires
        0 <= i < m.len(),
        m[i].0 == key,
        forall|j: int| 0 <= j < i ==> m[j].0 != key,
    ensures
        key_index(m, key) == Some(i),
    decreases m.len(),
{
    if i < m.len() - 1 {
        assert(forall|j: int| 0 <= j < m.len() - 1 ==> m.drop_last()[j] == m[j]);
        lemma_key_index_first(m.drop_last(), key, i);
    } else {
        lemma_key_index(m.drop_last(), key);
        assert(forall|j: int| 0 <= j < m.len() - 1 ==> m.drop_last()[j] == m[j]);
    }
}

impl PromptInputs {
    pub fn new() -> (r: Self)
        ensures
            inputs_view(r.map@) == Seq::<(Seq<char>, InputValueView)>::empty(),
    {
        let r = PromptInputs { map: Vec::new() };
        assert(inputs_view(r.map@) =~= Seq::<(Seq<char>, InputValueView)>::empty());
        r
    }

    /// Enters `v` under `k`, in place of the value held there.
    pub fn insert(&mut self, k: String, v: InputValue)
        ensures
            inputs_view(final(self).map@) == match key_index(inputs_view(old(self).map@), k@) {
                Some(i) => inputs_view(old(self).map@).update(i, (k@, v@)),
                None => inputs_view(old(self).map@).push((k@, v@)),
            },
    {
        let ghost m = inputs_view(self.map@);
        proof {
            lemma_key_index(m, k@);
        }
        let mut i: usize = 0;
        while i < self.map.len()
            invariant
                i <= self.map@.len(),
                m == inputs_view(self.map@),
                m == inputs_view(old(self).map@),
                forall|j: int| 0 <= j < i ==> m[j].0 != k@,
                key_index(m, k@) matches Some(x) ==> i <= x && x < m.len() && m[x].0 == k@,
            decreases self.map@.len() - i,
        {
            if str_eq(self.map[i].0.as_str(), k.as_str()) {
                assert(m[i as int].0 == k@);
                let ghost kv = (k@, v@);
                self.map.set(i, (k, v));
                proof {
                    lemma_key_index_first(m, kv.0, i as int);
                    assert(inputs_view(self.map@) =~= m.update(i as int, kv));
                }
                return;
            }
            i = i + 1;
        }
        let ghost kv = (k@, v@);
        self.map.push((k, v));
        proof {
            assert(key_index(m, kv.0) is None);
            assert(inputs_view(self.map@) =~= m.push(kv));
        }
    }
}

/// The value that the template sees for an element, given what the command
/// line gave for it: a flag (false where not given), a whole number or a
/// number (zero where not given), positional values joined with spaces, a
/// named value or a choice (empty where not given); no value for an element
/// of any other type.
pub open spec fn input_value_spec(e: SchemaElementView, given: Option<ArgValueView>) -> Option<
    InputValueView,
> {
    if e.data_type == "boolean"@ {
        Some(
            InputValueView::Bool(
                match given {
                    Some(ArgValueView::Flag(b)) => b,
                    _ => false,
                },
            ),
        )
    } else if e.data_type == "integer"@ {
        Some(
            InputValueView::Int(
                match given {
                    Some(ArgValueView::Int(i)) => i,
                    _ => 0,
                },
            ),
        )
    } else if e.data_type == "number"@ {
        Some(
            InputValueView::Number(
                match given {
                    Some(ArgValueView::Number(n)) => n,
                    _ => 0,
                },
            ),
        )
    } else if e.data_type == "string"@ {
        Some(
            InputValueView::Text(
                if e.positional {
                    match given {
                        Some(ArgValueView::Many(ws)) => join_words(ws),
                        _ => Seq::empty(),
                    }
                } else {
                    match given {
                        Some(ArgValueView::One(s)) => s,
                        _ => Seq::empty(),
                    }
                },
            ),
        )
    } else if e.data_type == "enum"@ {
        Some(
            InputValueView::Text(
                match given {
                    Some(ArgValueView::One(s)) => s,
                    _ => Seq::empty(),
                },
            ),
        )
    } else {
        None
    }
}

/// The inputs for the elements, in order, each under its key; `None` where
/// an element's type has no value.
pub open spec fn inputs_spec(es: Seq<SchemaElementView>, matched: Seq<(Seq<char>, ArgValueView)>) -> Option<
    Seq<(Seq<char>, InputValueView)>,
>
    decreases es.len(),
{
    if es.len() == 0 {
        Some(Seq::empty())
    } else {
        match inputs_spec(es.drop_last(), matched) {
            Some(vs) => match input_value_spec(es.last(), matched_find(matched, es.last().key)) {
                Some(v) => Some(vs.push((es.last().key, v))),
                None => None,
            },
            None => None,
        }
    }
}

fn input_value(e: &SchemaElement, given: Option<&ArgValue>) -> (r: Option<InputValue>)
    ensures
        match input_value_spec(
            e@,
            match given {
                Some(a) => Some(a@),
                None => None,
            },
        ) {
            Some(v) => r matches Some(x) && x@ == v,
            None => r is None,
        },
{
    let dt = e.data_type.as_str();
    if str_eq(dt, "boolean") {
        Some(
            InputValue::Bool(
                match given {
                    Some(ArgValue::Flag(b)) => *b,
                    _ => false,
                },
            ),
        )
    } else if str_eq(dt, "integer") {
        Some(
            InputValue::Int(
                match given {
                    Some(ArgValue::Int(i)) => *i,
                    _ => 0,
                },
            ),
        )
    } else if str_eq(dt, "number") {
        Some(
            InputValue::Number(
                match given {
                    Some(ArgValue::Number(n)) => *n,
                    _ => 0,
                },
            ),
        )
    } else if str_eq(dt, "string") {
        Some(
            InputValue::Text(
                if e.positional {
                    match given {
                        Some(ArgValue::Many(ws)) => join_with_spaces(ws),
                        _ => String::new(),
                    }
                } else {
                    match given {
                        Some(ArgValue::One(s)) => string_of(s.as_str()),
                        _ => String::new(),
                    }
                },
            ),
        )
    } else if str_eq(dt, "enum") {
        Some(
            InputValue::Text(
                match given {
                    Some(ArgValue::One(s)) => string_of(s.as_str()),
                    _ => String::new(),
                },
            ),
        )
    } else {
        None
    }
}

proof fn lemma_inputs_none(
    es: Seq<SchemaElementView>,
    m: Seq<(Seq<char>, ArgValueView)>,
    i: int,
)
    requires
        0 <= i < es.len(),
        input_value_spec(es[i], None) is None,
    ensures
        inputs_spec(es, m) is None,
    decreases es.len(),
{
    if i < es.len() - 1 {
        assert(es.drop_last()[i] == es[i]);
        lemma_inputs_none(es.drop_last(), m, i);
    }
}

/// The inputs of the elements `es`, given what the command line matched.
pub fn inputs_of_elements(es: &Vec<SchemaElement>, matched: &Vec<(String, ArgValue)>) -> (r: Result<
    PromptInputs,
    RenderError,
>)
    ensures
        match inputs_spec(elements_view(es@), matched_view(matched@)) {
            Some(vs) => r matches Ok(p) && inputs_view(p.map@) == vs,
            None => r matches Err(RenderError::UnsupportedDataType { key, data_type }) && exists|
                i: int,
            |
                0 <= i < es@.len() && (input_value_spec(#[trigger] es@[i]@, None) is None) && key@
                    == es@[i]@.key && data_type@ == es@[i]@.data_type,
        },
{
    let ghost ev = elements_view(es@);
    let ghost mv = matched_view(matched@);
    let mut map: Vec<(String, InputValue)> = Vec::new();
    let mut i: usize = 0;
    proof {
        assert(ev.take(0) =~= Seq::<SchemaElementView>::empty());
        assert(inputs_view(map@) =~= Seq::<(Seq<char>, InputValueView)>::empty());
    }
    while i < es.len()
        invariant
            i <= es@.len(),
            ev == elements_view(es@),
            mv == matched_view(matched@),
            inputs_spec(ev.take(i as int), mv) == Some(inputs_view(map@)),
        decreases es@.len() - i,
    {
        let e = &es[i];
        proof {
            assert(ev.take(i + 1).drop_last() =~= ev.take(i as int));
            assert(ev.take(i + 1).last() == e@);
        }
        let given = find_matched(matched, e.key.as_str());
        match input_value(e, given) {
            Some(v) => {
                let k = string_of(e.key.as_str());
                let ghost before = inputs_view(map@);
                let ghost kv = (k@, v@);
                map.push((k, v));
                proof {
                    assert(inputs_view(map@) =~= before.push(kv));
                }
            },
            None => {
                proof {
                    assert(input_value_spec(e@, None) is None);
                    lemma_inputs_none(ev, mv, i as int);
                }
                let key = string_of(e.key.as_str());
                let data_type = string_of(e.data_type.as_str());
                return Err(RenderError::UnsupportedDataType { key, data_type });
            },
        }
        i = i + 1;
    }
    proof {
        assert(ev.take(es@.len() as int) =~= ev);
    }
    Ok(PromptInputs { map })
}

impl DotPrompt {
    /// The inputs of the prompt, one for each element of its input schema,
    /// in the order of `Schema::elements`, given what the command line
    /// matched.
    pub fn prompt_inputs(&self, matched: &Vec<(String, ArgValue)>) -> (r: Result<
        PromptInputs,
        RenderError,
    >)
        ensures
            exists|es: Seq<SchemaElementView>|
                {
                    &&& distinct_keys(es)
                    &&& schema_map(es) == schema_map(input_elements(self.input_raw()))
                    &&& match #[trigger] inputs_spec(es, matched_view(matched@)) {
                        Some(vs) => r matches Ok(p) && inputs_view(p.map@) == vs,
                        None => r matches Err(e) && exists|i: int|
                            0 <= i < es.len() && (input_value_spec(#[trigger] es[i], None) is None)
                                && unsupported_input(e, es[i]),
                    }
                },
    {
        let schema = self.input_schema();
        let es = schema.elements();
        let r = inputs_of_elements(es, matched);
        let ghost ev = elements_view(es@);
        proof {
            if inputs_spec(ev, matched_view(matched@)) is None {
                let i = choose|i: int|
                    0 <= i < es@.len() && (input_value_spec(#[trigger] es@[i]@, None) is None) && (r matches Err(RenderError::UnsupportedDataType { key, data_type }) && key@
                        == es@[i]@.key && data_type@ == es@[i]@.data_type);
                assert(ev[i] == es@[i]@);
            }
        }
        assert(match inputs_spec(ev, matched_view(matched@)) {
            Some(vs) => r matches Ok(p) && inputs_view(p.map@) == vs,
            None => r matches Err(e) && exists|i: int|
                0 <= i < ev.len() && (input_value_spec(#[trigger] ev[i], None) is None)
                    && unsupported_input(e, ev[i]),
        });
        r
    }
}


/// How an input is given on the command line.
#[derive(Debug)]
pub enum InputArgKind {
    /// `--key`, setting `true`.
    Flag,
    /// Values without a name, at least `min_values` of them.
    Positional { min_values: usize },
    /// `--key value`.
    Named,
    /// `--key value`, the value read as a whole number.
    Int,
    /// `--key value`, the value read as a single-precision number.
    Number,
    /// `--key value`, the value one of `choices`.
    Choice { choices: Vec<String> },
}

pub enum InputArgKindView {
    Flag,
    Positional { min_values: usize },
    Named,
    Int,
    Number,
    Choice { choices: Seq<Seq<char>> },
}

impl View for InputArgKind {
    type V = InputArgKindView;

    open spec fn view(&self) -> InputArgKindView {
        match self {
            InputArgKind::Flag => InputArgKindView::Flag,
            InputArgKind::Positional { min_values } => InputArgKindView::Positional {
                min_values: *min_values,
            },
            InputArgKind::Named => InputArgKindView::Named,
            InputArgKind::Int => InputArgKindView::Int,
            InputArgKind::Number => InputArgKindView::Number,
            InputArgKind::Choice { choices } => InputArgKindView::Choice {
                choices: strings_view(choices@),
            },
        }
    }
}

/// The command-line argument of one input of a prompt.
#[derive(Debug)]
pub struct InputArgSpec {
    pub key: String,
    pub help: String,
    pub required: bool,
    pub kind: InputArgKind,
}

pub struct InputArgSpecView {
    pub key: Seq<char>,
    pub help: Seq<char>,
    pub required: bool,
    pub kind: InputArgKindView,
}

impl View for InputArgSpec {
    type V = InputArgSpecView;

    open spec fn view(&self) -> InputArgSpecView {
        InputArgSpecView {
            key: self.key@,
            help: self.help@,
            required: self.required,
            kind: self.kind@,
        }
    }
}

/// The argument of kind `kind` for `e`, with its key, help and required
/// flag.
pub open spec fn named_arg(e: SchemaElementView, kind: InputArgKindView) -> InputArgSpecView {
    InputArgSpecView { key: e.key, help: e.description, required: e.required, kind }
}

/// The argument for an input: a flag, never required, for `boolean`; for
/// `string`, positional values (at least one where the input is required)
/// or a named value; a named whole number for `integer`, a named number for
/// `number`, and a named value limited to the element's choices for `enum`;
/// no argument for any other type.
pub open spec fn input_arg_of(e: SchemaElementView) -> Option<InputArgSpecView> {
    if e.data_type == "boolean"@ {
        Some(
            InputArgSpecView {
                key: e.key,
                help: e.description,
                required: false,
                kind: InputArgKindView::Flag,
            },
        )
    } else if e.data_type == "string"@ {
        Some(
            named_arg(
                e,
                if e.positional {
                    InputArgKindView::Positional { min_values: if e.required { 1 } else { 0 } }
                } else {
                    InputArgKindView::Named
                },
            ),
        )
    } else if e.data_type == "integer"@ {
        Some(named_arg(e, InputArgKindView::Int))
    } else if e.data_type == "number"@ {
        Some(named_arg(e, InputArgKindView::Number))
    } else if e.data_type == "enum"@ {
        Some(named_arg(e, InputArgKindView::Choice { choices: e.choices }))
    } else {
        None
    }
}

fn copy_strings(v: &Vec<String>) -> (r: Vec<String>)
    ensures
        strings_view(r@) == strings_view(v@),
{
    let mut r: Vec<String> = Vec::new();
    let mut i: usize = 0;
    while i < v.len()
        invariant
            i <= v@.len(),
            r@.len() == i,
            forall|j: int| 0 <= j < i ==> #[trigger] r@[j]@ == v@[j]@,
        decreases v@.len() - i,
    {
        r.push(string_of(v[i].as_str()));
        i = i + 1;
    }
    assert(strings_view(r@) =~= strings_view(v@));
    r
}

fn input_arg_for(e: &SchemaElement) -> (r: Option<InputArgSpec>)
    ensures
        match input_arg_of(e@) {
            Some(a) => r matches Some(s) && s@ == a,
            None => r is None,
        },
{
    let dt = e.data_type.as_str();
    let mut required = e.required;
    let kind = if str_eq(dt, "boolean") {
        required = false;
        InputArgKind::Flag
    } else if str_eq(dt, "string") {
        if e.positional {
            InputArgKind::Positional { min_values: if e.required { 1 } else { 0 } }
        } else {
            InputArgKind::Named
        }
    } else if str_eq(dt, "integer") {
        InputArgKind::Int
    } else if str_eq(dt, "number") {
        InputArgKind::Number
    } else if str_eq(dt, "enum") {
        InputArgKind::Choice { choices: copy_strings(&e.choices) }
    } else {
        return None;
    };
    Some(
        InputArgSpec {
            key: string_of(e.key.as_str()),
            help: string_of(e.description.as_str()),
            required,
            kind,
        },
    )
}

/// `e` is the error for an element whose type is not supported.
pub open spec fn unsupported_input(e: RenderError, el: SchemaElementView) -> bool {
    e matches RenderError::UnsupportedDataType { key, data_type } && key@ == el.key && data_type@
        == el.data_type
}

/// The command-line arguments of the inputs `es`, each in its place, or the
/// first input whose type has no argument.
pub fn input_args_of_elements(es: &Vec<SchemaElement>) -> (r: Result<Vec<InputArgSpec>, RenderError>)
    ensures
        (r is Ok) <==> (forall|i: int|
            0 <= i < es@.len() ==> (input_arg_of(#[trigger] es@[i]@) is Some)),
        r matches Ok(v) ==> v@.len() == es@.len() && forall|i: int|
            0 <= i < es@.len() ==> Some(#[trigger] v@[i]@) == input_arg_of(es@[i]@),
        r matches Err(e) ==> exists|i: int|
            0 <= i < es@.len() && (input_arg_of(#[trigger] es@[i]@) is None) && unsupported_input(
                e,
                es@[i]@,
            ),
{
    let mut args: Vec<InputArgSpec> = Vec::new();
    let mut i: usize = 0;
    while i < es.len()
        invariant
            i <= es@.len(),
            args@.len() == i,
            forall|j: int| 0 <= j < i ==> input_arg_of(#[trigger] es@[j]@) is Some,
            forall|j: int| 0 <= j < i ==> Some(#[trigger] args@[j]@) == input_arg_of(es@[j]@),
        decreases es@.len() - i,
    {
        match input_arg_for(&es[i]) {
            Some(a) => args.push(a),
            None => {
                let key = string_of(es[i].key.as_str());
                let data_type = string_of(es[i].data_type.as_str());
                return Err(RenderError::UnsupportedDataType { key, data_type });
            },
        }
        i = i + 1;
    }
    Ok(args)
}

impl DotPrompt {
    /// The command-line arguments of the prompt's inputs, one for each
    /// element of its input schema.
    pub fn input_arg_specs(&self) -> (r: Result<Vec<InputArgSpec>, RenderError>)
        ensures
            (r is Ok) <==> (forall|k: Seq<char>|
                #[trigger] schema_map(input_elements(self.input_raw())).contains_key(k)
                    ==> (input_arg_of(schema_map(input_elements(self.input_raw()))[k]) is Some)),
            r matches Ok(v) ==> {
                let s = schema_map(input_elements(self.input_raw()));
                &&& v@.len() == s.dom().len()
                &&& forall|i: int|
                    0 <= i < v@.len() ==> s.contains_key(#[trigger] v@[i]@.key) && Some(v@[i]@)
                        == input_arg_of(s[v@[i]@.key])
                &&& forall|i: int, j: int| 0 <= i < j < v@.len() ==> v@[i]@.key != v@[j]@.key
            },
            r matches Err(e) ==> {
                let s = schema_map(input_elements(self.input_raw()));
                exists|k: Seq<char>|
                    #[trigger] s.contains_key(k) && (input_arg_of(s[k]) is None)
                        && unsupported_input(e, s[k])
            },
    {
        let schema = self.input_schema();
        let es = schema.elements();
        let r = input_args_of_elements(es);
        proof {
            let ev = elements_view(es@);
            lemma_schema_map(ev);
            let s = schema_map(ev);
            match &r {
                Ok(v) => {
                    assert forall|i: int| 0 <= i < v@.len() implies s.contains_key(
                        #[trigger] v@[i]@.key,
                    ) && Some(v@[i]@) == input_arg_of(s[v@[i]@.key]) by {
                        assert(ev[i] == es@[i]@);
                        assert(Some(v@[i]@) == input_arg_of(es@[i]@));
                        assert(v@[i]@.key == ev[i].key);
                        assert(s.contains_key(ev[i].key) && s[ev[i].key] == ev[i]);
                    }
                    assert forall|i: int, j: int| 0 <= i < j < v@.len() implies v@[i]@.key
                        != v@[j]@.key by {
                        assert(ev[i] == es@[i]@);
                        assert(ev[j] == es@[j]@);
                        assert(Some(v@[i]@) == input_arg_of(es@[i]@));
                        assert(Some(v@[j]@) == input_arg_of(es@[j]@));
                    }
                    assert forall|k: Seq<char>| #[trigger] s.contains_key(k) implies (input_arg_of(
                        s[k],
                    ) is Some) by {
                        let i = choose|i: int| 0 <= i < ev.len() && ev[i].key == k;
                        assert(ev[i] == es@[i]@);
                    }
                },
                Err(e) => {
                    let i = choose|i: int|
                        0 <= i < es@.len() && (input_arg_of(#[trigger] es@[i]@) is None)
                            && unsupported_input(*e, es@[i]@);
                    assert(ev[i] == es@[i]@);
                    assert(s.contains_key(ev[i].key));
                },
            }
        }
        r
    }
}

} // verus!
