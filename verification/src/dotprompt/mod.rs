pub mod args;
pub mod helper_args;
pub mod json;
pub mod renderers;
pub mod schema;

use vstd::prelude::*;

use crate::dotprompt::schema::{schema_map, strings_view, Schema, SchemaElement, SchemaElementView};
use crate::text::{
    chars_of, contains_seq, contains_str, ends_with, ends_with_seq, find_run, find_run_from,
    join_lines, join_spec, lemma_find_run_from, lines, lines_spec, occurs_at,
    push_str, split_once, split_once_spec, starts_with_seq, string_from_range, string_of,
    trim_bounds, trim_spec, trim_start, trim_start_spec,
};

verus! {

/// The provider and the model that a prompt names.
#[derive(Debug)]
pub struct ModelInfo {
    pub model_name: String,
    pub provider: String,
}

/// What a prompt takes: its schema, the raw entries of the frontmatter as
/// key and value, in the order in which they were read.
#[derive(Debug)]
pub struct Input {
    pub schema: Option<Vec<(String, String)>>,
}

/// What a prompt answers with: a format and, for structured answers, a
/// schema of raw entries.
#[derive(Debug)]
pub struct Output {
    pub format: String,
    pub schema: Option<Vec<(String, String)>>,
}

/// The frontmatter of a prompt file.
#[derive(Debug)]
pub struct Frontmatter {
    pub model: String,
    pub input: Option<Input>,
    pub output: Option<Output>,
}

/// A prompt file: its frontmatter and its template.
#[derive(Debug)]
pub struct DotPrompt {
    pub frontmatter: Frontmatter,
    pub template: String,
}

/// Why a prompt file could not be read.
#[derive(Debug)]
pub struct ParseDotPromptError(pub String);

pub open spec fn pairs_view(v: Seq<(String, String)>) -> Seq<(Seq<char>, Seq<char>)> {
    v.map_values(|p: (String, String)| (p.0@, p.1@))
}

pub open spec fn raw_schema(s: Option<Vec<(String, String)>>) -> Seq<(Seq<char>, Seq<char>)> {
    match s {
        Some(v) => pairs_view(v@),
        None => Seq::empty(),
    }
}

// ---------------------------------------------------------------------------
// Reading a prompt file
// ---------------------------------------------------------------------------
/// A line that is blank or a comment, before the frontmatter.
pub open spec fn is_preamble_line(l: Seq<char>) -> bool {
    let t = trim_spec(l);
    t.len() == 0 || t[0] == '#'
}

/// The number of preamble lines at the start of `ls`.
pub open spec fn preamble_lines(ls: Seq<Seq<char>>) -> nat
    decreases ls.len(),
{
    if ls.len() == 0 || !is_preamble_line(ls[0]) {
        0
    } else {
        1 + preamble_lines(ls.drop_first())
    }
}

proof fn lemma_preamble_lines_unique(ls: Seq<Seq<char>>, k: int)
    requires
        0 <= k <= ls.len(),
        forall|i: int| 0 <= i < k ==> is_preamble_line(#[trigger] ls[i]),
        k < ls.len() ==> !is_preamble_line(ls[k]),
    ensures
        preamble_lines(ls) == k,
    decreases ls.len(),
{
    if k > 0 {
        assert(is_preamble_line(ls[0]));
        assert forall|i: int| 0 <= i < k - 1 implies is_preamble_line(#[trigger] ls.drop_first()[i]) by {
            assert(ls.drop_first()[i] == ls[i + 1]);
        }
        lemma_preamble_lines_unique(ls.drop_first(), k - 1);
    }
}

/// The text of a prompt file from its frontmatter on: the file without
/// leading whitespace, its lines after the leading blank and comment lines,
/// joined with `\n`.
pub open spec fn source_body(s: Seq<char>) -> Seq<char> {
    let ls = lines_spec(trim_start_spec(s));
    join_spec(ls.skip(preamble_lines(ls) as int), "\n"@)
}

pub open spec fn no_delimiter_message() -> Seq<char> {
    "input must start with frontmatter delimiter `---`"@
}

pub open spec fn no_template_message() -> Seq<char> {
    "missing template after frontmatter"@
}

/// A prompt file cut into its frontmatter text and its template, both
/// trimmed: the body must start with `---`, and the next `---` ends the
/// frontmatter.
pub open spec fn split_source_spec(s: Seq<char>) -> Result<(Seq<char>, Seq<char>), Seq<char>> {
    let b = source_body(s);
    if !starts_with_seq(b, "---"@) {
        Err(no_delimiter_message())
    } else {
        match find_run_from(b, "---"@, 3) {
            None => Err(no_template_message()),
            Some(k) => Ok((trim_spec(b.subrange(3, k)), trim_spec(b.subrange(k + 3, b.len() as int)))),
        }
    }
}

fn is_preamble(l: &Vec<char>) -> (r: bool)
    ensures
        r == is_preamble_line(l@),
{
    let (a, b) = trim_bounds(l, 0, l.len());
    proof {
        assert(l@.subrange(0, l@.len() as int) =~= l@);
    }
    a == b || l[a] == '#'
}

/// Cuts a prompt file into its frontmatter text and its template.
pub fn split_source(s: &str) -> (r: Result<(String, String), ParseDotPromptError>)
    ensures
        match split_source_spec(s@) {
            Ok(p) => r matches Ok(q) && q.0@ == p.0 && q.1@ == p.1,
            Err(m) => r matches Err(e) && e.0@ == m,
        },
{
    let t = trim_start(s);
    let ls = lines(t.as_str());
    let ghost lv = ls@.map_values(|l: Vec<char>| l@);
    let mut i: usize = 0;
    while i < ls.len() && is_preamble(&ls[i])
        invariant
            i <= ls@.len(),
            lv == ls@.map_values(|l: Vec<char>| l@),
            forall|j: int| 0 <= j < i ==> is_preamble_line(#[trigger] lv[j]),
        decreases ls@.len() - i,
    {
        i = i + 1;
    }
    proof {
        lemma_preamble_lines_unique(lv, i as int);
    }
    let body = join_lines(&ls, i);
    let cs = chars_of(body.as_str());
    let dash = chars_of("---");
    proof {
        reveal_strlit("---");
        assert(cs@ == source_body(s@));
    }
    if cs.len() < 3 || !occurs_at(&cs, &dash, 0) {
        return Err(ParseDotPromptError(string_of("input must start with frontmatter delimiter `---`")));
    }
    match find_run(&cs, &dash, 3) {
        None => Err(ParseDotPromptError(string_of("missing template after frontmatter"))),
        Some(k) => {
            proof {
                lemma_find_run_from(cs@, dash@, 3);
            }
            let n = cs.len();
            let (a, b) = trim_bounds(&cs, 3, k);
            let (c, d) = trim_bounds(&cs, k + 3, n);
            let fm = string_from_range(&cs, a, b);
            let template = string_from_range(&cs, c, d);
            Ok((fm, template))
        },
    }
}

impl DotPrompt {
    /// A prompt from its template and the outcome of reading its
    /// frontmatter text: an error there becomes `invalid YAML frontmatter:`
    /// and its message.
    pub fn from_parts(frontmatter: Result<Frontmatter, String>, template: String) -> (r: Result<
        DotPrompt,
        ParseDotPromptError,
    >)
        ensures
            frontmatter is Ok <==> r is Ok,
            r matches Ok(p) ==> p.template@ == template@ && frontmatter == Ok::<
                Frontmatter,
                String,
            >(p.frontmatter),
            frontmatter matches Err(m) ==> r matches Err(e) && e.0@ == "invalid YAML frontmatter: "@
                + m@,
    {
        match frontmatter {
            Ok(fm) => Ok(DotPrompt { frontmatter: fm, template }),
            Err(m) => {
                let mut msg = string_of("invalid YAML frontmatter: ");
                push_str(&mut msg, m.as_str());
                Err(ParseDotPromptError(msg))
            },
        }
    }
}

// ---------------------------------------------------------------------------
// Questions on a prompt
// ---------------------------------------------------------------------------
pub open spec fn model_info_spec(model: Seq<char>) -> Option<(Seq<char>, Seq<char>)> {
    split_once_spec(model, '/')
}

/// How an input key marks its argument: the number of marker characters at
/// its end, whether the argument is required, whether it is positional.
/// `?!` or `!?`: optional and positional; `?`: optional; `!`: required and
/// positional; none: required.
pub open spec fn input_marks(k: Seq<char>) -> (int, bool, bool) {
    if ends_with_seq(k, "?!"@) || ends_with_seq(k, "!?"@) {
        (2, false, true)
    } else if ends_with_seq(k, "?"@) {
        (1, false, false)
    } else if ends_with_seq(k, "!"@) {
        (1, true, true)
    } else {
        (0, true, false)
    }
}

/// A schema value is `type, description`; without a comma all of it is the
/// type and the description is empty.
pub open spec fn value_parts(v: Seq<char>) -> (Seq<char>, Seq<char>) {
    match split_once_spec(v, ',') {
        Some(p) => p,
        None => (v, Seq::empty()),
    }
}

/// An input element: its key marks decide whether it is required and
/// positional. The `type, description` notation names no choices, so the
/// list of choices is empty.
pub open spec fn input_element_spec(k: Seq<char>, v: Seq<char>) -> SchemaElementView {
    let m = input_marks(k);
    let p = value_parts(v);
    SchemaElementView {
        key: k.subrange(0, k.len() - m.0),
        data_type: p.0,
        description: p.1,
        required: m.1,
        positional: m.2,
        choices: Seq::empty(),
    }
}

/// An output key ending in `?` marks an optional field; output fields are
/// never positional.
pub open spec fn output_element_spec(k: Seq<char>, v: Seq<char>) -> SchemaElementView {
    let opt = ends_with_seq(k, "?"@);
    let p = value_parts(v);
    SchemaElementView {
        key: if opt {
            k.subrange(0, k.len() - 1)
        } else {
            k
        },
        data_type: p.0,
        description: p.1,
        required: !opt,
        positional: false,
        choices: Seq::empty(),
    }
}

pub open spec fn input_elements(raw: Seq<(Seq<char>, Seq<char>)>) -> Seq<SchemaElementView> {
    raw.map_values(|p: (Seq<char>, Seq<char>)| input_element_spec(p.0, p.1))
}

pub open spec fn output_elements(raw: Seq<(Seq<char>, Seq<char>)>) -> Seq<SchemaElementView> {
    raw.map_values(|p: (Seq<char>, Seq<char>)| output_element_spec(p.0, p.1))
}

fn value_split(v: &str) -> (r: (String, String))
    ensures
        r.0@ == value_parts(v@).0 && r.1@ == value_parts(v@).1,
{
    match split_once(v, ',') {
        Some(p) => p,
        None => (string_of(v), String::new()),
    }
}

fn strip_last(k: &str, n: usize) -> (r: String)
    requires
        n <= k@.len(),
    ensures
        r@ == k@.subrange(0, k@.len() - n),
{
    let cs = chars_of(k);
    string_from_range(&cs, 0, cs.len() - n)
}

fn input_element(k: &str, v: &str) -> (r: SchemaElement)
    ensures
        r@ == input_element_spec(k@, v@),
{
    proof {
        reveal_strlit("?!");
        reveal_strlit("!?");
        reveal_strlit("?");
        reveal_strlit("!");
    }
    let (n, required, positional): (usize, bool, bool) = if ends_with(k, "?!") || ends_with(
        k,
        "!?",
    ) {
        (2, false, true)
    } else if ends_with(k, "?") {
        (1, false, false)
    } else if ends_with(k, "!") {
        (1, true, true)
    } else {
        (0, true, false)
    };
    let key = strip_last(k, n);
    let (data_type, description) = value_split(v);
    let choices: Vec<String> = Vec::new();
    assert(strings_view(choices@) =~= Seq::<Seq<char>>::empty());
    SchemaElement { key, data_type, description, required, positional, choices }
}

fn output_element(k: &str, v: &str) -> (r: SchemaElement)
    ensures
        r@ == output_element_spec(k@, v@),
{
    proof {
        reveal_strlit("?");
    }
    let opt = ends_with(k, "?");
    let key = if opt {
        strip_last(k, 1)
    } else {
        string_of(k)
    };
    let (data_type, description) = value_split(v);
    let choices: Vec<String> = Vec::new();
    assert(strings_view(choices@) =~= Seq::<Seq<char>>::empty());
    SchemaElement { key, data_type, description, required: !opt, positional: false, choices }
}

fn build_schema(raw: &Vec<(String, String)>, input: bool) -> (r: Schema)
    ensures
        r@ == schema_map(
            if input {
                input_elements(pairs_view(raw@))
            } else {
                output_elements(pairs_view(raw@))
            },
        ),
{
    let ghost es = if input {
        input_elements(pairs_view(raw@))
    } else {
        output_elements(pairs_view(raw@))
    };
    let mut result = Schema::new();
    let mut i: usize = 0;
    proof {
        assert(es.take(0) =~= Seq::<SchemaElementView>::empty());
    }
    while i < raw.len()
        invariant
            i <= raw@.len(),
            es.len() == raw@.len(),
            es == (if input {
                input_elements(pairs_view(raw@))
            } else {
                output_elements(pairs_view(raw@))
            }),
            result@ == schema_map(es.take(i as int)),
        decreases raw@.len() - i,
    {
        let (k, v) = &raw[i];
        let e = if input {
            input_element(k.as_str(), v.as_str())
        } else {
            output_element(k.as_str(), v.as_str())
        };
        proof {
            assert(e@ == es[i as int]);
            assert(es.take(i + 1).drop_last() =~= es.take(i as int));
        }
        result.insert(e);
        i = i + 1;
    }
    proof {
        assert(es.take(raw@.len() as int) =~= es);
    }
    result
}

impl DotPrompt {
    /// The raw input schema: empty where the prompt has no input or its
    /// input has no schema.
    pub open spec fn input_raw(&self) -> Seq<(Seq<char>, Seq<char>)> {
        match self.frontmatter.input {
            Some(i) => raw_schema(i.schema),
            None => Seq::empty(),
        }
    }

    pub open spec fn output_raw(&self) -> Seq<(Seq<char>, Seq<char>)> {
        match self.frontmatter.output {
            Some(o) => raw_schema(o.schema),
            None => Seq::empty(),
        }
    }

    /// Whether the template reads standard input through `{{STDIN}}`.
    pub fn template_needs_stdin(&self) -> (r: bool)
        ensures
            r == contains_seq(self.template@, "{{STDIN}}"@),
    {
        contains_str(self.template.as_str(), "{{STDIN}}")
    }

    /// The provider and the model of `provider/model`, cut at the first `/`.
    pub fn model_info(&self) -> (r: Result<ModelInfo, ParseDotPromptError>)
        ensures
            match model_info_spec(self.frontmatter.model@) {
                Some(p) => r matches Ok(m) && m.provider@ == p.0 && m.model_name@ == p.1,
                None => r matches Err(e) && e.0@ == "Improper model format"@,
            },
    {
        match split_once(self.frontmatter.model.as_str(), '/') {
            Some((provider, model_name)) => Ok(ModelInfo { model_name, provider }),
            None => Err(ParseDotPromptError(string_of("Improper model format"))),
        }
    }

    /// The output format, `text` where the prompt names no output.
    pub fn output_format(&self) -> (r: String)
        ensures
            r@ == match self.frontmatter.output {
                Some(o) => o.format@,
                None => "text"@,
            },
    {
        match &self.frontmatter.output {
            Some(o) => string_of(o.format.as_str()),
            None => string_of("text"),
        }
    }

    /// The arguments of the prompt by key, markers removed.
    pub fn input_schema(&self) -> (r: Schema)
        ensures
            r@ == schema_map(input_elements(self.input_raw())),
    {
        match &self.frontmatter.input {
            Some(i) => match &i.schema {
                Some(raw) => build_schema(raw, true),
                None => {
                    let r = Schema::new();
                    assert(input_elements(self.input_raw()) =~= Seq::<SchemaElementView>::empty());
                    r
                },
            },
            None => {
                let r = Schema::new();
                assert(input_elements(self.input_raw()) =~= Seq::<SchemaElementView>::empty());
                r
            },
        }
    }

    /// The fields of the structured output by key, markers removed.
    pub fn output_schema(&self) -> (r: Schema)
        ensures
            r@ == schema_map(output_elements(self.output_raw())),
    {
        match &self.frontmatter.output {
            Some(o) => match &o.schema {
                Some(raw) => build_schema(raw, false),
                None => {
                    let r = Schema::new();
                    assert(output_elements(self.output_raw()) =~= Seq::<SchemaElementView>::empty());
                    r
                },
            },
            None => {
                let r = Schema::new();
                assert(output_elements(self.output_raw()) =~= Seq::<SchemaElementView>::empty());
                r
            },
        }
    }
}

} // verus!

verus! {

/// One field of the JSON schema that a structured answer must follow.
#[derive(Debug)]
pub struct JsonField {
    pub key: String,
    pub json_type: String,
    pub description: String,
    pub required: bool,
}

pub struct JsonFieldView {
    pub key: Seq<char>,
    pub json_type: Seq<char>,
    pub description: Seq<char>,
    pub required: bool,
}

impl View for JsonField {
    type V = JsonFieldView;

    open spec fn view(&self) -> JsonFieldView {
        JsonFieldView {
            key: self.key@,
            json_type: self.json_type@,
            description: self.description@,
            required: self.required,
        }
    }
}

/// The JSON type of a schema type: `number` and `boolean` stay, anything
/// else is a `string`.
pub open spec fn json_type_of(data_type: Seq<char>) -> Seq<char> {
    if data_type == "number"@ {
        "number"@
    } else if data_type == "boolean"@ {
        "boolean"@
    } else {
        "string"@
    }
}

pub open spec fn json_field_of(e: SchemaElementView) -> JsonFieldView {
    JsonFieldView {
        key: e.key,
        json_type: json_type_of(e.data_type),
        description: e.description,
        required: e.required,
    }
}

/// The JSON fields of schema elements, in order.
pub open spec fn json_fields_of(es: Seq<SchemaElementView>) -> Seq<JsonFieldView> {
    es.map_values(|e: SchemaElementView| json_field_of(e))
}

fn json_type(data_type: &str) -> (r: String)
    ensures
        r@ == json_type_of(data_type@),
{
    if crate::text::str_eq(data_type, "number") {
        string_of("number")
    } else if crate::text::str_eq(data_type, "boolean") {
        string_of("boolean")
    } else {
        string_of("string")
    }
}

impl DotPrompt {
    /// The fields of the JSON schema for a structured answer, one for each
    /// field of the output schema, in the order of `Schema::elements`.
    pub fn structured_output_fields(&self) -> (r: Vec<JsonField>)
        ensures
            exists|es: Seq<SchemaElementView>|
                {
                    &&& crate::dotprompt::schema::distinct_keys(es)
                    &&& schema_map(es) == schema_map(output_elements(self.output_raw()))
                    &&& r@.map_values(|f: JsonField| f@) == #[trigger] json_fields_of(es)
                },
    {
        let schema = self.output_schema();
        let es = schema.elements();
        let ghost ev = crate::dotprompt::schema::elements_view(es@);
        let mut r: Vec<JsonField> = Vec::new();
        let mut i: usize = 0;
        while i < es.len()
            invariant
                i <= es@.len(),
                ev == crate::dotprompt::schema::elements_view(es@),
                r@.map_values(|f: JsonField| f@) == ev.take(i as int).map_values(
                    |e: SchemaElementView| json_field_of(e),
                ),
            decreases es@.len() - i,
        {
            let e = &es[i];
            let f = JsonField {
                key: string_of(e.key.as_str()),
                json_type: json_type(e.data_type.as_str()),
                description: string_of(e.description.as_str()),
                required: e.required,
            };
            let ghost before = r@.map_values(|f: JsonField| f@);
            r.push(f);
            proof {
                assert(ev[i as int] == e@);
                assert(ev.take(i + 1) =~= ev.take(i as int).push(e@));
                assert(r@.map_values(|f: JsonField| f@) =~= before.push(json_field_of(e@)));
                assert(ev.take(i + 1).map_values(|e: SchemaElementView| json_field_of(e)) =~= ev.take(
                    i as int,
                ).map_values(|e: SchemaElementView| json_field_of(e)).push(json_field_of(e@)));
            }
            i = i + 1;
        }
        proof {
            assert(ev.take(es@.len() as int) =~= ev);
            assert(r@.map_values(|f: JsonField| f@) == json_fields_of(ev));
        }
        r
    }
}

} // verus!

verus! {

/// A prompt file written in the plain form: `---`, the frontmatter, `---`,
/// the template, each delimiter on a line of its own.
pub open spec fn written_source(frontmatter: Seq<char>, template: Seq<char>) -> Seq<char> {
    "---\n"@ + frontmatter + "\n---\n"@ + template
}

proof fn lemma_find_run_at(s: Seq<char>, pat: Seq<char>, i: int, k: int)
    requires
        0 <= i <= k,
        pat.len() > 0,
        k + pat.len() <= s.len(),
        s.subrange(k, k + pat.len()) == pat,
        forall|j: int| i <= j < k ==> #[trigger] s.subrange(j, j + pat.len()) != pat,
    ensures
        find_run_from(s, pat, i) == Some(k),
    decreases k - i,
{
    if i < k {
        lemma_find_run_at(s, pat, i + 1, k);
    }
}

/// A prompt file written in the plain form splits back into its frontmatter
/// and its template, both trimmed, where neither holds a carriage return
/// and the frontmatter holds no `---`.
#[verifier::spinoff_prover]
#[verifier::rlimit(40)]
pub proof fn lemma_split_written_source(frontmatter: Seq<char>, template: Seq<char>)
    requires
        forall|j: int| 0 <= j < frontmatter.len() ==> frontmatter[j] != '\r',
        forall|j: int| 0 <= j < template.len() ==> template[j] != '\r',
        !contains_seq(frontmatter, "---"@),
    ensures
        split_source_spec(written_source(frontmatter, template)) == Ok::<
            (Seq<char>, Seq<char>),
            Seq<char>,
        >((trim_spec(frontmatter), trim_spec(template))),
{
    let f = frontmatter;
    let t = template;
    reveal_strlit("---\n");
    reveal_strlit("\n---\n");
    reveal_strlit("---");
    reveal_strlit("\n");
    let s = written_source(f, t);
    let n = f.len() as int;
    let dash = "---"@;
    assert(s.len() == 9 + n + t.len());
    assert(s[0] == '-' && s[1] == '-' && s[2] == '-' && s[3] == '\n');
    assert(forall|j: int| 4 <= j < 4 + n ==> s[j] == f[j - 4]);
    assert(s[4 + n] == '\n' && s[5 + n] == '-' && s[6 + n] == '-' && s[7 + n] == '-' && s[8 + n]
        == '\n');
    assert(forall|j: int| 9 + n <= j < s.len() ==> s[j] == t[j - 9 - n]);
    // No leading whitespace.
    crate::text::lemma_leading_ws_unique(s, 0);
    assert(trim_start_spec(s) =~= s);
    // The first line is the delimiter, which is no preamble.
    assert forall|j: int| 0 <= j < s.len() implies s[j] != '\r' by {
        if 4 <= j < 4 + n {
            assert(s[j] == f[j - 4]);
        } else if 9 + n <= j {
            assert(s[j] == t[j - 9 - n]);
        }
    }
    crate::text::lemma_split_on_first(s, '\n', 3);
    let p = crate::text::split_on(s, '\n');
    assert(s.take(3) =~= dash);
    let ls = lines_spec(s);
    assert(ls.len() > 0 && ls[0] == dash) by {
        assert(crate::text::strip_cr(dash) == dash);
    }
    crate::text::lemma_leading_ws_unique(dash, 0);
    crate::text::lemma_trailing_ws_unique(dash, 0);
    assert(trim_spec(dash) =~= dash);
    assert(!is_preamble_line(ls[0]));
    assert(preamble_lines(ls) == 0);
    assert(ls.skip(0) =~= ls);
    crate::text::lemma_join_lines(s);
    let b = source_body(s);
    assert(b == if s.last() == '\n' {
        s.drop_last()
    } else {
        s
    });
    assert(b.len() >= 8 + n);
    assert(forall|j: int| 0 <= j < 8 + n ==> b[j] == s[j]);
    assert(b.subrange(0, 3) =~= dash);
    assert(starts_with_seq(b, dash));
    // The next delimiter is the one after the frontmatter.
    assert(b.subrange(5 + n, 8 + n) =~= dash);
    assert forall|j: int| 3 <= j < 5 + n implies #[trigger] b.subrange(j, j + 3) != dash by {
        if j == 3 {
            assert(b.subrange(j, j + 3)[0] == '\n');
        } else if j + 3 <= 4 + n {
            assert(b.subrange(j, j + 3) =~= f.subrange(j - 4, j - 1));
            if b.subrange(j, j + 3) == dash {
                assert(f.subrange(j - 4, j - 4 + dash.len()) == dash);
            }
        } else {
            assert(b.subrange(j, j + 3)[4 + n - j] == '\n');
        }
    }
    lemma_find_run_at(b, dash, 3, 5 + n);
    // What lies between and after the delimiters, trimmed.
    assert(b.subrange(3, 5 + n) =~= seq!['\n'] + f + seq!['\n']);
    crate::text::lemma_trim_surrounded(seq!['\n'], f, seq!['\n']);
    let rest = b.subrange(8 + n, b.len() as int);
    if s.last() == '\n' && t.len() > 0 {
        assert(t.last() == '\n') by {
            assert(s.last() == t[t.len() - 1]);
        }
        assert(rest =~= seq!['\n'] + t.drop_last() + Seq::<char>::empty());
        crate::text::lemma_trim_surrounded(seq!['\n'], t.drop_last(), Seq::<char>::empty());
        assert(t =~= Seq::<char>::empty() + t.drop_last() + seq!['\n']);
        crate::text::lemma_trim_surrounded(Seq::<char>::empty(), t.drop_last(), seq!['\n']);
    } else if s.last() == '\n' {
        assert(rest =~= Seq::<char>::empty());
        assert(t =~= Seq::<char>::empty());
    } else {
        assert(rest =~= seq!['\n'] + t + Seq::<char>::empty());
        crate::text::lemma_trim_surrounded(seq!['\n'], t, Seq::<char>::empty());
    }
}


impl ParseDotPromptError {
    /// The error's message.
    pub fn message(&self) -> (r: String)
        ensures
            r@ == "ParseDotPromptError: "@ + self.0@,
    {
        let mut m = string_of("ParseDotPromptError: ");
        push_str(&mut m, self.0.as_str());
        m
    }
}

} // verus!
