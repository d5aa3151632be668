use vstd::prelude::*;

use serde_json::Value;

use crate::dotprompt::schema::{distinct_keys, schema_map, strings_view, SchemaElementView};
use crate::dotprompt::{json_fields_of, output_elements, DotPrompt, JsonField, JsonFieldView};
use crate::text::string_of;

verus! {

/// The text that serde_json writes for the object
/// `{"name": name, "schema": {"type": "object", "properties": {key:
/// {"type": type, "description": description}, ...}, "required": [key,
/// ...]}}` built from `properties` (key, type, description) and `required`.
pub uninterp spec fn json_document_of(
    name: Seq<char>,
    properties: Seq<(Seq<char>, Seq<char>, Seq<char>)>,
    required: Seq<Seq<char>>,
) -> Seq<char>;

pub open spec fn triples_view(v: Seq<(String, String, String)>) -> Seq<(Seq<char>, Seq<char>, Seq<char>)> {
    v.map_values(|p: (String, String, String)| (p.0@, p.1@, p.2@))
}

/// `serde_json`: the document built as a `serde_json::Value` object and
/// written with `Value::to_string`. The contract names the text.
#[verifier::external_body]
fn json_document(name: &str, properties: &Vec<(String, String, String)>, required: &Vec<String>) -> (r:
    String)
    ensures
        r@ == json_document_of(name@, triples_view(properties@), strings_view(required@)),
{
    let field = |t: &String, d: &String| Value::from_iter([("type", t.as_str()), ("description", d.as_str())]);
    let props = Value::from_iter(properties.iter().map(|(k, t, d)| (k.clone(), field(t, d))));
    let schema = Value::from_iter([("type", Value::from("object")), ("properties", props), ("required", Value::from(required.clone()))]);
    Value::from_iter([("name", Value::from(name)), ("schema", schema)]).to_string()
}

/// Each field as its key, JSON type and description, in order.
pub open spec fn property_triples(fs: Seq<JsonFieldView>) -> Seq<(Seq<char>, Seq<char>, Seq<char>)> {
    fs.map_values(|f: JsonFieldView| (f.key, f.json_type, f.description))
}

/// The keys of the required fields, in order.
pub open spec fn required_keys(fs: Seq<JsonFieldView>) -> Seq<Seq<char>>
    decreases fs.len(),
{
    if fs.len() == 0 {
        Seq::empty()
    } else if fs.last().required {
        required_keys(fs.drop_last()).push(fs.last().key)
    } else {
        required_keys(fs.drop_last())
    }
}

pub open spec fn fields_view(v: Seq<JsonField>) -> Seq<JsonFieldView> {
    v.map_values(|f: JsonField| f@)
}

/// The fields as key, JSON type and description, and the keys of the
/// required ones, each in the order of the fields.
fn document_parts(fields: &Vec<JsonField>) -> (r: (Vec<(String, String, String)>, Vec<String>))
    ensures
        triples_view(r.0@) == property_triples(fields_view(fields@)),
        strings_view(r.1@) == required_keys(fields_view(fields@)),
{
    let ghost fs = fields_view(fields@);
    let mut props: Vec<(String, String, String)> = Vec::new();
    let mut reqs: Vec<String> = Vec::new();
    let mut i: usize = 0;
    while i < fields.len()
        invariant
            i <= fields@.len(),
            fs == fields_view(fields@),
            triples_view(props@) == property_triples(fs.take(i as int)),
            strings_view(reqs@) == required_keys(fs.take(i as int)),
        decreases fields@.len() - i,
    {
        let f = &fields[i];
        let ghost before_p = triples_view(props@);
        let ghost before_r = strings_view(reqs@);
        props.push(
            (string_of(f.key.as_str()), string_of(f.json_type.as_str()), string_of(f.description.as_str())),
        );
        if f.required {
            reqs.push(string_of(f.key.as_str()));
        }
        proof {
            let t1 = fs.take(i + 1);
            assert(fs[i as int] == f@);
            assert(t1.drop_last() =~= fs.take(i as int));
            assert(t1.last() == f@);
            assert(triples_view(props@) =~= before_p.push((f@.key, f@.json_type, f@.description)));
            assert(property_triples(t1) =~= property_triples(fs.take(i as int)).push(
                (f@.key, f@.json_type, f@.description),
            ));
            if f.required {
                assert(strings_view(reqs@) =~= before_r.push(f@.key));
            } else {
                assert(strings_view(reqs@) =~= before_r);
            }
        }
        i = i + 1;
    }
    proof {
        assert(fs.take(fields@.len() as int) =~= fs);
    }
    (props, reqs)
}

impl DotPrompt {
    /// The JSON document that asks a model for a structured answer named
    /// `name` following the output schema: each field of the output schema
    /// as a property with its JSON type and description, and the keys of the
    /// required fields, both in the order of `Schema::elements`, written by
    /// serde_json.
    pub fn output_to_extract_structured_json(&self, name: &str) -> (r: String)
        ensures
            exists|es: Seq<SchemaElementView>|
                {
                    &&& distinct_keys(es)
                    &&& schema_map(es) == schema_map(output_elements(self.output_raw()))
                    &&& r@ == json_document_of(
                        name@,
                        property_triples(#[trigger] json_fields_of(es)),
                        required_keys(json_fields_of(es)),
                    )
                },
    {
        let fields = self.structured_output_fields();
        let ghost es = choose|es: Seq<SchemaElementView>|
            {
                &&& distinct_keys(es)
                &&& schema_map(es) == schema_map(output_elements(self.output_raw()))
                &&& fields@.map_values(|f: JsonField| f@) == #[trigger] json_fields_of(es)
            };
        assert(fields_view(fields@) =~= json_fields_of(es));
        let (props, reqs) = document_parts(&fields);
        json_document(name, &props, &reqs)
    }
}

} // verus!
