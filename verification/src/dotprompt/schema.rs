use vstd::prelude::*;

use crate::text::str_eq;

verus! {

/// One argument of a prompt, or one field of its structured output.
#[derive(Debug)]
pub struct SchemaElement {
    pub key: String,
    pub data_type: String,
    pub description: String,
    pub required: bool,
    pub positional: bool,
    /// The values that an `enum` element accepts.
    pub choices: Vec<String>,
}

pub struct SchemaElementView {
    pub key: Seq<char>,
    pub data_type: Seq<char>,
    pub description: Seq<char>,
    pub required: bool,
    pub positional: bool,
    pub choices: Seq<Seq<char>>,
}

pub open spec fn strings_view(v: Seq<String>) -> Seq<Seq<char>> {
    v.map_values(|s: String| s@)
}

impl View for SchemaElement {
    type V = SchemaElementView;

    open spec fn view(&self) -> SchemaElementView {
        SchemaElementView {
            key: self.key@,
            data_type: self.data_type@,
            description: self.description@,
            required: self.required,
            positional: self.positional,
            choices: strings_view(self.choices@),
        }
    }
}

/// The elements entered one after the other into a map by key, a later one
/// replacing an earlier one with the same key.
pub open spec fn schema_map(es: Seq<SchemaElementView>) -> Map<Seq<char>, SchemaElementView>
    decreases es.len(),
{
    if es.len() == 0 {
        Map::empty()
    } else {
        schema_map(es.drop_last()).insert(es.last().key, es.last())
    }
}

/// No key occurs twice.
pub open spec fn distinct_keys(es: Seq<SchemaElementView>) -> bool {
    forall|i: int, j: int| 0 <= i < j < es.len() ==> es[i].key != es[j].key
}

pub proof fn lemma_schema_map(es: Seq<SchemaElementView>)
    requires
        distinct_keys(es),
    ensures
        schema_map(es).dom().finite(),
        schema_map(es).dom().len() == es.len(),
        forall|i: int|
            0 <= i < es.len() ==> #[trigger] schema_map(es).contains_key(es[i].key) && schema_map(
                es,
            )[es[i].key] == es[i],
        forall|k: Seq<char>|
            #[trigger] schema_map(es).contains_key(k) ==> exists|i: int|
                0 <= i < es.len() && es[i].key == k,
    decreases es.len(),
{
    if es.len() > 0 {
        let t = es.drop_last();
        assert(distinct_keys(t));
        lemma_schema_map(t);
        let x = es.last();
        assert(!schema_map(t).contains_key(x.key)) by {
            if schema_map(t).contains_key(x.key) {
                let i = choose|i: int| 0 <= i < t.len() && t[i].key == x.key;
                assert(es[i].key == es[es.len() - 1].key);
            }
        }
        assert forall|i: int| 0 <= i < es.len() implies #[trigger] schema_map(es).contains_key(
            es[i].key,
        ) && schema_map(es)[es[i].key] == es[i] by {
            if i < es.len() - 1 {
                assert(es[i] == t[i]);
                assert(es[i].key != x.key);
            }
        }
        assert forall|k: Seq<char>| #[trigger] schema_map(es).contains_key(k) implies exists|i: int|
            0 <= i < es.len() && es[i].key == k by {
            if k != x.key {
                let i = choose|i: int| 0 <= i < t.len() && t[i].key == k;
                assert(es[i] == t[i]);
            } else {
                assert(es[es.len() - 1].key == k);
            }
        }
    }
}

proof fn lemma_schema_map_update(es: Seq<SchemaElementView>, j: int, e: SchemaElementView)
    requires
        distinct_keys(es),
        0 <= j < es.len(),
        es[j].key == e.key,
    ensures
        schema_map(es.update(j, e)) == schema_map(es).insert(e.key, e),
    decreases es.len(),
{
    let u = es.update(j, e);
    if j == es.len() - 1 {
        assert(u.drop_last() =~= es.drop_last());
        assert(schema_map(u) =~= schema_map(es).insert(e.key, e));
    } else {
        let t = es.drop_last();
        assert(distinct_keys(t));
        assert(u.drop_last() =~= t.update(j, e));
        lemma_schema_map_update(t, j, e);
        assert(es.last().key != e.key) by {
            assert(es[j].key != es[es.len() - 1].key);
        }
        assert(schema_map(u) =~= schema_map(es).insert(e.key, e));
    }
}

/// Elements by key. No key occurs twice.
pub struct Schema {
    elements: Vec<SchemaElement>,
}

pub open spec fn elements_view(v: Seq<SchemaElement>) -> Seq<SchemaElementView> {
    v.map_values(|e: SchemaElement| e@)
}

impl View for Schema {
    type V = Map<Seq<char>, SchemaElementView>;

    closed spec fn view(&self) -> Map<Seq<char>, SchemaElementView> {
        schema_map(elements_view(self.elements@))
    }
}

impl Schema {
    #[verifier::type_invariant]
    spec fn keys_distinct(self) -> bool {
        distinct_keys(elements_view(self.elements@))
    }

    /// An empty schema.
    pub fn new() -> (r: Schema)
        ensures
            r@ == Map::<Seq<char>, SchemaElementView>::empty(),
    {
        let r = Schema { elements: Vec::new() };
        assert(elements_view(r.elements@) =~= Seq::<SchemaElementView>::empty());
        r
    }

    /// The position of the element with `key`.
    fn position(&self, key: &str) -> (r: Option<usize>)
        ensures
            r matches Some(i) ==> i < self.elements@.len() && self.elements@[i as int].key@ == key@,
            r is None ==> forall|i: int|
                0 <= i < self.elements@.len() ==> self.elements@[i].key@ != key@,
    {
        let mut i: usize = 0;
        while i < self.elements.len()
            invariant
                i <= self.elements@.len(),
                forall|j: int| 0 <= j < i ==> self.elements@[j].key@ != key@,
            decreases self.elements@.len() - i,
        {
            if str_eq(self.elements[i].key.as_str(), key) {
                return Some(i);
            }
            i = i + 1;
        }
        None
    }

    /// Enters `e` under its key, replacing the element held there.
    pub fn insert(&mut self, e: SchemaElement)
        ensures
            final(self)@ == old(self)@.insert(e.key@, e@),
    {
        proof {
            use_type_invariant(&*self);
        }
        let ghost es = elements_view(self.elements@);
        let ghost ev = e@;
        match self.position(e.key.as_str()) {
            Some(i) => {
                let mut v: Vec<SchemaElement> = Vec::new();
                std::mem::swap(&mut v, &mut self.elements);
                assert(elements_view(v@) == es);
                v.set(i, e);
                proof {
                    assert(elements_view(v@) =~= es.update(i as int, ev));
                    lemma_schema_map_update(es, i as int, ev);
                    assert forall|a: int, b: int|
                        0 <= a < b < elements_view(v@).len() implies elements_view(v@)[a].key
                        != elements_view(v@)[b].key by {
                        assert(es[a].key != es[b].key);
                    }
                }
                self.elements = v;
            },
            None => {
                let mut v: Vec<SchemaElement> = Vec::new();
                std::mem::swap(&mut v, &mut self.elements);
                v.push(e);
                proof {
                    assert(elements_view(v@) =~= es.push(ev));
                    assert(es.push(ev).drop_last() =~= es);
                    assert forall|a: int, b: int|
                        0 <= a < b < elements_view(v@).len() implies elements_view(v@)[a].key
                        != elements_view(v@)[b].key by {
                        if b < es.len() {
                            assert(es[a].key != es[b].key);
                        } else {
                            assert(elements_view(v@)[a].key == es[a].key);
                        }
                    }
                }
                self.elements = v;
            },
        }
    }

    /// The number of keys.
    pub fn len(&self) -> (n: usize)
        ensures
            self@.dom().finite(),
            n == self@.dom().len(),
    {
        proof {
            use_type_invariant(self);
            lemma_schema_map(elements_view(self.elements@));
        }
        self.elements.len()
    }

    /// The element under `key`.
    pub fn get(&self, key: &str) -> (r: Option<&SchemaElement>)
        ensures
            r is Some <==> self@.contains_key(key@),
            r matches Some(e) ==> e@ == self@[key@],
    {
        proof {
            use_type_invariant(self);
            lemma_schema_map(elements_view(self.elements@));
        }
        match self.position(key) {
            Some(i) => {
                assert(elements_view(self.elements@)[i as int] == self.elements@[i as int]@);
                assert(elements_view(self.elements@)[i as int].key == key@);
                assert(schema_map(elements_view(self.elements@)).contains_key(
                    elements_view(self.elements@)[i as int].key,
                ));
                Some(&self.elements[i])
            },
            None => {
                proof {
                    if self@.contains_key(key@) {
                        let i = choose|i: int|
                            0 <= i < self.elements@.len() && elements_view(self.elements@)[i].key
                                == key@;
                        assert(self.elements@[i].key@ == key@);
                    }
                }
                None
            },
        }
    }

    /// Whether an element is held under `key`.
    pub fn contains_key(&self, key: &str) -> (r: bool)
        ensures
            r == self@.contains_key(key@),
    {
        self.get(key).is_some()
    }

    /// The elements, each key once, in the order in which their keys were
    /// first entered.
    pub fn elements(&self) -> (r: &Vec<SchemaElement>)
        ensures
            distinct_keys(elements_view(r@)),
            schema_map(elements_view(r@)) == self@,
    {
        proof {
            use_type_invariant(self);
        }
        &self.elements
    }
}

} // verus!

verus! {

/// Every element's key is in the map, and the element that the map holds
/// under a key is the last one entered with that key.
pub proof fn lemma_schema_map_last_wins(es: Seq<SchemaElementView>)
    ensures
        forall|i: int| 0 <= i < es.len() ==> #[trigger] schema_map(es).contains_key(es[i].key),
        forall|i: int|
            0 <= i < es.len() && (forall|j: int| i < j < es.len() ==> es[j].key != es[i].key)
                ==> #[trigger] schema_map(es)[es[i].key] == es[i],
    decreases es.len(),
{
    if es.len() > 0 {
        let t = es.drop_last();
        lemma_schema_map_last_wins(t);
        assert forall|i: int| 0 <= i < es.len() implies #[trigger] schema_map(es).contains_key(
            es[i].key,
        ) by {
            if i < es.len() - 1 {
                assert(es[i] == t[i]);
                assert(schema_map(t).contains_key(t[i].key));
            }
        }
        assert forall|i: int|
            0 <= i < es.len() && (forall|j: int| i < j < es.len() ==> es[j].key != es[i].key)
                implies #[trigger] schema_map(es)[es[i].key] == es[i] by {
            if i < es.len() - 1 {
                assert(es[i] == t[i]);
                assert(es[es.len() - 1].key != es[i].key);
                assert(forall|j: int| i < j < t.len() ==> t[j] == es[j]);
                assert(schema_map(t)[t[i].key] == t[i]);
            }
        }
    }
}

} // verus!
