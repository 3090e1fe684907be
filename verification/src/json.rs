//! A JSON value the library builds and reads: the introspection schema and the
//! request bodies it hands to the HTTP layer.
use vstd::prelude::*;

verus! {

/// A JSON value. Object entries keep the order in which they were built; a
/// key is looked up at its first entry.
#[derive(Debug)]
pub enum JsonValue {
    Null,
    Bool(bool),
    Int(i64),
    /// A number given by its IEEE-754 single-precision bit pattern.
    Float { bits: u32 },
    Str(String),
    Array(Vec<JsonValue>),
    Object(Vec<(String, JsonValue)>),
}

/// The mathematical model of a JSON value: strings by their characters.
pub enum JsonSpec {
    Null,
    Bool(bool),
    Int(int),
    Float(u32),
    Str(Seq<char>),
    Array(Seq<JsonSpec>),
    Object(Seq<(Seq<char>, JsonSpec)>),
}

/// The model of a JSON value.
pub open spec fn json_view(v: JsonValue) -> JsonSpec
    decreases v,
{
    match v {
        JsonValue::Null => JsonSpec::Null,
        JsonValue::Bool(b) => JsonSpec::Bool(b),
        JsonValue::Int(n) => JsonSpec::Int(n as int),
        JsonValue::Float { bits } => JsonSpec::Float(bits),
        JsonValue::Str(s) => JsonSpec::Str(s@),
        JsonValue::Array(xs) => JsonSpec::Array(
            Seq::new(
                xs@.len(),
                |i: int|
                    if 0 <= i < xs@.len() {
                        json_view(xs@[i])
                    } else {
                        JsonSpec::Null
                    },
            ),
        ),
        JsonValue::Object(es) => JsonSpec::Object(
            Seq::new(
                es@.len(),
                |i: int|
                    if 0 <= i < es@.len() {
                        (es@[i].0@, json_view(es@[i].1))
                    } else {
                        (Seq::empty(), JsonSpec::Null)
                    },
            ),
        ),
    }
}

/// The model of a sequence of object entries.
pub open spec fn entries_view(es: Seq<(String, JsonValue)>) -> Seq<(Seq<char>, JsonSpec)> {
    Seq::new(es.len(), |i: int| (es[i].0@, json_view(es[i].1)))
}

/// The model of a sequence of array items.
pub open spec fn items_view(xs: Seq<JsonValue>) -> Seq<JsonSpec> {
    Seq::new(xs.len(), |i: int| json_view(xs[i]))
}

/// Pushing an item extends the model of the items by the item's model.
pub proof fn lemma_items_view_push(xs: Seq<JsonValue>, x: JsonValue)
    ensures
        items_view(xs.push(x)) == items_view(xs).push(json_view(x)),
{
    assert(items_view(xs.push(x)) =~= items_view(xs).push(json_view(x)));
}

/// An object's model is the model of its entries.
pub proof fn lemma_object_view(es: Vec<(String, JsonValue)>)
    ensures
        json_view(JsonValue::Object(es)) == JsonSpec::Object(entries_view(es@)),
{
    assert(json_view(JsonValue::Object(es))->Object_0 =~= entries_view(es@));
}

/// An array's model is the model of its items.
pub proof fn lemma_array_view(xs: Vec<JsonValue>)
    ensures
        json_view(JsonValue::Array(xs)) == JsonSpec::Array(items_view(xs@)),
{
    assert(json_view(JsonValue::Array(xs))->Array_0 =~= items_view(xs@));
}

/// The value at the first entry of `es` whose key is `key`.
pub open spec fn entry_lookup(es: Seq<(String, JsonValue)>, key: Seq<char>) -> Option<JsonValue>
    decreases es.len(),
{
    if es.len() == 0 {
        None
    } else if es[0].0@ == key {
        Some(es[0].1)
    } else {
        entry_lookup(es.drop_first(), key)
    }
}

/// The member `key` of an object; `None` for a missing key or a non-object.
pub open spec fn json_get(v: JsonValue, key: Seq<char>) -> Option<JsonValue> {
    match v {
        JsonValue::Object(es) => entry_lookup(es@, key),
        _ => None,
    }
}

/// The keys of an object's entries, in order.
pub open spec fn entry_keys(es: Seq<(String, JsonValue)>) -> Seq<Seq<char>> {
    es.map_values(|e: (String, JsonValue)| e.0@)
}

/// `v` is the string `t`.
pub open spec fn is_text(v: JsonValue, t: Seq<char>) -> bool {
    v matches JsonValue::Str(s) && s@ == t
}

/// A key is found exactly when one of the entries has it.
pub proof fn lemma_lookup_found(es: Seq<(String, JsonValue)>, key: Seq<char>)
    ensures
        entry_lookup(es, key) is Some <==> entry_keys(es).contains(key),
    decreases es.len(),
{
    if es.len() > 0 {
        lemma_lookup_found(es.drop_first(), key);
        let ks = entry_keys(es);
        let rest = entry_keys(es.drop_first());
        assert(rest =~= ks.drop_first());
        if ks.contains(key) && es[0].0@ != key {
            let j = choose|j: int| 0 <= j < ks.len() && ks[j] == key;
            assert(j != 0);
            assert(rest[j - 1] == key);
        }
        if rest.contains(key) {
            let j = choose|j: int| 0 <= j < rest.len() && rest[j] == key;
            assert(ks[j + 1] == key);
        }
        if es[0].0@ == key {
            assert(ks[0] == key);
        }
    }
}

/// The string `s` as a JSON value.
pub fn text(s: &str) -> (v: JsonValue)
    ensures
        is_text(v, s@),
        json_view(v) == JsonSpec::Str(s@),
{
    JsonValue::Str(String::from_str(s))
}

/// The string `s` as a JSON value, taking the string.
pub fn text_owned(s: String) -> (v: JsonValue)
    ensures
        json_view(v) == JsonSpec::Str(s@),
        is_text(v, s@),
{
    JsonValue::Str(s)
}

/// An object built from its entries.
pub fn object(entries: Vec<(String, JsonValue)>) -> (v: JsonValue)
    ensures
        v == JsonValue::Object(entries),
        json_view(v) == JsonSpec::Object(entries_view(entries@)),
{
    proof {
        lemma_object_view(entries);
    }
    JsonValue::Object(entries)
}

/// An array built from its items.
pub fn array(items: Vec<JsonValue>) -> (v: JsonValue)
    ensures
        v == JsonValue::Array(items),
        json_view(v) == JsonSpec::Array(items_view(items@)),
{
    proof {
        lemma_array_view(items);
    }
    JsonValue::Array(items)
}

/// An object entry.
pub fn field(key: &str, value: JsonValue) -> (e: (String, JsonValue))
    ensures
        e.0@ == key@,
        e.1 == value,
{
    (String::from_str(key), value)
}

impl JsonValue {
    /// The member `key` of an object, by reference.
    pub fn get(&self, key: &str) -> (r: Option<&JsonValue>)
        ensures
            match r {
                Some(x) => json_get(*self, key@) == Some(*x),
                None => json_get(*self, key@) is None,
            },
    {
        match self {
            JsonValue::Object(es) => {
                let k = String::from_str(key);
                let mut i: usize = 0;
                assert(es@.subrange(0, es@.len() as int) =~= es@);
                while i < es.len()
                    invariant
                        json_get(*self, key@) == entry_lookup(es@, key@),
                        i <= es@.len(),
                        k@ == key@,
                        entry_lookup(es@, key@) == entry_lookup(es@.subrange(i as int, es@.len() as int), key@),
                    decreases es.len() - i,
                {
                    let ghost rest = es@.subrange(i as int, es@.len() as int);
                    assert(rest.drop_first() =~= es@.subrange(i + 1, es@.len() as int));
                    assert(rest[0] == es@[i as int]);
                    if es[i].0 == k {
                        assert(es@[i as int].0@ == key@);
                        assert(entry_lookup(rest, key@) == Some(rest[0].1));
                        return Some(&es[i].1);
                    }
                    i = i + 1;
                }
                assert(es@.subrange(i as int, es@.len() as int).len() == 0);
                None
            },
            _ => None,
        }
    }

    /// The member `key` of an object, moved out of it.
    pub fn into_member(self, key: &str) -> (r: Option<JsonValue>)
        ensures
            r == json_get(self, key@),
    {
        let ghost whole = self;
        match self {
            JsonValue::Object(es) => {
                let mut es = es;
                let ghost all = es@;
                assert(json_get(whole, key@) == entry_lookup(all, key@));
                let k = String::from_str(key);
                let mut i: usize = 0;
                assert(all.subrange(0, all.len() as int) =~= all);
                while i < es.len()
                    invariant
                        json_get(whole, key@) == entry_lookup(all, key@),
                        whole == self,
                        es@ == all,
                        i <= es@.len(),
                        k@ == key@,
                        entry_lookup(all, key@) == entry_lookup(all.subrange(i as int, all.len() as int), key@),
                    decreases es.len() - i,
                {
                    let ghost rest = all.subrange(i as int, all.len() as int);
                    assert(rest.drop_first() =~= all.subrange(i + 1, all.len() as int));
                    assert(rest[0] == all[i as int]);
                    if es[i].0 == k {
                        assert(entry_lookup(rest, key@) == Some(rest[0].1));
                        let e = es.remove(i);
                        return Some(e.1);
                    }
                    i = i + 1;
                }
                assert(es@.subrange(i as int, es@.len() as int).len() == 0);
                None
            },
            _ => None,
        }
    }
}

} // verus!
