//! The JSON documents that the generators produce.
use vstd::prelude::*;

verus! {

/// A JSON document as the library builds it.  Object fields keep the order
/// in which they were written.
#[derive(Debug)]
pub enum JsonValue {
    Null,
    Bool(bool),
    Number(u64),
    Str(String),
    Array(Vec<JsonValue>),
    Object(Vec<(String, JsonValue)>),
}

/// Mathematical model of a JSON document.
pub enum Json {
    Null,
    Bool(bool),
    Number(nat),
    Str(Seq<char>),
    Array(Seq<Json>),
    Object(Seq<(Seq<char>, Json)>),
}

/// The model of a document.
pub open spec fn json_of(v: JsonValue) -> Json
    decreases v,
{
    match v {
        JsonValue::Null => Json::Null,
        JsonValue::Bool(b) => Json::Bool(b),
        JsonValue::Number(n) => Json::Number(n as nat),
        JsonValue::Str(s) => Json::Str(s@),
        JsonValue::Array(items) => Json::Array(
            Seq::new(
                items@.len(),
                |i: int|
                    if 0 <= i < items@.len() {
                        json_of(items@[i])
                    } else {
                        Json::Null
                    },
            ),
        ),
        JsonValue::Object(fields) => Json::Object(
            Seq::new(
                fields@.len(),
                |i: int|
                    if 0 <= i < fields@.len() {
                        (fields@[i].0@, json_of(fields@[i].1))
                    } else {
                        (Seq::empty(), Json::Null)
                    },
            ),
        ),
    }
}

/// The value of the first field named `key` among `fields`, or `Null`.
pub open spec fn field_value(fields: Seq<(Seq<char>, Json)>, key: Seq<char>) -> Json
    decreases fields.len(),
{
    if fields.len() == 0 {
        Json::Null
    } else if fields[0].0 == key {
        fields[0].1
    } else {
        field_value(fields.drop_first(), key)
    }
}

/// The field found under `key` is the first one with that name.
pub proof fn lemma_field_value_at(fields: Seq<(Seq<char>, Json)>, k: int, key: Seq<char>)
    requires
        0 <= k < fields.len(),
        fields[k].0 == key,
        forall|j: int| 0 <= j < k ==> fields[j].0 != key,
    ensures
        field_value(fields, key) == fields[k].1,
    decreases k,
{
    if k > 0 {
        let t = fields.drop_first();
        assert forall|j: int| 0 <= j < k - 1 implies t[j].0 != key by {
            assert(t[j] == fields[j + 1]);
        }
        assert(t[k - 1] == fields[k]);
        lemma_field_value_at(t, k - 1, key);
    }
}

/// No field is named `key`: the lookup finds nothing.
pub proof fn lemma_field_value_absent(fields: Seq<(Seq<char>, Json)>, key: Seq<char>)
    requires
        forall|j: int| 0 <= j < fields.len() ==> fields[j].0 != key,
    ensures
        field_value(fields, key) == Json::Null,
    decreases fields.len(),
{
    if fields.len() > 0 {
        let t = fields.drop_first();
        assert forall|j: int| 0 <= j < t.len() implies t[j].0 != key by {
            assert(t[j] == fields[j + 1]);
        }
        lemma_field_value_absent(t, key);
    }
}

/// The members of a one-field object.
pub proof fn lemma_members1(k0: Seq<char>, v0: Json)
    ensures
        member(Json::Object(seq![(k0, v0)]), k0) == v0,
{
    lemma_field_value_at(seq![(k0, v0)], 0, k0);
}

/// The members of a two-field object with distinct names.
pub proof fn lemma_members2(k0: Seq<char>, v0: Json, k1: Seq<char>, v1: Json)
    requires
        k0 != k1,
    ensures
        member(Json::Object(seq![(k0, v0), (k1, v1)]), k0) == v0,
        member(Json::Object(seq![(k0, v0), (k1, v1)]), k1) == v1,
{
    let fs = seq![(k0, v0), (k1, v1)];
    lemma_field_value_at(fs, 0, k0);
    assert(forall|j: int| 0 <= j < 1 ==> fs[j].0 != k1);
    lemma_field_value_at(fs, 1, k1);
}

/// The members of a three-field object with distinct names.
pub proof fn lemma_members3(k0: Seq<char>, v0: Json, k1: Seq<char>, v1: Json, k2: Seq<char>, v2: Json)
    requires
        k0 != k1,
        k0 != k2,
        k1 != k2,
    ensures
        member(Json::Object(seq![(k0, v0), (k1, v1), (k2, v2)]), k0) == v0,
        member(Json::Object(seq![(k0, v0), (k1, v1), (k2, v2)]), k1) == v1,
        member(Json::Object(seq![(k0, v0), (k1, v1), (k2, v2)]), k2) == v2,
{
    let fs = seq![(k0, v0), (k1, v1), (k2, v2)];
    lemma_field_value_at(fs, 0, k0);
    assert(forall|j: int| 0 <= j < 1 ==> fs[j].0 != k1);
    lemma_field_value_at(fs, 1, k1);
    assert forall|j: int| 0 <= j < 2 implies fs[j].0 != k2 by {
        if j == 1 {
            assert(fs[1].0 == k1);
        }
    }
    lemma_field_value_at(fs, 2, k2);
}

/// The members of a four-field object with distinct names.
pub proof fn lemma_members4(
    k0: Seq<char>,
    v0: Json,
    k1: Seq<char>,
    v1: Json,
    k2: Seq<char>,
    v2: Json,
    k3: Seq<char>,
    v3: Json,
)
    requires
        k0 != k1,
        k0 != k2,
        k0 != k3,
        k1 != k2,
        k1 != k3,
        k2 != k3,
    ensures
        member(Json::Object(seq![(k0, v0), (k1, v1), (k2, v2), (k3, v3)]), k0) == v0,
        member(Json::Object(seq![(k0, v0), (k1, v1), (k2, v2), (k3, v3)]), k1) == v1,
        member(Json::Object(seq![(k0, v0), (k1, v1), (k2, v2), (k3, v3)]), k2) == v2,
        member(Json::Object(seq![(k0, v0), (k1, v1), (k2, v2), (k3, v3)]), k3) == v3,
{
    let fs = seq![(k0, v0), (k1, v1), (k2, v2), (k3, v3)];
    lemma_field_value_at(fs, 0, k0);
    assert(forall|j: int| 0 <= j < 1 ==> fs[j].0 != k1);
    lemma_field_value_at(fs, 1, k1);
    assert forall|j: int| 0 <= j < 2 implies fs[j].0 != k2 by {
        if j == 1 {
            assert(fs[1].0 == k1);
        }
    }
    lemma_field_value_at(fs, 2, k2);
    assert forall|j: int| 0 <= j < 3 implies fs[j].0 != k3 by {
        if j == 1 {
            assert(fs[1].0 == k1);
        } else if j == 2 {
            assert(fs[2].0 == k2);
        }
    }
    lemma_field_value_at(fs, 3, k3);
}

/// The member `key` of an object (`Null` when it has none or `j` is no object).
pub open spec fn member(j: Json, key: Seq<char>) -> Json {
    match j {
        Json::Object(fields) => field_value(fields, key),
        _ => Json::Null,
    }
}

/// Element `i` of an array (`Null` when out of range or `j` is no array).
pub open spec fn element(j: Json, i: int) -> Json {
    match j {
        Json::Array(items) => if 0 <= i < items.len() {
            items[i]
        } else {
            Json::Null
        },
        _ => Json::Null,
    }
}

/// The number of elements of an array (0 for anything else).
pub open spec fn length(j: Json) -> nat {
    match j {
        Json::Array(items) => items.len(),
        _ => 0,
    }
}

/// The models of a sequence of documents.
pub open spec fn items_of(items: Seq<JsonValue>) -> Seq<Json> {
    items.map_values(|v: JsonValue| json_of(v))
}

/// The models of a sequence of object fields.
pub open spec fn fields_of(fields: Seq<(String, JsonValue)>) -> Seq<(Seq<char>, Json)> {
    fields.map_values(|f: (String, JsonValue)| (f.0@, json_of(f.1)))
}

pub proof fn lemma_array_of(items: Vec<JsonValue>)
    ensures
        json_of(JsonValue::Array(items)) == Json::Array(items_of(items@)),
{
    let t = json_of(JsonValue::Array(items))->Array_0;
    assert(t.len() == items@.len());
    assert forall|i: int| 0 <= i < t.len() implies #[trigger] t[i] == items_of(items@)[i] by {}
    assert(t =~= items_of(items@));
}

pub proof fn lemma_object_of(fields: Vec<(String, JsonValue)>)
    ensures
        json_of(JsonValue::Object(fields)) == Json::Object(fields_of(fields@)),
{
    let t = json_of(JsonValue::Object(fields))->Object_0;
    assert(t.len() == fields@.len());
    assert forall|i: int| 0 <= i < t.len() implies #[trigger] t[i] == fields_of(fields@)[i] by {}
    assert(t =~= fields_of(fields@));
}

/// A string document.
pub fn json_text(s: &str) -> (r: JsonValue)
    ensures
        json_of(r) == Json::Str(s@),
{
    JsonValue::Str(s.to_string())
}

/// A field of an object.
pub fn field(key: &str, value: JsonValue) -> (r: (String, JsonValue))
    ensures
        r.0@ == key@,
        r.1 == value,
{
    (key.to_string(), value)
}

/// An object with the given fields, in order.
pub fn object(fields: Vec<(String, JsonValue)>) -> (r: JsonValue)
    ensures
        json_of(r) == Json::Object(fields_of(fields@)),
{
    proof {
        lemma_object_of(fields);
    }
    JsonValue::Object(fields)
}

/// An array of the given documents, in order.
pub fn array(items: Vec<JsonValue>) -> (r: JsonValue)
    ensures
        json_of(r) == Json::Array(items_of(items@)),
{
    proof {
        lemma_array_of(items);
    }
    JsonValue::Array(items)
}

/// `{k1: v1}`
pub fn object1(k1: &str, v1: JsonValue) -> (r: JsonValue)
    ensures
        json_of(r) == Json::Object(seq![(k1@, json_of(v1))]),
{
    let ghost g1 = json_of(v1);
    let fs = vec![field(k1, v1)];
    let r = object(fs);
    assert(fields_of(fs@) =~= seq![(k1@, g1)]);
    r
}

/// `{k1: v1, k2: v2}`
pub fn object2(k1: &str, v1: JsonValue, k2: &str, v2: JsonValue) -> (r: JsonValue)
    ensures
        json_of(r) == Json::Object(seq![(k1@, json_of(v1)), (k2@, json_of(v2))]),
{
    let ghost g1 = json_of(v1);
    let ghost g2 = json_of(v2);
    let fs = vec![field(k1, v1), field(k2, v2)];
    let r = object(fs);
    assert(fields_of(fs@) =~= seq![(k1@, g1), (k2@, g2)]);
    r
}

/// `{k1: v1, k2: v2, k3: v3}`
pub fn object3(k1: &str, v1: JsonValue, k2: &str, v2: JsonValue, k3: &str, v3: JsonValue) -> (r:
    JsonValue)
    ensures
        json_of(r) == Json::Object(
            seq![(k1@, json_of(v1)), (k2@, json_of(v2)), (k3@, json_of(v3))],
        ),
{
    let ghost g1 = json_of(v1);
    let ghost g2 = json_of(v2);
    let ghost g3 = json_of(v3);
    let fs = vec![field(k1, v1), field(k2, v2), field(k3, v3)];
    let r = object(fs);
    assert(fields_of(fs@) =~= seq![(k1@, g1), (k2@, g2), (k3@, g3)]);
    r
}

/// `{k1: v1, k2: v2, k3: v3, k4: v4}`
pub fn object4(
    k1: &str,
    v1: JsonValue,
    k2: &str,
    v2: JsonValue,
    k3: &str,
    v3: JsonValue,
    k4: &str,
    v4: JsonValue,
) -> (r: JsonValue)
    ensures
        json_of(r) == Json::Object(
            seq![(k1@, json_of(v1)), (k2@, json_of(v2)), (k3@, json_of(v3)), (k4@, json_of(v4))],
        ),
{
    let ghost g1 = json_of(v1);
    let ghost g2 = json_of(v2);
    let ghost g3 = json_of(v3);
    let ghost g4 = json_of(v4);
    let fs = vec![field(k1, v1), field(k2, v2), field(k3, v3), field(k4, v4)];
    let r = object(fs);
    assert(fields_of(fs@) =~= seq![(k1@, g1), (k2@, g2), (k3@, g3), (k4@, g4)]);
    r
}

/// `[v1]`
pub fn array1(v1: JsonValue) -> (r: JsonValue)
    ensures
        json_of(r) == Json::Array(seq![json_of(v1)]),
{
    let ghost g1 = json_of(v1);
    let vs = vec![v1];
    let r = array(vs);
    assert(items_of(vs@) =~= seq![g1]);
    r
}

/// `[v1, v2]`
pub fn array2(v1: JsonValue, v2: JsonValue) -> (r: JsonValue)
    ensures
        json_of(r) == Json::Array(seq![json_of(v1), json_of(v2)]),
{
    let ghost g1 = json_of(v1);
    let ghost g2 = json_of(v2);
    let vs = vec![v1, v2];
    let r = array(vs);
    assert(items_of(vs@) =~= seq![g1, g2]);
    r
}

/// `[s]`
pub fn text_array1(s: &str) -> (r: JsonValue)
    ensures
        json_of(r) == Json::Array(seq![Json::Str(s@)]),
{
    array1(json_text(s))
}

/// Appends a document to a list of documents.
pub fn push_item(items: &mut Vec<JsonValue>, v: JsonValue)
    ensures
        items_of(final(items)@) == items_of(old(items)@).push(json_of(v)),
{
    let ghost g = json_of(v);
    items.push(v);
    assert(items_of(items@) =~= items_of(old(items)@).push(g));
}

} // verus!
