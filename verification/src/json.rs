//! An owned JSON document tree and its mathematical model.
//!
//! The remote service speaks JSON; the dispatcher only ever reads a handful
//! of envelope fields and builds small payload objects.  `JsonValue` holds
//! such documents as plain values (numbers, strings, arrays, objects), and
//! `Json` is the spec-level model that every contract in this crate speaks
//! of.  Floating-point numbers are not representable here; the envelope
//! fields the dispatcher inspects are strings and integers, and a number
//! that is not an integer coerces to the same defaults as any other
//! non-integer field.

use vstd::prelude::*;
use vstd::string::StringExecFns;

verus! {

/// Spec-level model of a JSON document: integers are unbounded, strings are
/// character sequences, and an object is the sequence of its entries in
/// order (a key may in principle repeat; lookup takes the first match).
#[verifier::ext_equal]
pub enum Json {
    JNull,
    JBool(bool),
    JInt(int),
    JStr(Seq<char>),
    JArr(Seq<Json>),
    JObj(Seq<(Seq<char>, Json)>),
}

/// An owned JSON document.  Integers keep the signed/unsigned split that
/// the wire values arrive with; the model collapses both into `Json::JInt`.
#[derive(Debug, PartialEq, Eq)]
pub enum JsonValue {
    Null,
    Bool(bool),
    Int(i64),
    UInt(u64),
    Str(String),
    Array(Vec<JsonValue>),
    Object(Vec<(String, JsonValue)>),
}

impl JsonValue {
    /// The mathematical document this value holds.
    pub open spec fn model(self) -> Json
        decreases self,
    {
        match self {
            JsonValue::Null => Json::JNull,
            JsonValue::Bool(b) => Json::JBool(b),
            JsonValue::Int(i) => Json::JInt(i as int),
            JsonValue::UInt(u) => Json::JInt(u as int),
            JsonValue::Str(s) => Json::JStr(s@),
            JsonValue::Array(items) => Json::JArr(model_seq(items@)),
            JsonValue::Object(fields) => Json::JObj(model_entries(fields@)),
        }
    }
}

/// The models of a sequence of documents, in order.
pub open spec fn model_seq(items: Seq<JsonValue>) -> Seq<Json>
    decreases items,
{
    if items.len() == 0 {
        Seq::empty()
    } else {
        seq![items[0].model()] + model_seq(items.drop_first())
    }
}

/// The models of a sequence of object entries, in order.
pub open spec fn model_entries(fields: Seq<(String, JsonValue)>) -> Seq<(Seq<char>, Json)>
    decreases fields,
{
    if fields.len() == 0 {
        Seq::empty()
    } else {
        seq![(fields[0].0@, fields[0].1.model())] + model_entries(fields.drop_first())
    }
}

impl View for JsonValue {
    type V = Json;

    open spec fn view(&self) -> Json {
        self.model()
    }
}

/// The model of a sequence of documents is the sequence of their models.
pub proof fn lemma_model_seq_index(items: Seq<JsonValue>)
    ensures
        model_seq(items).len() == items.len(),
        forall|i: int|
            0 <= i < items.len() ==> #[trigger] model_seq(items)[i] == items[i].model(),
    decreases items.len(),
{
    if items.len() > 0 {
        lemma_model_seq_index(items.drop_first());
    }
}

/// The model of a sequence of object entries is the sequence of entry models.
pub proof fn lemma_model_entries_index(fields: Seq<(String, JsonValue)>)
    ensures
        model_entries(fields).len() == fields.len(),
        forall|i: int|
            0 <= i < fields.len() ==> #[trigger] model_entries(fields)[i] == (
                fields[i].0@,
                fields[i].1.model(),
            ),
    decreases fields.len(),
{
    if fields.len() > 0 {
        lemma_model_entries_index(fields.drop_first());
    }
}

/// First-match lookup among the entries of an object.
pub open spec fn obj_get(entries: Seq<(Seq<char>, Json)>, key: Seq<char>) -> Option<Json>
    decreases entries.len(),
{
    if entries.len() == 0 {
        None
    } else if entries[0].0 == key {
        Some(entries[0].1)
    } else {
        obj_get(entries.drop_first(), key)
    }
}

/// Whether `j` is an object carrying an entry named `key`.
pub open spec fn has_field(j: Json, key: Seq<char>) -> bool {
    j matches Json::JObj(entries) && obj_get(entries, key) is Some
}

/// The value of the entry named `key`, coerced to null when `j` is not an
/// object or the entry is absent.  This mirrors how the dispatcher reads
/// the response envelope: a missing field never faults, it defaults.
pub open spec fn field_of(j: Json, key: Seq<char>) -> Json {
    match j {
        Json::JObj(entries) => match obj_get(entries, key) {
            Some(v) => v,
            None => Json::JNull,
        },
        _ => Json::JNull,
    }
}

/// An integer field coerced to zero when absent, non-numeric, or outside
/// the signed 64-bit range.
pub open spec fn int_or_zero(j: Json) -> int {
    match j {
        Json::JInt(n) => if i64::MIN <= n <= i64::MAX {
            n
        } else {
            0
        },
        _ => 0,
    }
}

/// Character-by-character string equality, proved against the string views.
pub fn str_eq(a: &str, b: &str) -> (r: bool)
    ensures
        r == (a@ == b@),
{
    let a_len = a.unicode_len();
    let b_len = b.unicode_len();
    if a_len != b_len {
        return false;
    }
    let mut i: usize = 0;
    while i < a_len
        invariant
            a_len == a@.len(),
            a@.len() == b@.len(),
            i <= a_len,
            forall|j: int| 0 <= j < i ==> a@[j] == b@[j],
        decreases a_len - i,
    {
        if a.get_char(i) != b.get_char(i) {
            return false;
        }
        i += 1;
    }
    proof {
        assert(a@ =~= b@);
    }
    true
}

impl JsonValue {
    /// Looks up a field of an object by key, first match first; yields
    /// nothing on a non-object and on an absent key.
    pub fn get<'a>(&'a self, key: &str) -> (r: Option<&'a JsonValue>)
        ensures
            match r {
                Some(v) => has_field(self@, key@) && v@ == field_of(self@, key@),
                None => !has_field(self@, key@),
            },
    {
        match self {
            JsonValue::Object(fields) => {
                proof {
                    lemma_model_entries_index(fields@);
                }
                let ghost entries = model_entries(fields@);
                proof {
                    assert(entries.skip(0) =~= entries);
                }
                let mut i: usize = 0;
                while i < fields.len()
                    invariant
                        *self == JsonValue::Object(*fields),
                        self@ == Json::JObj(entries),
                        i <= fields.len(),
                        entries == model_entries(fields@),
                        entries.len() == fields@.len(),
                        forall|j: int|
                            0 <= j < fields@.len() ==> #[trigger] entries[j] == (
                                fields@[j].0@,
                                fields@[j].1.model(),
                            ),
                        obj_get(entries, key@) == obj_get(entries.skip(i as int), key@),
                    decreases fields.len() - i,
                {
                    if str_eq(fields[i].0.as_str(), key) {
                        proof {
                            assert(entries.skip(i as int)[0] == entries[i as int]);
                            assert(obj_get(entries, key@) == Some(entries[i as int].1));
                        }
                        return Some(&fields[i].1);
                    }
                    proof {
                        assert(entries.skip(i as int).drop_first() =~= entries.skip(i as int + 1));
                    }
                    i += 1;
                }
                proof {
                    assert(entries.skip(fields@.len() as int) =~= Seq::empty());
                }
                None
            },
            _ => None,
        }
    }
}

/// A string document from a string slice.
pub fn jstr(s: &str) -> (r: JsonValue)
    ensures
        r@ == Json::JStr(s@),
{
    JsonValue::Str(String::from_str(s))
}

/// An object document of one entry.
pub fn obj1(k1: &str, v1: JsonValue) -> (r: JsonValue)
    ensures
        r@ == Json::JObj(seq![(k1@, v1@)]),
{
    let mut fields: Vec<(String, JsonValue)> = Vec::new();
    fields.push((String::from_str(k1), v1));
    proof {
        lemma_model_entries_index(fields@);
        assert(model_entries(fields@) =~= seq![(k1@, v1@)]);
    }
    JsonValue::Object(fields)
}

/// An object document of two entries, in order.
pub fn obj2(k1: &str, v1: JsonValue, k2: &str, v2: JsonValue) -> (r: JsonValue)
    ensures
        r@ == Json::JObj(seq![(k1@, v1@), (k2@, v2@)]),
{
    let mut fields: Vec<(String, JsonValue)> = Vec::new();
    fields.push((String::from_str(k1), v1));
    fields.push((String::from_str(k2), v2));
    proof {
        lemma_model_entries_index(fields@);
        assert(model_entries(fields@) =~= seq![(k1@, v1@), (k2@, v2@)]);
    }
    JsonValue::Object(fields)
}

/// An object document of three entries, in order.
pub fn obj3(k1: &str, v1: JsonValue, k2: &str, v2: JsonValue, k3: &str, v3: JsonValue) -> (r:
    JsonValue)
    ensures
        r@ == Json::JObj(seq![(k1@, v1@), (k2@, v2@), (k3@, v3@)]),
{
    let mut fields: Vec<(String, JsonValue)> = Vec::new();
    fields.push((String::from_str(k1), v1));
    fields.push((String::from_str(k2), v2));
    fields.push((String::from_str(k3), v3));
    proof {
        lemma_model_entries_index(fields@);
        assert(model_entries(fields@) =~= seq![(k1@, v1@), (k2@, v2@), (k3@, v3@)]);
    }
    JsonValue::Object(fields)
}

/// An array document of unsigned integers, in order.
pub fn juint_array(ids: &Vec<&u64>) -> (r: JsonValue)
    ensures
        r@ == Json::JArr(Seq::new(ids@.len(), |i: int| Json::JInt(ids@[i] as int))),
{
    let mut items: Vec<JsonValue> = Vec::new();
    let mut i: usize = 0;
    while i < ids.len()
        invariant
            i <= ids.len(),
            items@.len() == i,
            forall|j: int| 0 <= j < i ==> #[trigger] items@[j]@ == Json::JInt(ids@[j] as int),
        decreases ids.len() - i,
    {
        items.push(JsonValue::UInt(*ids[i]));
        i += 1;
    }
    proof {
        lemma_model_seq_index(items@);
        assert forall|k: int| 0 <= k < items@.len() implies model_seq(items@)[k] == Json::JInt(
            ids@[k] as int,
        ) by {
            assert(items@[k]@ == Json::JInt(ids@[k] as int));
        }
        assert(model_seq(items@) =~= Seq::new(ids@.len(), |i: int| Json::JInt(ids@[i] as int)));
    }
    JsonValue::Array(items)
}

impl Clone for JsonValue {
    /// A deep copy with the same model as the value it copies.
    fn clone(&self) -> (res: Self)
        ensures
            res@ == self@,
        decreases self,
    {
        match self {
            JsonValue::Null => JsonValue::Null,
            JsonValue::Bool(b) => JsonValue::Bool(*b),
            JsonValue::Int(i) => JsonValue::Int(*i),
            JsonValue::UInt(u) => JsonValue::UInt(*u),
            JsonValue::Str(s) => JsonValue::Str(s.clone()),
            JsonValue::Array(items) => {
                let mut out: Vec<JsonValue> = Vec::new();
                let mut i: usize = 0;
                while i < items.len()
                    invariant
                        *self == JsonValue::Array(*items),
                        i <= items.len(),
                        out@.len() == i,
                        forall|j: int| 0 <= j < i ==> #[trigger] out@[j]@ == items@[j]@,
                    decreases items.len() - i,
                {
                    proof {
                        assert(decreases_to!(*self => self->Array_0));
                        assert(decreases_to!(*items => items@[i as int]));
                    }
                    let c = items[i].clone();
                    out.push(c);
                    i += 1;
                }
                proof {
                    lemma_model_seq_index(out@);
                    lemma_model_seq_index(items@);
                    assert forall|k: int| 0 <= k < out@.len() implies model_seq(out@)[k]
                        == model_seq(items@)[k] by {
                        assert(out@[k]@ == items@[k]@);
                    }
                    assert(model_seq(out@) =~= model_seq(items@));
                }
                JsonValue::Array(out)
            },
            JsonValue::Object(fields) => {
                let mut out: Vec<(String, JsonValue)> = Vec::new();
                let mut i: usize = 0;
                while i < fields.len()
                    invariant
                        *self == JsonValue::Object(*fields),
                        i <= fields.len(),
                        out@.len() == i,
                        forall|j: int|
                            0 <= j < i ==> ((#[trigger] out@[j]).0@ == fields@[j].0@ && out@[j].1@
                                == fields@[j].1@),
                    decreases fields.len() - i,
                {
                    proof {
                        assert(decreases_to!(*self => self->Object_0));
                        assert(decreases_to!(*fields => fields@[i as int].1));
                    }
                    let k = fields[i].0.clone();
                    let v = fields[i].1.clone();
                    out.push((k, v));
                    i += 1;
                }
                proof {
                    lemma_model_entries_index(out@);
                    lemma_model_entries_index(fields@);
                    assert forall|k: int| 0 <= k < out@.len() implies model_entries(out@)[k]
                        == model_entries(fields@)[k] by {
                        assert(out@[k].0@ == fields@[k].0@ && out@[k].1@ == fields@[k].1@);
                    }
                    assert(model_entries(out@) =~= model_entries(fields@));
                }
                JsonValue::Object(out)
            },
        }
    }
}

} // verus!
