//! A plain model of JSON values, as the request and response bodies of the
//! Photos APIs and of JSON-RPC carry them.

use vstd::prelude::*;
use crate::text::str_eq;

verus! {

/// A JSON number, kept apart by the forms in which it is read.
#[derive(Debug, PartialEq)]
pub enum JsonNumber {
    /// A non-negative integer.
    PosInt(u64),
    /// A negative integer.
    NegInt(i64),
    /// Any other number, by its decimal text.
    Float(String),
}

/// A member of a JSON object.
#[derive(Debug, PartialEq)]
pub struct JsonField {
    pub key: String,
    pub value: Json,
}

/// A JSON value. An object lists its members; where a key occurs twice,
/// the first member is the one that is read.
#[derive(Debug, PartialEq)]
pub enum Json {
    Null,
    Bool(bool),
    Number(JsonNumber),
    Str(String),
    Array(Vec<Json>),
    Object(Vec<JsonField>),
}

/// The value of the first member with the given key.
pub open spec fn lookup(fields: Seq<JsonField>, key: Seq<char>) -> Option<Json>
    decreases fields.len(),
{
    if fields.len() == 0 {
        None
    } else if fields[0].key@ == key {
        Some(fields[0].value)
    } else {
        lookup(fields.drop_first(), key)
    }
}

/// What `Value::get(key)` gives: the member of an object, nothing on other values.
pub open spec fn spec_get(v: Json, key: Seq<char>) -> Option<Json> {
    match v {
        Json::Object(fields) => lookup(fields@, key),
        _ => None,
    }
}

/// The text of a JSON string, if the value is one.
pub open spec fn spec_as_str(v: Option<Json>) -> Option<Seq<char>> {
    match v {
        Some(Json::Str(s)) => Some(s@),
        _ => None,
    }
}

/// The value of a non-negative JSON integer, if the value is one.
pub open spec fn spec_as_u64(v: Option<Json>) -> Option<u64> {
    match v {
        Some(Json::Number(JsonNumber::PosInt(n))) => Some(n),
        _ => None,
    }
}

/// A value is an object whose members other than `keys` read nothing.
pub open spec fn only_keys(v: Json, keys: Seq<Seq<char>>) -> bool {
    &&& v is Object
    &&& forall|k: Seq<char>| !keys.contains(k) ==> (#[trigger] spec_get(v, k)) is None
}

/// The JSON string of a text.
pub open spec fn is_text(v: Option<Json>, s: Seq<char>) -> bool {
    spec_as_str(v) == Some(s)
}

/// The JSON array of one string.
pub open spec fn is_text_list(v: Option<Json>, s: Seq<char>) -> bool {
    v matches Some(Json::Array(a)) && (a@.len() == 1 && (a@[0] matches Json::Str(t) && t@ == s))
}

/// A list of JSON values that are the given strings.
pub open spec fn are_texts(a: Seq<Json>, texts: Seq<Seq<char>>) -> bool {
    &&& a.len() == texts.len()
    &&& forall|i: int| 0 <= i < a.len() ==> (#[trigger] a[i] matches Json::Str(t) && t@ == texts[i])
}

proof fn lemma_lookup_skip(s: Seq<JsonField>, key: Seq<char>, i: int)
    requires
        0 <= i <= s.len(),
        forall|j: int| 0 <= j < i ==> (#[trigger] s[j]).key@ != key,
    ensures
        lookup(s, key) == lookup(s.skip(i), key),
    decreases i,
{
    if i > 0 {
        assert(s[0].key@ != key);
        lemma_lookup_skip(s.drop_first(), key, i - 1);
        assert(s.drop_first().skip(i - 1) =~= s.skip(i));
    } else {
        assert(s.skip(0) =~= s);
    }
}

proof fn lemma_lookup_at(s: Seq<JsonField>, key: Seq<char>, i: int)
    requires
        0 <= i < s.len(),
        s[i].key@ == key,
        forall|j: int| 0 <= j < i ==> (#[trigger] s[j]).key@ != key,
    ensures
        lookup(s, key) == Some(s[i].value),
{
    lemma_lookup_skip(s, key, i);
}

proof fn lemma_lookup_none(s: Seq<JsonField>, key: Seq<char>)
    requires
        forall|j: int| 0 <= j < s.len() ==> (#[trigger] s[j]).key@ != key,
    ensures
        lookup(s, key) is None,
{
    lemma_lookup_skip(s, key, s.len() as int);
}

/// Changing a member whose key differs from `key`, keeping its key apart
/// from `key`, leaves what `key` finds as it was.
proof fn lemma_lookup_update_other(s: Seq<JsonField>, i: int, f: JsonField, key: Seq<char>)
    requires
        0 <= i < s.len(),
        s[i].key@ != key,
        f.key@ != key,
    ensures
        lookup(s.update(i, f), key) == lookup(s, key),
    decreases i,
{
    if i > 0 {
        lemma_lookup_update_other(s.drop_first(), i - 1, f, key);
        assert(s.update(i, f).drop_first() =~= s.drop_first().update(i - 1, f));
    } else {
        assert(s.update(0, f).drop_first() =~= s.drop_first());
    }
}

proof fn lemma_lookup_remove_other(s: Seq<JsonField>, i: int, key: Seq<char>)
    requires
        0 <= i < s.len(),
        s[i].key@ != key,
    ensures
        lookup(s.remove(i), key) == lookup(s, key),
    decreases i,
{
    if i > 0 {
        lemma_lookup_remove_other(s.drop_first(), i - 1, key);
        assert(s.remove(i).drop_first() =~= s.drop_first().remove(i - 1));
    } else {
        assert(s.remove(0) =~= s.drop_first());
    }
}

proof fn lemma_lookup_push(s: Seq<JsonField>, f: JsonField, key: Seq<char>)
    ensures
        lookup(s.push(f), key) == (if lookup(s, key) is Some {
            lookup(s, key)
        } else if f.key@ == key {
            Some(f.value)
        } else {
            None
        }),
    decreases s.len(),
{
    if s.len() > 0 {
        lemma_lookup_push(s.drop_first(), f, key);
        assert(s.push(f).drop_first() =~= s.drop_first().push(f));
    } else {
        assert(s.push(f).drop_first() =~= s);
    }
}

/// The index of the first member with the given key.
fn find_field(fields: &Vec<JsonField>, key: &str) -> (r: Option<usize>)
    ensures
        match r {
            Some(i) => {
                &&& i < fields@.len()
                &&& fields@[i as int].key@ == key@
                &&& forall|j: int| 0 <= j < i ==> (#[trigger] fields@[j]).key@ != key@
            },
            None => forall|j: int| 0 <= j < fields@.len() ==> (#[trigger] fields@[j]).key@ != key@,
        },
{
    let mut i: usize = 0;
    while i < fields.len()
        invariant
            i <= fields@.len(),
            forall|j: int| 0 <= j < i ==> (#[trigger] fields@[j]).key@ != key@,
        decreases fields@.len() - i,
    {
        if str_eq(fields[i].key.as_str(), key) {
            return Some(i);
        }
        i = i + 1;
    }
    None
}

impl Json {
    /// An empty object.
    pub fn empty_object() -> (r: Json)
        ensures
            r is Object,
            forall|k: Seq<char>| spec_get(r, k) is None,
    {
        let v: Vec<JsonField> = Vec::new();
        Json::Object(v)
    }

    /// An object with one member.
    pub fn object1(key: &str, value: Json) -> (r: Json)
        ensures
            spec_get(r, key@) == Some(value),
            only_keys(r, seq![key@]),
    {
        let r = Json::empty_object().with(key, value);
        assert forall|k: Seq<char>| !seq![key@].contains(k) implies (#[trigger] spec_get(r, k)) is None by {
            assert(k != seq![key@][0]);
        }
        r
    }

    /// A JSON array of the given strings.
    pub fn text_array(items: &Vec<&str>) -> (r: Json)
        ensures
            r matches Json::Array(a) && are_texts(a@, items.deep_view()),
    {
        let mut a: Vec<Json> = Vec::new();
        let mut i: usize = 0;
        while i < items.len()
            invariant
                i <= items@.len(),
                a@.len() == i,
                forall|j: int| 0 <= j < i ==> (#[trigger] a@[j] matches Json::Str(t) && t@ == items@[j]@),
            decreases items@.len() - i,
        {
            a.push(Json::from_str(items[i]));
            i = i + 1;
        }
        let r = Json::Array(a);
        assert(are_texts(a@, items.deep_view()));
        r
    }

    /// A JSON string.
    pub fn from_str(s: &str) -> (r: Json)
        ensures
            r matches Json::Str(t) && t@ == s@,
    {
        Json::Str(String::from_str(s))
    }

    /// A non-negative JSON integer.
    pub fn from_u64(n: u64) -> (r: Json)
        ensures
            r == Json::Number(JsonNumber::PosInt(n)),
    {
        Json::Number(JsonNumber::PosInt(n))
    }

    /// The member of an object with the given key (`Value::get`).
    pub fn get(&self, key: &str) -> (r: Option<&Json>)
        ensures
            match r {
                Some(v) => spec_get(*self, key@) == Some(*v),
                None => spec_get(*self, key@) is None,
            },
    {
        match self {
            Json::Object(fields) => {
                match find_field(fields, key) {
                    Some(i) => {
                        proof {
                            lemma_lookup_at(fields@, key@, i as int);
                        }
                        Some(&fields[i].value)
                    },
                    None => {
                        proof {
                            lemma_lookup_none(fields@, key@);
                        }
                        None
                    },
                }
            },
            _ => None,
        }
    }

    /// The text of the member with the given key, if it is a string
    /// (`value.get(key).and_then(Value::as_str)`).
    pub fn get_str(&self, key: &str) -> (r: Option<String>)
        ensures
            match r {
                Some(s) => spec_as_str(spec_get(*self, key@)) == Some(s@),
                None => spec_as_str(spec_get(*self, key@)) is None,
            },
    {
        match self.get(key) {
            Some(Json::Str(s)) => Some(s.clone()),
            _ => None,
        }
    }

    /// The member with the given key, if it is a non-negative integer
    /// (`value.get(key).and_then(Value::as_u64)`).
    pub fn get_u64(&self, key: &str) -> (r: Option<u64>)
        ensures
            r == spec_as_u64(spec_get(*self, key@)),
    {
        match self.get(key) {
            Some(Json::Number(JsonNumber::PosInt(n))) => Some(*n),
            _ => None,
        }
    }

    /// Takes the member with the given key out of an object; other keys
    /// read as before.
    pub fn take(self, key: &str) -> (r: (Json, Option<Json>))
        ensures
            r.1 == spec_get(self, key@),
            forall|k: Seq<char>| k != key@ ==> spec_get(r.0, k) == spec_get(self, k),
    {
        match self {
            Json::Object(mut fields) => {
                match find_field(&fields, key) {
                    Some(i) => {
                        let ghost before = fields@;
                        proof {
                            lemma_lookup_at(before, key@, i as int);
                        }
                        let f = fields.remove(i);
                        proof {
                            assert forall|k: Seq<char>| k != key@ implies lookup(fields@, k) == lookup(
                                before,
                                k,
                            ) by {
                                lemma_lookup_remove_other(before, i as int, k);
                            }
                        }
                        (Json::Object(fields), Some(f.value))
                    },
                    None => {
                        proof {
                            lemma_lookup_none(fields@, key@);
                        }
                        (Json::Object(fields), None)
                    },
                }
            },
            other => (other, None),
        }
    }

    /// Sets the member `key` of an object to `value` (`value[key] = ..`
    /// in `serde_json`): afterwards `key` reads `value` and every other key
    /// reads as before. A value that is no object is left as it is.
    pub fn with(self, key: &str, value: Json) -> (r: Json)
        ensures
            self is Object ==> spec_get(r, key@) == Some(value),
            self is Object ==> r is Object,
            !(self is Object) ==> r == self,
            forall|k: Seq<char>| k != key@ ==> spec_get(r, k) == spec_get(self, k),
    {
        match self {
            Json::Object(mut fields) => {
                let ghost before = fields@;
                let field = JsonField { key: String::from_str(key), value };
                match find_field(&fields, key) {
                    Some(i) => {
                        let _old = fields.remove(i);
                        fields.insert(i, field);
                        proof {
                            assert(fields@ =~= before.update(i as int, field));
                            lemma_lookup_at(fields@, key@, i as int);
                            assert forall|k: Seq<char>| k != key@ implies lookup(fields@, k) == lookup(
                                before,
                                k,
                            ) by {
                                lemma_lookup_update_other(before, i as int, field, k);
                            }
                        }
                    },
                    None => {
                        fields.push(field);
                        proof {
                            lemma_lookup_none(before, key@);
                            assert forall|k: Seq<char>| #![auto] lookup(fields@, k) == (if lookup(
                                before,
                                k,
                            ) is Some {
                                lookup(before, k)
                            } else if field.key@ == k {
                                Some(field.value)
                            } else {
                                None
                            }) by {
                                lemma_lookup_push(before, field, k);
                            }
                        }
                    },
                }
                Json::Object(fields)
            },
            other => other,
        }
    }
}

} // verus!
