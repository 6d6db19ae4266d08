use vstd::prelude::*;
use crate::text::str_eq;
use serde_json::Value;

verus! {

/// A JSON number, kept as exactly as the wire gives it.
#[derive(Clone, Debug, PartialEq)]
pub enum JsonNumber {
    /// A non-negative integer that fits in 64 bits.
    Unsigned(u64),
    /// A negative integer that fits in 64 bits.
    Negative(i64),
    /// Any other number, as its JSON text.
    Decimal(String),
}

/// A JSON value. An object is a list of members; a lookup takes the first
/// member with the key asked for. (serde_json hands members over sorted by
/// key, each key once.)
#[derive(Debug)]
pub enum Json {
    Null,
    Bool(bool),
    Number(JsonNumber),
    Str(String),
    Array(Vec<Json>),
    Object(Vec<(String, Json)>),
}

/// The value of the first member of `fields` named `key`.
pub open spec fn lookup(fields: Seq<(String, Json)>, key: Seq<char>) -> Option<Json>
    decreases fields.len(),
{
    if fields.len() == 0 {
        None
    } else if fields[0].0@ == key {
        Some(fields[0].1)
    } else {
        lookup(fields.drop_first(), key)
    }
}

/// `fields` with every member named `key` left out.
pub open spec fn without_key(fields: Seq<(String, Json)>, key: Seq<char>) -> Seq<(String, Json)>
    decreases fields.len(),
{
    if fields.len() == 0 {
        fields
    } else if fields[0].0@ == key {
        without_key(fields.drop_first(), key)
    } else {
        seq![fields[0]] + without_key(fields.drop_first(), key)
    }
}

/// The position of the first member of `fields` named `key`, if any.
pub open spec fn first_position(fields: Seq<(String, Json)>, key: Seq<char>, i: int) -> bool {
    0 <= i < fields.len() && fields[i].0@ == key && forall|j: int| 0 <= j < i ==> fields[j].0@ != key
}

impl Json {
    /// The member `key` of an object; `None` for any other value.
    pub open spec fn field(self, key: Seq<char>) -> Option<Json> {
        match self {
            Json::Object(fields) => lookup(fields@, key),
            _ => None,
        }
    }

    /// The characters of a JSON string; `None` for any other value.
    pub open spec fn string_view(self) -> Option<Seq<char>> {
        match self {
            Json::Str(s) => Some(s@),
            _ => None,
        }
    }
}

/// The member `key` of `j` when it is a JSON string.
pub open spec fn string_field(j: Json, key: Seq<char>) -> Option<String> {
    match j.field(key) {
        Some(Json::Str(s)) => Some(s),
        _ => None,
    }
}

proof fn lemma_lookup_suffix(fields: Seq<(String, Json)>, key: Seq<char>, i: int)
    requires
        0 <= i < fields.len(),
        forall|j: int| 0 <= j < i ==> fields[j].0@ != key,
    ensures
        lookup(fields, key) == lookup(fields.subrange(i, fields.len() as int), key),
    decreases i,
{
    if i > 0 {
        assert(fields.drop_first().subrange(i - 1, fields.len() - 1) =~= fields.subrange(
            i,
            fields.len() as int,
        ));
        lemma_lookup_suffix(fields.drop_first(), key, i - 1);
    } else {
        assert(fields.subrange(0, fields.len() as int) =~= fields);
    }
}

/// The first member named `key` is the one that `lookup` finds.
pub proof fn lemma_lookup_at_first(fields: Seq<(String, Json)>, key: Seq<char>, i: int)
    requires
        first_position(fields, key, i),
    ensures
        lookup(fields, key) == Some(fields[i].1),
{
    lemma_lookup_suffix(fields, key, i);
}

/// Leaving out the members named `k` changes no lookup of another key.
pub proof fn lemma_lookup_without(fields: Seq<(String, Json)>, k: Seq<char>, other: Seq<char>)
    requires
        k != other,
    ensures
        lookup(without_key(fields, k), other) == lookup(fields, other),
    decreases fields.len(),
{
    if fields.len() > 0 {
        lemma_lookup_without(fields.drop_first(), k, other);
        if fields[0].0@ != k {
            let w = seq![fields[0]] + without_key(fields.drop_first(), k);
            assert(w.drop_first() =~= without_key(fields.drop_first(), k));
        }
    }
}

proof fn lemma_lookup_absent(fields: Seq<(String, Json)>, key: Seq<char>)
    requires
        forall|j: int| 0 <= j < fields.len() ==> fields[j].0@ != key,
    ensures
        lookup(fields, key) is None,
    decreases fields.len(),
{
    if fields.len() > 0 {
        lemma_lookup_absent(fields.drop_first(), key);
    }
}

/// Finds the first member of `fields` named `key`.
pub fn find_field(fields: &Vec<(String, Json)>, key: &str) -> (r: Option<usize>)
    ensures
        match r {
            Some(i) => first_position(fields@, key@, i as int) && lookup(fields@, key@) == Some(
                fields@[i as int].1,
            ),
            None => lookup(fields@, key@) is None,
        },
{
    let mut i: usize = 0;
    while i < fields.len()
        invariant
            i <= fields@.len(),
            forall|j: int| 0 <= j < i ==> fields@[j].0@ != key@,
        decreases fields@.len() - i,
    {
        if str_eq(fields[i].0.as_str(), key) {
            proof {
                lemma_lookup_suffix(fields@, key@, i as int);
            }
            return Some(i);
        }
        i = i + 1;
    }
    proof {
        lemma_lookup_absent(fields@, key@);
    }
    None
}

/// Borrows the member `key` of an object when it is a JSON string.
pub fn get_str<'a>(j: &'a Json, key: &str) -> (r: Option<&'a String>)
    ensures
        match r {
            Some(s) => string_field(*j, key@) == Some(*s),
            None => string_field(*j, key@) is None,
        },
{
    match j {
        Json::Object(fields) => match find_field(fields, key) {
            Some(i) => match &fields[i].1 {
                Json::Str(s) => Some(s),
                _ => None,
            },
            None => None,
        },
        _ => None,
    }
}

/// Removes the first member named `key` and returns its value.
pub fn take_field(fields: &mut Vec<(String, Json)>, key: &str) -> (r: Option<Json>)
    ensures
        r == lookup(old(fields)@, key@),
        r is None ==> final(fields)@ == old(fields)@,
        r is Some ==> exists|i: int| #[trigger] first_position(old(fields)@, key@, i)
            && final(fields)@ == old(fields)@.remove(i),
{
    match find_field(fields, key) {
        Some(i) => {
            let (_, v) = fields.remove(i);
            Some(v)
        },
        None => None,
    }
}

/// Leaves out every member named `key`.
pub fn remove_key(fields: Vec<(String, Json)>, key: &str) -> (r: Vec<(String, Json)>)
    ensures
        r@ == without_key(fields@, key@),
{
    let mut rest = fields;
    let mut kept: Vec<(String, Json)> = Vec::new();
    while rest.len() > 0
        invariant
            kept@ + without_key(rest@, key@) == without_key(fields@, key@),
        decreases rest@.len(),
    {
        let ghost before = rest@;
        let member = rest.remove(0);
        assert(rest@ =~= before.drop_first());
        if str_eq(member.0.as_str(), key) {
        } else {
            assert(kept@.push(member) + without_key(rest@, key@) =~= kept@ + (seq![member]
                + without_key(rest@, key@)));
            kept.push(member);
        }
    }
    assert(kept@ + without_key(rest@, key@) =~= kept@);
    kept
}

} // verus!

verus! {

/// serde_json's JSON value, opaque here: it only passes through the two
/// conversions below.
#[verifier::external_type_specification]
#[verifier::external_body]
pub struct ExSerdeValue(serde_json::Value);

/// What serde_json reads from the bytes `b`: `None` when they are not one
/// well-formed JSON document.
pub uninterp spec fn json_of(b: Seq<u8>) -> Option<Json>;

/// The compact JSON text that serde_json writes for `j`.
pub uninterp spec fn json_text_of(j: Json) -> Seq<char>;

/// Moves a `serde_json::Value` into the library's `Json`, variant for
/// variant; numbers keep the 64-bit integer that `Number::as_u64` or
/// `Number::as_i64` reports, any other number its text.
#[verifier::external_body]
fn json_from_serde(v: Value) -> Json {
    match v {
        Value::Null => Json::Null,
        Value::Bool(b) => Json::Bool(b),
        Value::Number(n) => Json::Number(match (n.as_u64(), n.as_i64()) {
            (Some(u), _) => JsonNumber::Unsigned(u),
            (None, Some(i)) => JsonNumber::Negative(i),
            _ => JsonNumber::Decimal(n.to_string()),
        }),
        Value::String(s) => Json::Str(s),
        Value::Array(a) => Json::Array(a.into_iter().map(json_from_serde).collect()),
        Value::Object(m) => Json::Object(
            m.into_iter().map(|(k, x)| (k, json_from_serde(x))).collect(),
        ),
    }
}

/// Moves the library's `Json` into a `serde_json::Value`, variant for
/// variant; a `Decimal` is read back with `Number`'s `FromStr`, and text
/// that is no JSON number becomes null.
#[verifier::external_body]
fn json_to_serde(j: &Json) -> Value {
    match j {
        Json::Null => Value::Null,
        Json::Bool(b) => Value::Bool(*b),
        Json::Number(JsonNumber::Unsigned(u)) => Value::from(*u),
        Json::Number(JsonNumber::Negative(i)) => Value::from(*i),
        Json::Number(JsonNumber::Decimal(t)) => t.parse::<serde_json::Number>().map_or(
            Value::Null, Value::Number),
        Json::Str(s) => Value::String(s.clone()),
        Json::Array(a) => Value::Array(a.iter().map(json_to_serde).collect()),
        Json::Object(f) => Value::Object(
            f.iter().map(|(k, x)| (k.clone(), json_to_serde(x))).collect(),
        ),
    }
}

/// Relies on `serde_json::from_slice` into a `serde_json::Value`: the outcome
/// depends on the bytes alone.
#[verifier::external_body]
pub fn decode_json(b: &[u8]) -> (r: Option<Json>)
    ensures
        r == json_of(b@),
{
    serde_json::from_slice::<serde_json::Value>(b).ok().map(json_from_serde)
}

/// Relies on the `Display` of `serde_json::Value`, which writes compact JSON
/// text and depends on the value alone.
#[verifier::external_body]
pub fn encode_json(j: &Json) -> (r: String)
    ensures
        r@ == json_text_of(*j),
{
    json_to_serde(j).to_string()
}

} // verus!
