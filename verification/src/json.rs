//! JSON documents: the mathematical value that a document is, the values that
//! the library builds for request bodies, and the parsed documents of
//! `serde_json`, which are read through a few trusted accessors.

use vstd::prelude::*;

verus! {

/// A JSON document as a mathematical value.
pub enum Json {
    Null,
    Bool(bool),
    Unsigned(u64),
    Signed(i64),
    Float32(u32),
    Float64(u64),
    Text(Seq<char>),
    Array(Seq<Json>),
    Object(Seq<(Seq<char>, Json)>),
}

impl Json {
    /// The member of an object under `key`, or `Null` where there is none.
    pub open spec fn member(self, key: Seq<char>) -> Json {
        match self {
            Json::Object(fields) => match first_under(fields, key) {
                Some(value) => value,
                None => Json::Null,
            },
            _ => Json::Null,
        }
    }

    /// The element of an array at `index`, or `Null` where there is none.
    pub open spec fn element(self, index: int) -> Json {
        match self {
            Json::Array(items) => if 0 <= index < items.len() {
                items[index]
            } else {
                Json::Null
            },
            _ => Json::Null,
        }
    }

    /// The text of a string value.
    pub open spec fn as_text(self) -> Option<Seq<char>> {
        match self {
            Json::Text(s) => Some(s),
            _ => None,
        }
    }
}

/// A JSON document held by the library.
#[derive(Debug)]
pub enum JsonValue {
    Null,
    Bool(bool),
    Unsigned(u64),
    Float32(u32),
    Text(String),
    Array(Vec<JsonValue>),
    Object(Vec<JsonField>),
}

/// One member of a JSON object.
#[derive(Debug)]
pub struct JsonField {
    pub name: String,
    pub value: JsonValue,
}

/// The document that a value stands for.
pub open spec fn model_of(value: JsonValue) -> Json
    decreases value,
{
    match value {
        JsonValue::Null => Json::Null,
        JsonValue::Bool(b) => Json::Bool(b),
        JsonValue::Unsigned(n) => Json::Unsigned(n),
        JsonValue::Float32(bits) => Json::Float32(bits),
        JsonValue::Text(s) => Json::Text(s@),
        JsonValue::Array(items) => Json::Array(
            Seq::new(
                items@.len(),
                |i: int|
                    if 0 <= i < items@.len() {
                        model_of(items@[i])
                    } else {
                        Json::Null
                    },
            ),
        ),
        JsonValue::Object(fields) => Json::Object(
            Seq::new(
                fields@.len(),
                |i: int|
                    if 0 <= i < fields@.len() {
                        (fields@[i].name@, model_of(fields@[i].value))
                    } else {
                        (Seq::empty(), Json::Null)
                    },
            ),
        ),
    }
}

impl View for JsonValue {
    type V = Json;

    open spec fn view(&self) -> Json {
        model_of(*self)
    }
}

/// The documents that a list of values stands for.
pub open spec fn items_model(items: Seq<JsonValue>) -> Seq<Json> {
    Seq::new(items.len(), |i: int| items[i]@)
}

/// The members that a list of fields stands for.
pub open spec fn fields_model(fields: Seq<JsonField>) -> Seq<(Seq<char>, Json)> {
    Seq::new(fields.len(), |i: int| (fields[i].name@, fields[i].value@))
}

/// Whether one of the members stands under `key`.
pub open spec fn holds_key(fields: Seq<(Seq<char>, Json)>, key: Seq<char>) -> bool {
    exists|i: int| 0 <= i < fields.len() && (#[trigger] fields[i]).0 == key
}

impl Json {
    /// Whether an object has a member under `key`.
    pub open spec fn has_key(self, key: Seq<char>) -> bool {
        match self {
            Json::Object(fields) => holds_key(fields, key),
            _ => false,
        }
    }
}

/// Members put one behind the other hold a key where either part holds it.
pub proof fn lemma_holds_key_add(
    a: Seq<(Seq<char>, Json)>,
    b: Seq<(Seq<char>, Json)>,
    key: Seq<char>,
)
    ensures
        holds_key(a + b, key) == (holds_key(a, key) || holds_key(b, key)),
{
    let both = a + b;
    if holds_key(a, key) {
        let i = choose|i: int| 0 <= i < a.len() && (#[trigger] a[i]).0 == key;
        assert(both[i] == a[i]);
    }
    if holds_key(b, key) {
        let i = choose|i: int| 0 <= i < b.len() && (#[trigger] b[i]).0 == key;
        assert(both[a.len() + i] == b[i]);
    }
    if holds_key(both, key) {
        let i = choose|i: int| 0 <= i < both.len() && (#[trigger] both[i]).0 == key;
        if i < a.len() {
            assert(a[i] == both[i]);
        } else {
            assert(b[i - a.len()] == both[i]);
        }
    }
}

impl JsonValue {
    /// A string value.
    pub fn text(s: &str) -> (value: JsonValue)
        ensures
            value@ == Json::Text(s@),
    {
        JsonValue::Text(s.to_owned())
    }

    /// An array of the given items, in their order.
    pub fn array(items: Vec<JsonValue>) -> (value: JsonValue)
        ensures
            value@ == Json::Array(items_model(items@)),
    {
        let value = JsonValue::Array(items);
        proof {
            reveal_with_fuel(model_of, 2);
            assert(value@->Array_0 =~= items_model(items@));
        }
        value
    }

    /// An object of the given fields, in their order.
    pub fn object(fields: Vec<JsonField>) -> (value: JsonValue)
        ensures
            value@ == Json::Object(fields_model(fields@)),
    {
        let value = JsonValue::Object(fields);
        proof {
            reveal_with_fuel(model_of, 2);
            assert(value@->Object_0 =~= fields_model(fields@));
        }
        value
    }
}

/// The first of the members that stands under `key`, if one does.
pub open spec fn first_under(fields: Seq<(Seq<char>, Json)>, key: Seq<char>) -> Option<Json>
    decreases fields.len(),
{
    if fields.len() == 0 {
        None
    } else if fields[0].0 == key {
        Some(fields[0].1)
    } else {
        first_under(fields.drop_first(), key)
    }
}

impl JsonValue {
    /// The member of an object under `key`: the first, should the object have
    /// several. `None` for an object without such a member, and for a value
    /// that is no object.
    pub fn get(&self, key: &str) -> (found: Option<&JsonValue>)
        ensures
            match found {
                Some(value) => self@ matches Json::Object(fields) && first_under(fields, key@)
                    == Some(value@),
                None => self@ matches Json::Object(fields) ==> first_under(fields, key@) is None,
            },
    {
        match self {
            JsonValue::Object(fields) => {
                proof {
                    reveal_with_fuel(model_of, 2);
                    assert(self@->Object_0 =~= fields_model(fields@));
                }
                let n: usize = fields.len();
                let mut i: usize = 0;
                let ghost all = fields_model(fields@);
                proof {
                    assert(all.skip(0) =~= all);
                }
                while i < n
                    invariant
                        n == fields@.len(),
                        i <= n,
                        all == fields_model(fields@),
                        self@ == Json::Object(all),
                        first_under(all, key@) == first_under(all.skip(i as int), key@),
                    decreases n - i,
                {
                    proof {
                        let rest = all.skip(i as int);
                        assert(rest[0] == all[i as int]);
                        assert(rest.drop_first() =~= all.skip(i + 1));
                    }
                    if crate::text::same_text(fields[i].name.as_str(), key) {
                        proof {
                            assert(first_under(all.skip(i as int), key@) == Some(
                                fields@[i as int].value@,
                            ));
                        }
                        return Some(&fields[i].value);
                    }
                    i = i + 1;
                }
                None
            },
            _ => None,
        }
    }
}

/// Adds an item at the end of a list of values.
pub fn push_item(items: &mut Vec<JsonValue>, value: JsonValue)
    ensures
        items_model(final(items)@) == items_model(old(items)@).push(value@),
{
    items.push(value);
    proof {
        assert(items_model(items@) =~= items_model(old(items)@).push(value@));
    }
}

/// Adds a member at the end of a list of fields.
pub fn push_field(fields: &mut Vec<JsonField>, name: &str, value: JsonValue)
    ensures
        fields_model(final(fields)@) == fields_model(old(fields)@).push((name@, value@)),
{
    fields.push(JsonField { name: name.to_owned(), value });
    proof {
        assert(fields_model(fields@) =~= fields_model(old(fields)@).push((name@, value@)));
    }
}

#[verifier::external_type_specification]
#[verifier::external_body]
pub struct ExValue(serde_json::Value);

#[verifier::external_type_specification]
#[verifier::external_body]
pub struct ExJsonError(serde_json::Error);

/// What a parsed document holds.
pub uninterp spec fn json_of(value: serde_json::Value) -> Json;

/// The document that a text parses to, if it is JSON.
pub uninterp spec fn json_parse(text: Seq<char>) -> Option<Json>;

/// `serde_json::from_str` at type `serde_json::Value`.
#[verifier::external_body]
pub(crate) fn parse_value(text: &str) -> (r: Result<serde_json::Value, serde_json::Error>)
    ensures
        r is Ok <==> json_parse(text@) is Some,
        r matches Ok(v) ==> json_parse(text@) == Some(json_of(v)),
{
    serde_json::from_str::<serde_json::Value>(text)
}

/// Indexing a `serde_json::Value` by a string key.
#[verifier::external_body]
pub(crate) fn member<'a>(value: &'a serde_json::Value, key: &str) -> (r: &'a serde_json::Value)
    ensures
        json_of(*r) == json_of(*value).member(key@),
{
    &value[key]
}

/// Indexing a `serde_json::Value` by a position.
#[verifier::external_body]
pub(crate) fn element(value: &serde_json::Value, index: usize) -> (r: &serde_json::Value)
    ensures
        json_of(*r) == json_of(*value).element(index as int),
{
    &value[index]
}

/// `serde_json::Value::as_str`.
#[verifier::external_body]
pub(crate) fn as_text(value: &serde_json::Value) -> (r: Option<&str>)
    ensures
        r is Some <==> json_of(*value).as_text() is Some,
        r matches Some(s) ==> json_of(*value).as_text() == Some(s@),
{
    value.as_str()
}

/// The message of a `serde_json::Error`, as its `Display` writes it.
#[verifier::external_body]
pub(crate) fn error_text(error: &serde_json::Error) -> (message: String) {
    error.to_string()
}

} // verus!
