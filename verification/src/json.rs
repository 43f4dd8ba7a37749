//! JSON documents as the stored profile and metadata blobs hold them, read
//! and written by serde_json.
use vstd::prelude::*;
use vstd::string::*;
use crate::decisions::{decimal, format_decimal};

verus! {

/// What a JSON document says: numbers by their JSON text, object members in
/// order.
pub ghost enum JsonShape {
    Null,
    Bool(bool),
    Number(Seq<char>),
    Text(Seq<char>),
    Array(Seq<JsonShape>),
    Object(Seq<(Seq<char>, JsonShape)>),
}

/// A JSON number: serde_json's number, with the text serde_json writes
/// for it. Only `from_u64` and the reading of a document make one, so the
/// text is always the number's own, and a document is written with the
/// number it was read with.
pub struct JsonNumber {
    text: String,
    number: serde_json::Number,
}

impl View for JsonNumber {
    type V = Seq<char>;

    closed spec fn view(&self) -> Seq<char> {
        self.text@
    }
}

impl JsonNumber {
    /// The number `n`, written in decimal.
    pub fn from_u64(n: u64) -> (r: JsonNumber)
        ensures
            r@ == decimal(n as nat),
    {
        JsonNumber { text: format_decimal(n), number: number_of_u64(n) }
    }

    /// The number's JSON text.
    pub fn text(&self) -> (r: &str)
        ensures
            r@ == self@,
    {
        self.text.as_str()
    }
}

/// serde_json's declared number type, carried through the conversions.
#[verifier::external_type_specification]
#[verifier::external_body]
pub struct ExJsonNumber(serde_json::Number);

/// Makes serde_json's number for `n` with `Number::from`; nothing is
/// claimed of the opaque result.
#[verifier::external_body]
fn number_of_u64(n: u64) -> serde_json::Number {
    serde_json::Number::from(n)
}

/// A JSON document in memory.
pub enum Json {
    Null,
    Bool(bool),
    /// A number, with its JSON text.
    Number(JsonNumber),
    Text(String),
    Array(Vec<Json>),
    /// Members in order.
    Object(Vec<(String, Json)>),
}

/// What the document `j` says.
pub open spec fn shape_of(j: Json) -> JsonShape
    decreases j,
{
    match j {
        Json::Null => JsonShape::Null,
        Json::Bool(b) => JsonShape::Bool(b),
        Json::Number(n) => JsonShape::Number(n@),
        Json::Text(s) => JsonShape::Text(s@),
        Json::Array(a) => JsonShape::Array(
            Seq::new(a@.len(), |i: int| if 0 <= i < a@.len() { shape_of(a@[i]) } else { JsonShape::Null }),
        ),
        Json::Object(o) => JsonShape::Object(
            Seq::new(
                o@.len(),
                |i: int|
                    if 0 <= i < o@.len() {
                        (o@[i].0@, shape_of(o@[i].1))
                    } else {
                        (Seq::empty(), JsonShape::Null)
                    },
            ),
        ),
    }
}

impl View for Json {
    type V = JsonShape;

    open spec fn view(&self) -> JsonShape {
        shape_of(*self)
    }
}

/// The members of an object, as the object's shape lists them.
pub open spec fn members_shape(o: Seq<(String, Json)>) -> Seq<(Seq<char>, JsonShape)> {
    Seq::new(o.len(), |i: int| (o[i].0@, shape_of(o[i].1)))
}

/// An object's shape lists its members.
pub proof fn lemma_object_shape(o: Vec<(String, Json)>)
    ensures
        shape_of(Json::Object(o)) == JsonShape::Object(members_shape(o@)),
{
    let j = Json::Object(o);
    let s = shape_of(j);
    assert(s is Object);
    let ms = s->Object_0;
    assert(ms.len() == o@.len());
    assert forall|i: int| 0 <= i < o@.len() implies ms[i] == (o@[i].0@, shape_of(o@[i].1)) by {}
    assert(ms =~= members_shape(o@));
}

/// The document that serde_json reads from `raw`, when `raw` is JSON.
pub uninterp spec fn json_parsed(raw: Seq<char>) -> Option<JsonShape>;

/// The compact text serde_json writes for a document, when it can.
pub uninterp spec fn json_written(doc: JsonShape) -> Option<Seq<char>>;

/// serde_json's declared document type, carried through the conversions.
#[verifier::external_type_specification]
#[verifier::external_body]
pub struct ExJsonValue(serde_json::Value);

/// Turns a serde_json document into a `Json`, variant for variant; a
/// number keeps the text its `Display` writes.
#[verifier::external_body]
fn json_of_value(v: serde_json::Value) -> Json {
    match v {
        serde_json::Value::Null => Json::Null,
        serde_json::Value::Bool(b) => Json::Bool(b),
        serde_json::Value::Number(n) => Json::Number(JsonNumber { text: n.to_string(), number: n }),
        serde_json::Value::String(s) => Json::Text(s),
        serde_json::Value::Array(a) => Json::Array(a.into_iter().map(json_of_value).collect()),
        serde_json::Value::Object(m) => Json::Object(m.into_iter().map(|(k, x)| (k, json_of_value(x))).collect()),
    }
}

/// Turns a `Json` into a serde_json document, variant for variant.
#[verifier::external_body]
fn value_of_json(j: &Json) -> serde_json::Value {
    match j {
        Json::Null => serde_json::Value::Null,
        Json::Bool(b) => serde_json::Value::Bool(*b),
        Json::Number(n) => serde_json::Value::Number(n.number.clone()),
        Json::Text(s) => serde_json::Value::String(s.clone()),
        Json::Array(a) => serde_json::Value::Array(a.iter().map(value_of_json).collect()),
        Json::Object(m) => serde_json::Value::Object(m.iter().map(|(k, x)| (k.clone(), value_of_json(x))).collect()),
    }
}

/// Reads `raw` with `serde_json::from_str` into a document; `None` when
/// `raw` is not JSON. The document read is named [`json_parsed`] of the
/// text.
#[verifier::external_body]
pub(crate) fn parse_json(raw: &str) -> (r: Option<Json>)
    ensures
        match r {
            Some(j) => json_parsed(raw@) == Some(j@),
            None => json_parsed(raw@) is None,
        },
{
    serde_json::from_str::<serde_json::Value>(raw).ok().map(json_of_value)
}

/// Writes a document with `serde_json::to_string`; `None` when serde_json
/// reports an error. The text is named [`json_written`] of the document.
#[verifier::external_body]
pub(crate) fn write_json(doc: &Json) -> (r: Option<String>)
    ensures
        match r {
            Some(t) => json_written(doc@) == Some(t@),
            None => json_written(doc@) is None,
        },
{
    serde_json::to_string(&value_of_json(doc)).ok()
}

} // verus!
