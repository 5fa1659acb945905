//! JSON documents as a closed set of shapes, read out of `serde_json`.

use vstd::prelude::*;

verus! {

/// A named member of a JSON object.
#[derive(Debug, PartialEq, Eq)]
pub struct JsonField {
    pub name: String,
    pub value: JsonValue,
}

/// A JSON value. A number is kept as the text that `serde_json` writes for
/// it, and so is an array, brackets and all: nothing here looks into either.
#[derive(Debug, PartialEq, Eq)]
pub enum JsonValue {
    Null,
    Bool(bool),
    Number(String),
    String(String),
    Array(String),
    Object(Vec<JsonField>),
}

/// What a `JsonField` holds.
pub ghost struct FieldModel {
    pub name: Seq<char>,
    pub value: JsonModel,
}

/// What a `JsonValue` holds.
pub ghost enum JsonModel {
    Null,
    Bool(bool),
    Number(Seq<char>),
    String(Seq<char>),
    Array(Seq<char>),
    Object(Seq<FieldModel>),
}

impl View for JsonField {
    type V = FieldModel;

    open spec fn view(&self) -> FieldModel
        decreases self,
    {
        FieldModel { name: self.name@, value: self.value@ }
    }
}

impl View for JsonValue {
    type V = JsonModel;

    open spec fn view(&self) -> JsonModel
        decreases self,
    {
        match self {
            JsonValue::Null => JsonModel::Null,
            JsonValue::Bool(b) => JsonModel::Bool(*b),
            JsonValue::Number(text) => JsonModel::Number(text@),
            JsonValue::String(text) => JsonModel::String(text@),
            JsonValue::Array(text) => JsonModel::Array(text@),
            JsonValue::Object(fields) => JsonModel::Object(fields_view(fields@)),
        }
    }
}

/// The fields of an object, each taken by its view.
pub open spec fn fields_view(fields: Seq<JsonField>) -> Seq<FieldModel>
    decreases fields,
{
    Seq::new(
        fields.len(),
        |i: int|
            if 0 <= i < fields.len() {
                fields[i]@
            } else {
                arbitrary()
            },
    )
}

/// A field list's view has the list's length and holds each field's view in
/// place.
pub proof fn lemma_fields_view(fields: Seq<JsonField>)
    ensures
        fields_view(fields).len() == fields.len(),
        forall|i: int| 0 <= i < fields.len() ==> (#[trigger] fields_view(fields)[i]) == fields[i]@,
{
}

/// `serde_json::Value`, of which nothing is known here but what the
/// contracts below say.
#[verifier::external_type_specification]
#[verifier::external_body]
pub struct ExValue(serde_json::Value);

/// `serde_json::Error`, which is only ever passed on.
#[verifier::external_type_specification]
#[verifier::external_body]
pub struct ExError(serde_json::Error);

/// The document that `serde_json::from_str` reads out of a text, if it reads one.
pub uninterp spec fn parsed_json(text: Seq<char>) -> Option<JsonModel>;

/// The document that a `serde_json::Value` holds.
pub uninterp spec fn json_model(value: serde_json::Value) -> JsonModel;

/// Calls `serde_json::from_str` for a `Value`. The result is success exactly
/// when `parsed_json` of the text is a document, and then holds that document.
#[verifier::external_body]
fn parse_value(text: &str) -> (parsed: Result<serde_json::Value, serde_json::Error>)
    ensures
        match parsed {
            Ok(value) => parsed_json(text@) == Some(json_model(value)),
            Err(_) => parsed_json(text@) is None,
        },
{
    serde_json::from_str::<serde_json::Value>(text)
}

/// Tells the variants of a `serde_json::Value` apart. Anything but an object
/// comes back whole: a boolean and a string as they are, a number and an
/// array as the text that their `to_string` gives. An object gives `None`.
#[verifier::external_body]
fn value_leaf(value: &serde_json::Value) -> (leaf: Option<JsonValue>)
    ensures
        leaf is None <==> json_model(*value) is Object,
        leaf matches Some(plain) ==> plain@ == json_model(*value),
{
    match value {
        serde_json::Value::Null => Some(JsonValue::Null),
        serde_json::Value::Bool(b) => Some(JsonValue::Bool(*b)),
        serde_json::Value::Number(number) => Some(JsonValue::Number(number.to_string())),
        serde_json::Value::String(text) => Some(JsonValue::String(text.clone())),
        serde_json::Value::Array(_) => Some(JsonValue::Array(value.to_string())),
        serde_json::Value::Object(_) => None,
    }
}

/// Walks the map of a `serde_json::Value` that is an object with
/// `Map::iter`, which hands out the members in the order the map keeps them.
/// A value that is no object gives an empty list.
#[verifier::external_body]
fn value_members(value: &serde_json::Value) -> (members: Vec<(&String, &serde_json::Value)>)
    ensures
        json_model(*value) matches JsonModel::Object(fields) ==> {
            &&& members@.len() == fields.len()
            &&& forall|i: int|
                0 <= i < fields.len() ==> {
                    &&& (#[trigger] members@[i]).0@ == fields[i].name
                    &&& json_model(*members@[i].1) == fields[i].value
                }
        },
{
    match value {
        serde_json::Value::Object(map) => map.iter().collect(),
        _ => Vec::new(),
    }
}

/// Reads a `serde_json::Value` into a `JsonValue`, level by level.
fn lift(value: &serde_json::Value) -> (lifted: JsonValue)
    ensures
        lifted@ == json_model(*value),
    decreases json_model(*value),
{
    match value_leaf(value) {
        Some(plain) => plain,
        None => {
            let members = value_members(value);
            let ghost fields = json_model(*value)->Object_0;
            let mut lifted: Vec<JsonField> = Vec::new();
            let mut i: usize = 0;
            while i < members.len()
                invariant
                    json_model(*value) == JsonModel::Object(fields),
                    members@.len() == fields.len(),
                    forall|k: int|
                        0 <= k < fields.len() ==> {
                            &&& (#[trigger] members@[k]).0@ == fields[k].name
                            &&& json_model(*members@[k].1) == fields[k].value
                        },
                    i <= members.len(),
                    lifted.len() == i,
                    forall|k: int| 0 <= k < i ==> (#[trigger] lifted@[k])@ == fields[k],
                decreases members.len() - i,
            {
                let name = members[i].0.clone();
                proof {
                    // The member's document lies inside the object's.
                    let whole = json_model(*value);
                    assert(json_model(*members@[i as int].1) == fields[i as int].value);
                    assert(decreases_to!(whole => whole->Object_0));
                    assert(decreases_to!(fields => fields[i as int]));
                    assert(decreases_to!(fields[i as int] => fields[i as int].value));
                }
                let child = lift(members[i].1);
                lifted.push(JsonField { name, value: child });
                i += 1;
            }
            proof {
                assert(fields_view(lifted@) =~= fields);
            }
            JsonValue::Object(lifted)
        }
    }
}

/// A document and its view, or none.
pub open spec fn document_view(document: Option<JsonValue>) -> Option<JsonModel> {
    match document {
        Some(value) => Some(value@),
        None => None,
    }
}

/// Reads a JSON text. `None` means that the text is no JSON document.
pub fn parse_json(text: &str) -> (document: Option<JsonValue>)
    ensures
        document_view(document) == parsed_json(text@),
{
    match parse_value(text) {
        Ok(value) => Some(lift(&value)),
        Err(_) => None,
    }
}

} // verus!
