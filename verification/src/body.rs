//! Materials as the bytes of a request or a reply: UTF-8 JSON, one flat
//! object for one material.
//!
//! Parsing and printing JSON is the work of `serde_json`. What it makes of
//! given bytes, and of a given object, is named here and not described; the
//! reading of the parsed object and the choice of what is printed are proved.

use vstd::prelude::*;
use crate::codec::{
    decode, decode_spec, encode, encode_spec, message_spec, DecodeError, DecodeErrorModel,
};
use crate::json::{Field, FieldModel, JsonObject, JsonValue};
use crate::laws::lemma_keys_differ;
use crate::model::{Material, MaterialModel};

verus! {

/// Why the bytes of a body could not be read as a material.
#[derive(Debug, Clone, PartialEq, Eq)]
pub enum BodyError {
    /// The bytes are not the JSON text of one object.
    Malformed,
    /// The object is no material.
    Invalid(DecodeError),
}

/// The mathematical value of a [`BodyError`].
pub enum BodyErrorModel {
    Malformed,
    Invalid(DecodeErrorModel),
}

impl View for BodyError {
    type V = BodyErrorModel;

    open spec fn view(&self) -> BodyErrorModel {
        match self {
            BodyError::Malformed => BodyErrorModel::Malformed,
            BodyError::Invalid(e) => BodyErrorModel::Invalid(e@),
        }
    }
}

impl BodyError {
    /// The sentence that tells a client why its body was refused.
    pub fn message(&self) -> (text: String)
        ensures
            text@ == match self@ {
                BodyErrorModel::Malformed => "the body is no JSON object"@,
                BodyErrorModel::Invalid(e) => message_spec(e),
            },
    {
        match self {
            BodyError::Malformed => String::from_str("the body is no JSON object"),
            BodyError::Invalid(e) => e.message(),
        }
    }
}

/// The fields that `serde_json` finds in `bytes`, or `None` where it does not
/// take them for the text of one JSON object.
pub uninterp spec fn parsed_object(bytes: Seq<u8>) -> Option<Seq<FieldModel>>;

/// The JSON text that `serde_json` prints for an object with these fields.
pub uninterp spec fn rendered_object(fields: Seq<FieldModel>) -> Seq<u8>;

/// An object that can be printed as it stands: every value is one that the
/// record model holds in full, and no key stands twice.
pub open spec fn renderable(fields: Seq<FieldModel>) -> bool {
    &&& forall|i: int| 0 <= i < fields.len() ==> !((#[trigger] fields[i]).value is Opaque)
    &&& forall|i: int, j: int|
        0 <= i < j < fields.len() ==> (#[trigger] fields[i]).key != (#[trigger] fields[j]).key
}

/// Parses bytes with `serde_json::from_slice` into a map and hands out its
/// entries in the map's order. Believed, not proved: the outcome is the one
/// that [`parsed_object`] names for these bytes. A number is kept where
/// `Number::as_i64` gives it; another number, an array and an object become
/// [`JsonValue::Opaque`].
#[verifier::external_body]
fn parse_object(bytes: &[u8]) -> (parsed: Option<JsonObject>)
    ensures
        match parsed {
            Some(object) => parsed_object(bytes@) == Some(object@),
            None => parsed_object(bytes@).is_none(),
        },
{
    let map: serde_json::Map<String, serde_json::Value> = serde_json::from_slice(bytes).ok()?;
    let mut fields = Vec::new();
    for (key, value) in map {
        let value = match value {
            serde_json::Value::Null => JsonValue::Null,
            serde_json::Value::Bool(b) => JsonValue::Bool(b),
            serde_json::Value::Number(n) => n.as_i64().map_or(JsonValue::Opaque, JsonValue::Int),
            serde_json::Value::String(s) => JsonValue::Text(s),
            serde_json::Value::Array(_) | serde_json::Value::Object(_) => JsonValue::Opaque,
        };
        fields.push(Field { key, value });
    }
    Some(JsonObject { fields })
}

/// Prints an object with `serde_json::to_vec`. Believed, not proved: the
/// bytes are those that [`rendered_object`] names for these fields.
#[verifier::external_body]
fn render_object(object: &JsonObject) -> (bytes: Vec<u8>)
    requires
        renderable(object@),
    ensures
        bytes@ == rendered_object(object@),
{
    let mut map = serde_json::Map::new();
    for field in &object.fields {
        let value = match &field.value {
            JsonValue::Null | JsonValue::Opaque => serde_json::Value::Null,
            JsonValue::Bool(b) => serde_json::Value::Bool(*b),
            JsonValue::Int(n) => serde_json::Value::Number(serde_json::Number::from(*n)),
            JsonValue::Text(s) => serde_json::Value::String(s.clone()),
        };
        map.insert(field.key.clone(), value);
    }
    serde_json::to_vec(&map).unwrap_or_default()
}

/// What a parsed body is read as.
pub open spec fn decode_parsed_spec(parsed: Option<Seq<FieldModel>>) -> Result<
    MaterialModel,
    BodyErrorModel,
> {
    match parsed {
        None => Err(BodyErrorModel::Malformed),
        Some(fields) => match decode_spec(fields) {
            Ok(material) => Ok(material),
            Err(e) => Err(BodyErrorModel::Invalid(e)),
        },
    }
}

/// Reads a parsed body as a material: `None` stands for bytes that are not
/// the text of one object.
pub fn decode_parsed(parsed: Option<JsonObject>) -> (read: Result<Material, BodyError>)
    ensures
        match read {
            Ok(material) => decode_parsed_spec(
                match parsed {
                    Some(object) => Some(object@),
                    None => None,
                },
            ) == Ok::<MaterialModel, BodyErrorModel>(material@),
            Err(e) => decode_parsed_spec(
                match parsed {
                    Some(object) => Some(object@),
                    None => None,
                },
            ) == Err::<MaterialModel, BodyErrorModel>(e@),
        },
{
    match parsed {
        None => Err(BodyError::Malformed),
        Some(object) => match decode(&object) {
            Ok(material) => Ok(material),
            Err(e) => Err(BodyError::Invalid(e)),
        },
    }
}

/// Reads the bytes of a body as a material.
pub fn decode_bytes(bytes: &[u8]) -> (read: Result<Material, BodyError>)
    ensures
        match read {
            Ok(material) => decode_parsed_spec(parsed_object(bytes@)) == Ok::<
                MaterialModel,
                BodyErrorModel,
            >(material@),
            Err(e) => decode_parsed_spec(parsed_object(bytes@)) == Err::<
                MaterialModel,
                BodyErrorModel,
            >(e@),
        },
{
    decode_parsed(parse_object(bytes))
}

/// The record of a material can be printed as it stands.
pub proof fn lemma_encoded_is_renderable(material: MaterialModel)
    ensures
        renderable(encode_spec(material)),
{
    lemma_keys_differ();
}

/// Writes a material as the bytes of a body: the JSON text of its record.
pub fn encode_bytes(material: &Material) -> (bytes: Vec<u8>)
    ensures
        bytes@ == rendered_object(encode_spec(material@)),
{
    let object = encode(material);
    proof {
        lemma_encoded_is_renderable(material@);
    }
    render_object(&object)
}

} // verus!
