//! The material codec: a material as one flat JSON object, and back.
//!
//! Writing puts the shared attributes and the attributes of the kind side by
//! side at the top of the object, with no key around them. The kind is
//! written under `type`, by the shape of the value. Reading goes by the shape
//! of the object: the shared attributes first, then a wire where the four
//! wire keys are all there, then a bead. An object that has the attributes
//! of both is read as a wire.

use vstd::prelude::*;
use crate::json::{lookup, FieldModel, JsonModel, JsonObject, JsonValue};
use crate::laws::{
    base_keys, has_unknown_metal, holds_wire, lacks_base_field, lemma_encode_type_field,
    lemma_missing_base_field, lemma_unknown_metal, lemma_wire_before_bead,
};
use crate::model::{
    BaseMaterialType, BaseModel, Bead, BeadModel, Material, MaterialModel, MaterialType,
    MetalType, Wire, WireModel, WireType,
};

verus! {

/// Why a record could not be read.
#[derive(Debug, Clone, PartialEq, Eq)]
pub enum DecodeError {
    /// A shared attribute is absent, or is not of the type it must have.
    MissingField { field: String },
    /// A kind, finish or metal is not a text.
    TypeMismatch { field: String, expected: String },
    /// A kind, finish or metal is a text outside its set of names.
    InvalidEnumValue { field: String, value: String },
    /// The record has the attributes of neither a wire nor a bead.
    UnrecognizedVariant,
}

/// The mathematical value of a [`DecodeError`].
pub enum DecodeErrorModel {
    MissingField { field: Seq<char> },
    TypeMismatch { field: Seq<char>, expected: Seq<char> },
    InvalidEnumValue { field: Seq<char>, value: Seq<char> },
    UnrecognizedVariant,
}

impl View for DecodeError {
    type V = DecodeErrorModel;

    open spec fn view(&self) -> DecodeErrorModel {
        match self {
            DecodeError::MissingField { field } => DecodeErrorModel::MissingField { field: field@ },
            DecodeError::TypeMismatch { field, expected } => DecodeErrorModel::TypeMismatch {
                field: field@,
                expected: expected@,
            },
            DecodeError::InvalidEnumValue { field, value } => DecodeErrorModel::InvalidEnumValue {
                field: field@,
                value: value@,
            },
            DecodeError::UnrecognizedVariant => DecodeErrorModel::UnrecognizedVariant,
        }
    }
}

// ----- the names of the enumerations -----

/// The name under which a kind is written.
pub open spec fn material_type_text(kind: MaterialType) -> Seq<char> {
    match kind {
        MaterialType::WIRE => "WIRE"@,
        MaterialType::BEAD => "BEAD"@,
    }
}

/// The kind that a name stands for, letter for letter.
pub open spec fn parse_material_type(text: Seq<char>) -> Option<MaterialType> {
    if text == "WIRE"@ {
        Some(MaterialType::WIRE)
    } else if text == "BEAD"@ {
        Some(MaterialType::BEAD)
    } else {
        None
    }
}

/// The name under which a finish is written.
pub open spec fn wire_type_text(finish: WireType) -> Seq<char> {
    match finish {
        WireType::FULL => "FULL"@,
        WireType::FILLED => "FILLED"@,
        WireType::PLATED => "PLATED"@,
    }
}

/// The finish that a name stands for, letter for letter.
pub open spec fn parse_wire_type(text: Seq<char>) -> Option<WireType> {
    if text == "FULL"@ {
        Some(WireType::FULL)
    } else if text == "FILLED"@ {
        Some(WireType::FILLED)
    } else if text == "PLATED"@ {
        Some(WireType::PLATED)
    } else {
        None
    }
}

/// The name under which a metal is written.
pub open spec fn metal_type_text(metal: MetalType) -> Seq<char> {
    match metal {
        MetalType::BRASS => "BRASS"@,
        MetalType::COPPER => "COPPER"@,
        MetalType::SILVER => "SILVER"@,
        MetalType::GOLD => "GOLD"@,
    }
}

/// The metal that a name stands for, letter for letter.
pub open spec fn parse_metal_type(text: Seq<char>) -> Option<MetalType> {
    if text == "BRASS"@ {
        Some(MetalType::BRASS)
    } else if text == "COPPER"@ {
        Some(MetalType::COPPER)
    } else if text == "SILVER"@ {
        Some(MetalType::SILVER)
    } else if text == "GOLD"@ {
        Some(MetalType::GOLD)
    } else {
        None
    }
}

// ----- what a record is read as -----

/// The text under `key`, where the first such field holds a text.
pub open spec fn text_at(fields: Seq<FieldModel>, key: Seq<char>) -> Option<Seq<char>> {
    match lookup(fields, key) {
        Some(JsonModel::Text(text)) => Some(text),
        _ => None,
    }
}

/// The number under `key`, where the first such field holds a whole number of
/// 32 bits.
pub open spec fn int_at(fields: Seq<FieldModel>, key: Seq<char>) -> Option<int> {
    match lookup(fields, key) {
        Some(JsonModel::Int(n)) => if i32::MIN <= n <= i32::MAX {
            Some(n)
        } else {
            None
        },
        _ => None,
    }
}

/// The text of the enumeration under `key`, or the error that an absent field
/// or another value than a text gives.
pub open spec fn enum_text_at(fields: Seq<FieldModel>, key: Seq<char>) -> Result<
    Seq<char>,
    DecodeErrorModel,
> {
    match lookup(fields, key) {
        None => Err(DecodeErrorModel::MissingField { field: key }),
        Some(JsonModel::Text(text)) => Ok(text),
        Some(_) => Err(DecodeErrorModel::TypeMismatch { field: key, expected: "string"@ }),
    }
}

/// The enumeration under `key`, read with `parse`.
pub open spec fn enum_at<T>(
    fields: Seq<FieldModel>,
    key: Seq<char>,
    parse: spec_fn(Seq<char>) -> Option<T>,
) -> Result<T, DecodeErrorModel> {
    match enum_text_at(fields, key) {
        Err(e) => Err(e),
        Ok(text) => match parse(text) {
            Some(value) => Ok(value),
            None => Err(DecodeErrorModel::InvalidEnumValue { field: key, value: text }),
        },
    }
}

/// The shared attributes of a record. The fields are taken in the order
/// `name`, `brand`, `diameter`, `purchaseUrl`, `type`, and the first that fails
/// gives the error.
pub open spec fn decode_base_spec(fields: Seq<FieldModel>) -> Result<BaseModel, DecodeErrorModel> {
    if text_at(fields, "name"@).is_none() {
        Err(DecodeErrorModel::MissingField { field: "name"@ })
    } else if text_at(fields, "brand"@).is_none() {
        Err(DecodeErrorModel::MissingField { field: "brand"@ })
    } else if int_at(fields, "diameter"@).is_none() {
        Err(DecodeErrorModel::MissingField { field: "diameter"@ })
    } else if text_at(fields, "purchaseUrl"@).is_none() {
        Err(DecodeErrorModel::MissingField { field: "purchaseUrl"@ })
    } else {
        match enum_at(fields, "type"@, |t: Seq<char>| parse_material_type(t)) {
            Err(e) => Err(e),
            Ok(kind) => Ok(
                BaseModel {
                    name: text_at(fields, "name"@).unwrap(),
                    brand: text_at(fields, "brand"@).unwrap(),
                    diameter: int_at(fields, "diameter"@).unwrap(),
                    purchase_url: text_at(fields, "purchaseUrl"@).unwrap(),
                    material_type: kind,
                },
            ),
        }
    }
}

/// The record has all four keys of a wire.
pub open spec fn has_wire_shape(fields: Seq<FieldModel>) -> bool {
    &&& lookup(fields, "wireFinish"@).is_some()
    &&& lookup(fields, "metal"@).is_some()
    &&& lookup(fields, "lengthMm"@).is_some()
    &&& lookup(fields, "pricePerMeter"@).is_some()
}

/// The attributes of a wire in a record: finish, metal, length and price.
/// `Ok(None)` where the record is no wire: a wire key is absent, or the length
/// or the price is no whole number of 32 bits. With all four keys there, a
/// finish or a metal that cannot be read is an error.
pub open spec fn wire_parts_spec(fields: Seq<FieldModel>) -> Result<
    Option<(WireType, MetalType, int, int)>,
    DecodeErrorModel,
> {
    if !has_wire_shape(fields) {
        Ok(None)
    } else {
        match enum_at(fields, "wireFinish"@, |t: Seq<char>| parse_wire_type(t)) {
            Err(e) => Err(e),
            Ok(finish) => match enum_at(fields, "metal"@, |t: Seq<char>| parse_metal_type(t)) {
                Err(e) => Err(e),
                Ok(metal) => match (int_at(fields, "lengthMm"@), int_at(fields, "pricePerMeter"@)) {
                    (Some(length), Some(price)) => Ok(Some((finish, metal, length, price))),
                    _ => Ok(None),
                },
            },
        }
    }
}

/// The attributes of a bead in a record: colour and quantity.
pub open spec fn bead_parts_spec(fields: Seq<FieldModel>) -> Option<(Seq<char>, int)> {
    match (text_at(fields, "colour"@), int_at(fields, "quantity"@)) {
        (Some(colour), Some(quantity)) => Some((colour, quantity)),
        _ => None,
    }
}

/// What a record is read as: the shared attributes, then a wire if the record
/// is one, else a bead if it is one.
pub open spec fn decode_spec(fields: Seq<FieldModel>) -> Result<MaterialModel, DecodeErrorModel> {
    match decode_base_spec(fields) {
        Err(e) => Err(e),
        Ok(base) => match wire_parts_spec(fields) {
            Err(e) => Err(e),
            Ok(Some((finish, metal, length, price))) => Ok(
                MaterialModel::Wire(
                    WireModel {
                        base,
                        wire_type: finish,
                        metal_type: metal,
                        length,
                        price_per_meter: price,
                    },
                ),
            ),
            Ok(None) => match bead_parts_spec(fields) {
                Some((colour, quantity)) => Ok(
                    MaterialModel::Bead(BeadModel { base, colour, quantity }),
                ),
                None => Err(DecodeErrorModel::UnrecognizedVariant),
            },
        },
    }
}

// ----- what a material is written as -----

/// A field with a text.
pub open spec fn text_field(key: Seq<char>, text: Seq<char>) -> FieldModel {
    FieldModel { key, value: JsonModel::Text(text) }
}

/// A field with a whole number.
pub open spec fn int_field(key: Seq<char>, n: int) -> FieldModel {
    FieldModel { key, value: JsonModel::Int(n) }
}

/// The record of a material: the five shared fields, with the kind taken from
/// the shape, and after them the four fields of a wire or the two of a bead.
pub open spec fn encode_spec(material: MaterialModel) -> Seq<FieldModel> {
    let base = material.base();
    let shared = seq![
        text_field("name"@, base.name),
        text_field("brand"@, base.brand),
        int_field("diameter"@, base.diameter),
        text_field("purchaseUrl"@, base.purchase_url),
        text_field("type"@, material_type_text(material.kind())),
    ];
    match material {
        MaterialModel::Wire(w) => shared + seq![
            text_field("wireFinish"@, wire_type_text(w.wire_type)),
            text_field("metal"@, metal_type_text(w.metal_type)),
            int_field("lengthMm"@, w.length),
            int_field("pricePerMeter"@, w.price_per_meter),
        ],
        MaterialModel::Bead(b) => shared + seq![
            text_field("colour"@, b.colour),
            int_field("quantity"@, b.quantity),
        ],
    }
}

// ----- reading -----

/// Whether `text` is `name`, letter for letter.
fn text_is(text: &String, name: &str) -> (same: bool)
    ensures
        same == (text@ == name@),
{
    let wanted = String::from_str(name);
    *text == wanted
}

/// The text under `key`, where the first such field holds a text.
fn read_text(object: &JsonObject, key: &str) -> (found: Option<String>)
    ensures
        match found {
            Some(text) => text_at(object@, key@) == Some(text@),
            None => text_at(object@, key@).is_none(),
        },
{
    match object.get(key) {
        Some(JsonValue::Text(text)) => Some(text.clone()),
        _ => None,
    }
}

/// The number under `key`, where the first such field holds a whole number of
/// 32 bits.
fn read_int(object: &JsonObject, key: &str) -> (found: Option<i32>)
    ensures
        match found {
            Some(n) => int_at(object@, key@) == Some(n as int),
            None => int_at(object@, key@).is_none(),
        },
{
    match object.get(key) {
        Some(JsonValue::Int(n)) => {
            if -2147483648 <= *n && *n <= 2147483647 {
                Some(*n as i32)
            } else {
                None
            }
        },
        _ => None,
    }
}

/// The text of the enumeration under `key`.
fn read_enum_text(object: &JsonObject, key: &str) -> (found: Result<String, DecodeError>)
    ensures
        match found {
            Ok(text) => enum_text_at(object@, key@) == Ok::<Seq<char>, DecodeErrorModel>(text@),
            Err(e) => enum_text_at(object@, key@) == Err::<Seq<char>, DecodeErrorModel>(e@),
        },
{
    match object.get(key) {
        None => Err(DecodeError::MissingField { field: String::from_str(key) }),
        Some(JsonValue::Text(text)) => Ok(text.clone()),
        Some(_) => Err(
            DecodeError::TypeMismatch {
                field: String::from_str(key),
                expected: String::from_str("string"),
            },
        ),
    }
}

impl MaterialType {
    /// The name under which the kind is written.
    pub fn name(&self) -> (name: &'static str)
        ensures
            name@ == material_type_text(*self),
    {
        match self {
            MaterialType::WIRE => "WIRE",
            MaterialType::BEAD => "BEAD",
        }
    }

    /// The kind that `text` names, letter for letter.
    pub fn from_name(text: &String) -> (kind: Option<MaterialType>)
        ensures
            kind == parse_material_type(text@),
    {
        if text_is(text, "WIRE") {
            Some(MaterialType::WIRE)
        } else if text_is(text, "BEAD") {
            Some(MaterialType::BEAD)
        } else {
            None
        }
    }
}

impl WireType {
    /// The name under which the finish is written.
    pub fn name(&self) -> (name: &'static str)
        ensures
            name@ == wire_type_text(*self),
    {
        match self {
            WireType::FULL => "FULL",
            WireType::FILLED => "FILLED",
            WireType::PLATED => "PLATED",
        }
    }

    /// The finish that `text` names, letter for letter.
    pub fn from_name(text: &String) -> (finish: Option<WireType>)
        ensures
            finish == parse_wire_type(text@),
    {
        if text_is(text, "FULL") {
            Some(WireType::FULL)
        } else if text_is(text, "FILLED") {
            Some(WireType::FILLED)
        } else if text_is(text, "PLATED") {
            Some(WireType::PLATED)
        } else {
            None
        }
    }
}

impl MetalType {
    /// The name under which the metal is written.
    pub fn name(&self) -> (name: &'static str)
        ensures
            name@ == metal_type_text(*self),
    {
        match self {
            MetalType::BRASS => "BRASS",
            MetalType::COPPER => "COPPER",
            MetalType::SILVER => "SILVER",
            MetalType::GOLD => "GOLD",
        }
    }

    /// The metal that `text` names, letter for letter.
    pub fn from_name(text: &String) -> (metal: Option<MetalType>)
        ensures
            metal == parse_metal_type(text@),
    {
        if text_is(text, "BRASS") {
            Some(MetalType::BRASS)
        } else if text_is(text, "COPPER") {
            Some(MetalType::COPPER)
        } else if text_is(text, "SILVER") {
            Some(MetalType::SILVER)
        } else if text_is(text, "GOLD") {
            Some(MetalType::GOLD)
        } else {
            None
        }
    }
}

/// The shared attributes of a record.
pub fn decode_base(object: &JsonObject) -> (read: Result<BaseMaterialType, DecodeError>)
    ensures
        match read {
            Ok(base) => decode_base_spec(object@) == Ok::<BaseModel, DecodeErrorModel>(base@),
            Err(e) => decode_base_spec(object@) == Err::<BaseModel, DecodeErrorModel>(e@),
        },
{
    let name = match read_text(object, "name") {
        Some(text) => text,
        None => { return Err(DecodeError::MissingField { field: String::from_str("name") }); },
    };
    let brand = match read_text(object, "brand") {
        Some(text) => text,
        None => { return Err(DecodeError::MissingField { field: String::from_str("brand") }); },
    };
    let diameter = match read_int(object, "diameter") {
        Some(n) => n,
        None => { return Err(DecodeError::MissingField { field: String::from_str("diameter") }); },
    };
    let purchase_url = match read_text(object, "purchaseUrl") {
        Some(text) => text,
        None => {
            return Err(DecodeError::MissingField { field: String::from_str("purchaseUrl") });
        },
    };
    let kind_text = match read_enum_text(object, "type") {
        Ok(text) => text,
        Err(e) => { return Err(e); },
    };
    match MaterialType::from_name(&kind_text) {
        Some(material_type) => Ok(
            BaseMaterialType { name, brand, diameter, purchase_url, material_type },
        ),
        None => Err(
            DecodeError::InvalidEnumValue { field: String::from_str("type"), value: kind_text },
        ),
    }
}

/// Whether the record has all four keys of a wire.
fn wire_shaped(object: &JsonObject) -> (shaped: bool)
    ensures
        shaped == has_wire_shape(object@),
{
    object.get("wireFinish").is_some() && object.get("metal").is_some() && object.get(
        "lengthMm",
    ).is_some() && object.get("pricePerMeter").is_some()
}

/// The attributes of a wire in a record: finish, metal, length and price.
fn read_wire_parts(object: &JsonObject) -> (read: Result<
    Option<(WireType, MetalType, i32, i32)>,
    DecodeError,
>)
    ensures
        match read {
            Ok(Some(parts)) => wire_parts_spec(object@) == Ok::<
                Option<(WireType, MetalType, int, int)>,
                DecodeErrorModel,
            >(Some((parts.0, parts.1, parts.2 as int, parts.3 as int))),
            Ok(None) => wire_parts_spec(object@) == Ok::<
                Option<(WireType, MetalType, int, int)>,
                DecodeErrorModel,
            >(None),
            Err(e) => wire_parts_spec(object@) == Err::<
                Option<(WireType, MetalType, int, int)>,
                DecodeErrorModel,
            >(e@),
        },
{
    if !wire_shaped(object) {
        return Ok(None);
    }
    let finish_text = match read_enum_text(object, "wireFinish") {
        Ok(text) => text,
        Err(e) => { return Err(e); },
    };
    let finish = match WireType::from_name(&finish_text) {
        Some(finish) => finish,
        None => {
            return Err(
                DecodeError::InvalidEnumValue {
                    field: String::from_str("wireFinish"),
                    value: finish_text,
                },
            );
        },
    };
    let metal_text = match read_enum_text(object, "metal") {
        Ok(text) => text,
        Err(e) => { return Err(e); },
    };
    let metal = match MetalType::from_name(&metal_text) {
        Some(metal) => metal,
        None => {
            return Err(
                DecodeError::InvalidEnumValue {
                    field: String::from_str("metal"),
                    value: metal_text,
                },
            );
        },
    };
    let length = read_int(object, "lengthMm");
    let price = read_int(object, "pricePerMeter");
    match (length, price) {
        (Some(length), Some(price)) => Ok(Some((finish, metal, length, price))),
        _ => Ok(None),
    }
}

/// The attributes of a bead in a record: colour and quantity.
fn read_bead_parts(object: &JsonObject) -> (read: Option<(String, i32)>)
    ensures
        match read {
            Some(parts) => bead_parts_spec(object@) == Some((parts.0@, parts.1 as int)),
            None => bead_parts_spec(object@).is_none(),
        },
{
    let colour = read_text(object, "colour");
    let quantity = read_int(object, "quantity");
    match (colour, quantity) {
        (Some(colour), Some(quantity)) => Some((colour, quantity)),
        _ => None,
    }
}

/// The reading was refused with the error `e`.
pub open spec fn refused(read: Result<Material, DecodeError>, e: DecodeErrorModel) -> bool {
    read is Err && read->Err_0@ == e
}

/// Reads one record as a material.
///
/// The result is a wire wherever the record holds the attributes of a wire,
/// also where it holds those of a bead beside them. The declared kind is kept
/// as the record gives it.
pub fn decode(object: &JsonObject) -> (read: Result<Material, DecodeError>)
    ensures
        match read {
            Ok(material) => decode_spec(object@) == Ok::<MaterialModel, DecodeErrorModel>(
                material@,
            ),
            Err(e) => decode_spec(object@) == Err::<MaterialModel, DecodeErrorModel>(e@),
        },
        forall|i: int| #[trigger]
            lacks_base_field(object@, i) ==> refused(
                read,
                DecodeErrorModel::MissingField { field: base_keys()[i] },
            ),
        forall|value: Seq<char>| #[trigger]
            has_unknown_metal(object@, value) ==> refused(
                read,
                DecodeErrorModel::InvalidEnumValue { field: "metal"@, value },
            ),
        holds_wire(object@) ==> read is Ok && read->Ok_0 is Wire,
{
    proof {
        assert forall|i: int| #[trigger] lacks_base_field(object@, i) implies decode_spec(object@)
            == Err::<MaterialModel, DecodeErrorModel>(
            DecodeErrorModel::MissingField { field: base_keys()[i] },
        ) by {
            lemma_missing_base_field(object@, i);
        }
        assert forall|value: Seq<char>| #[trigger]
            has_unknown_metal(object@, value) implies decode_spec(object@)
            == Err::<MaterialModel, DecodeErrorModel>(
            DecodeErrorModel::InvalidEnumValue { field: "metal"@, value },
        ) by {
            lemma_unknown_metal(object@, value);
        }
        if holds_wire(object@) {
            lemma_wire_before_bead(object@);
        }
    }
    let base = match decode_base(object) {
        Ok(base) => base,
        Err(e) => { return Err(e); },
    };
    match read_wire_parts(object) {
        Err(e) => Err(e),
        Ok(Some((wire_type, metal_type, length, price_per_meter))) => Ok(
            Material::Wire(
                Wire { base_material_type: base, wire_type, metal_type, length, price_per_meter },
            ),
        ),
        Ok(None) => match read_bead_parts(object) {
            Some((colour, quantity)) => Ok(
                Material::Bead(Bead { base_material_type: base, colour, quantity }),
            ),
            None => Err(DecodeError::UnrecognizedVariant),
        },
    }
}

// ----- writing -----

/// Writes a material as one record. Every material can be written.
pub fn encode(material: &Material) -> (object: JsonObject)
    ensures
        object@ == encode_spec(material@),
        material is Wire ==> text_at(object@, "type"@) == Some("WIRE"@),
        material is Bead ==> text_at(object@, "type"@) == Some("BEAD"@),
{
    let base = material.base();
    let mut object = JsonObject::new();
    object.push("name", JsonValue::Text(base.name.clone()));
    object.push("brand", JsonValue::Text(base.brand.clone()));
    object.push("diameter", JsonValue::Int(base.diameter as i64));
    object.push("purchaseUrl", JsonValue::Text(base.purchase_url.clone()));
    object.push("type", JsonValue::Text(String::from_str(material.kind().name())));
    match material {
        Material::Wire(w) => {
            object.push("wireFinish", JsonValue::Text(String::from_str(w.wire_type.name())));
            object.push("metal", JsonValue::Text(String::from_str(w.metal_type.name())));
            object.push("lengthMm", JsonValue::Int(w.length as i64));
            object.push("pricePerMeter", JsonValue::Int(w.price_per_meter as i64));
        },
        Material::Bead(b) => {
            object.push("colour", JsonValue::Text(b.colour.clone()));
            object.push("quantity", JsonValue::Int(b.quantity as i64));
        },
    }
    proof {
        assert(object@ =~= encode_spec(material@));
        lemma_encode_type_field(material@);
    }
    object
}

// ----- many records -----

/// The first record of a list that could not be read, and why.
#[derive(Debug, Clone, PartialEq, Eq)]
pub struct BatchError {
    /// The place of the record in the list.
    pub index: usize,
    pub error: DecodeError,
}

/// Every record before `n` can be read.
pub open spec fn all_readable(records: Seq<JsonObject>, n: int) -> bool {
    forall|i: int| 0 <= i < n ==> (#[trigger] decode_spec(records[i]@)) is Ok
}

/// Reads a list of records, in order. The first record that cannot be read
/// ends the reading: nothing is returned of the records before it.
pub fn decode_all(records: &Vec<JsonObject>) -> (read: Result<Vec<Material>, BatchError>)
    ensures
        match read {
            Ok(materials) => {
                &&& materials@.len() == records@.len()
                &&& forall|i: int|
                    0 <= i < records@.len() ==> decode_spec(#[trigger] records@[i]@) == Ok::<
                        MaterialModel,
                        DecodeErrorModel,
                    >(materials@[i]@)
            },
            Err(failure) => {
                &&& failure.index < records@.len()
                &&& all_readable(records@, failure.index as int)
                &&& decode_spec(records@[failure.index as int]@) == Err::<
                    MaterialModel,
                    DecodeErrorModel,
                >(failure.error@)
            },
        },
{
    let mut materials: Vec<Material> = Vec::new();
    let mut i: usize = 0;
    while i < records.len()
        invariant
            i <= records@.len(),
            materials@.len() == i,
            forall|j: int|
                0 <= j < i ==> decode_spec(#[trigger] records@[j]@) == Ok::<
                    MaterialModel,
                    DecodeErrorModel,
                >(materials@[j]@),
        decreases records@.len() - i,
    {
        match decode(&records[i]) {
            Ok(material) => {
                materials.push(material);
            },
            Err(error) => {
                return Err(BatchError { index: i, error });
            },
        }
        i += 1;
    }
    Ok(materials)
}

// ----- errors in words -----

/// The sentence that tells a client why its record was refused. It names the
/// field at fault, where there is one.
pub open spec fn message_spec(error: DecodeErrorModel) -> Seq<char> {
    match error {
        DecodeErrorModel::MissingField { field } => "missing field `"@ + field + "`"@,
        DecodeErrorModel::TypeMismatch { field, expected } => "field `"@ + field
            + "` must be a "@ + expected,
        DecodeErrorModel::InvalidEnumValue { field, value } => "field `"@ + field
            + "` has the unknown value `"@ + value + "`"@,
        DecodeErrorModel::UnrecognizedVariant => "the record is neither a wire nor a bead"@,
    }
}

impl DecodeError {
    /// The sentence that tells a client why its record was refused.
    pub fn message(&self) -> (text: String)
        ensures
            text@ == message_spec(self@),
    {
        match self {
            DecodeError::MissingField { field } => String::from_str("missing field `").concat(
                field.as_str(),
            ).concat("`"),
            DecodeError::TypeMismatch { field, expected } => String::from_str("field `").concat(
                field.as_str(),
            ).concat("` must be a ").concat(expected.as_str()),
            DecodeError::InvalidEnumValue { field, value } => String::from_str("field `").concat(
                field.as_str(),
            ).concat("` has the unknown value `").concat(value.as_str()).concat("`"),
            DecodeError::UnrecognizedVariant => String::from_str(
                "the record is neither a wire nor a bead",
            ),
        }
    }
}

} // verus!
