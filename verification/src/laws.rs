//! What holds of the codec for every material and every record.

use vstd::prelude::*;
use crate::codec::{
    decode_base_spec, decode_spec, encode_spec, enum_at, has_wire_shape, int_at,
    material_type_text, metal_type_text, parse_material_type, parse_metal_type, parse_wire_type,
    text_at, wire_parts_spec, wire_type_text, DecodeErrorModel,
};
use crate::json::{lemma_lookup_skip, lookup, FieldModel, JsonModel};
use crate::model::{Material, MaterialModel, MaterialType, MetalType, WireType};

verus! {

/// The keys of the shared attributes, in the order in which they are read.
pub open spec fn base_keys() -> Seq<Seq<char>> {
    seq!["name"@, "brand"@, "diameter"@, "purchaseUrl"@, "type"@]
}

/// The shared attribute at place `i` of [`base_keys`] is there and can be
/// read.
pub open spec fn base_field_ok(fields: Seq<FieldModel>, i: int) -> bool {
    if i == 0 {
        text_at(fields, "name"@).is_some()
    } else if i == 1 {
        text_at(fields, "brand"@).is_some()
    } else if i == 2 {
        int_at(fields, "diameter"@).is_some()
    } else if i == 3 {
        text_at(fields, "purchaseUrl"@).is_some()
    } else {
        enum_at(fields, "type"@, |t: Seq<char>| parse_material_type(t)).is_ok()
    }
}

/// The record lacks the shared attribute at place `i` of [`base_keys`], while
/// those read before it are there and can be read.
pub open spec fn lacks_base_field(fields: Seq<FieldModel>, i: int) -> bool {
    &&& 0 <= i < 5
    &&& lookup(fields, base_keys()[i]).is_none()
    &&& forall|j: int| 0 <= j < i ==> base_field_ok(fields, j)
}

/// The record has the shared attributes and the four keys of a wire, and its
/// metal is the text `value`, which names no metal.
pub open spec fn has_unknown_metal(fields: Seq<FieldModel>, value: Seq<char>) -> bool {
    &&& decode_base_spec(fields).is_ok()
    &&& has_wire_shape(fields)
    &&& enum_at(fields, "wireFinish"@, |t: Seq<char>| parse_wire_type(t)).is_ok()
    &&& lookup(fields, "metal"@) == Some(JsonModel::Text(value))
    &&& parse_metal_type(value).is_none()
}

/// The record holds the shared attributes and all the attributes of a wire,
/// each of them readable. It may hold those of a bead as well.
pub open spec fn holds_wire(fields: Seq<FieldModel>) -> bool {
    &&& decode_base_spec(fields).is_ok()
    &&& wire_parts_spec(fields) is Ok
    &&& wire_parts_spec(fields)->Ok_0.is_some()
}

/// The first field with the key `key` stands at place `n`.
proof fn lemma_lookup_at(fields: Seq<FieldModel>, key: Seq<char>, n: int)
    requires
        0 <= n < fields.len(),
        forall|i: int| 0 <= i < n ==> (#[trigger] fields[i]).key != key,
        fields[n].key == key,
    ensures
        lookup(fields, key) == Some(fields[n].value),
{
    lemma_lookup_skip(fields, key, n);
    assert(fields.skip(n)[0] == fields[n]);
}

/// No field has the key `key`.
proof fn lemma_lookup_none(fields: Seq<FieldModel>, key: Seq<char>)
    requires
        forall|i: int| 0 <= i < fields.len() ==> (#[trigger] fields[i]).key != key,
    ensures
        lookup(fields, key).is_none(),
{
    lemma_lookup_skip(fields, key, fields.len() as int);
    assert(fields.skip(fields.len() as int).len() == 0);
}

/// The eleven keys of the codec differ from each other.
pub proof fn lemma_keys_differ()
    ensures
        "name"@ != "brand"@, "name"@ != "diameter"@, "name"@ != "purchaseUrl"@,
        "name"@ != "type"@, "name"@ != "wireFinish"@, "name"@ != "metal"@,
        "name"@ != "lengthMm"@, "name"@ != "pricePerMeter"@, "name"@ != "colour"@,
        "name"@ != "quantity"@,
        "brand"@ != "diameter"@, "brand"@ != "purchaseUrl"@, "brand"@ != "type"@,
        "brand"@ != "wireFinish"@, "brand"@ != "metal"@, "brand"@ != "lengthMm"@,
        "brand"@ != "pricePerMeter"@, "brand"@ != "colour"@, "brand"@ != "quantity"@,
        "diameter"@ != "purchaseUrl"@, "diameter"@ != "type"@, "diameter"@ != "wireFinish"@,
        "diameter"@ != "metal"@, "diameter"@ != "lengthMm"@, "diameter"@ != "pricePerMeter"@,
        "diameter"@ != "colour"@, "diameter"@ != "quantity"@,
        "purchaseUrl"@ != "type"@, "purchaseUrl"@ != "wireFinish"@, "purchaseUrl"@ != "metal"@,
        "purchaseUrl"@ != "lengthMm"@, "purchaseUrl"@ != "pricePerMeter"@,
        "purchaseUrl"@ != "colour"@, "purchaseUrl"@ != "quantity"@,
        "type"@ != "wireFinish"@, "type"@ != "metal"@, "type"@ != "lengthMm"@,
        "type"@ != "pricePerMeter"@, "type"@ != "colour"@, "type"@ != "quantity"@,
        "wireFinish"@ != "metal"@, "wireFinish"@ != "lengthMm"@,
        "wireFinish"@ != "pricePerMeter"@, "wireFinish"@ != "colour"@,
        "wireFinish"@ != "quantity"@,
        "metal"@ != "lengthMm"@, "metal"@ != "pricePerMeter"@, "metal"@ != "colour"@,
        "metal"@ != "quantity"@,
        "lengthMm"@ != "pricePerMeter"@, "lengthMm"@ != "colour"@, "lengthMm"@ != "quantity"@,
        "pricePerMeter"@ != "colour"@, "pricePerMeter"@ != "quantity"@,
        "colour"@ != "quantity"@,
{
    reveal_strlit("name");
    reveal_strlit("brand");
    reveal_strlit("diameter");
    reveal_strlit("purchaseUrl");
    reveal_strlit("type");
    reveal_strlit("wireFinish");
    reveal_strlit("metal");
    reveal_strlit("lengthMm");
    reveal_strlit("pricePerMeter");
    reveal_strlit("colour");
    reveal_strlit("quantity");
    assert("name"@.len() == 4);
    assert("brand"@.len() == 5);
    assert("diameter"@.len() == 8);
    assert("purchaseUrl"@.len() == 11);
    assert("type"@.len() == 4);
    assert("wireFinish"@.len() == 10);
    assert("metal"@.len() == 5);
    assert("lengthMm"@.len() == 8);
    assert("pricePerMeter"@.len() == 13);
    assert("colour"@.len() == 6);
    assert("quantity"@.len() == 8);
    assert("name"@[0] != "type"@[0]);
    assert("brand"@[0] != "metal"@[0]);
    assert("diameter"@[0] != "lengthMm"@[0]);
    assert("diameter"@[0] != "quantity"@[0]);
    assert("lengthMm"@[0] != "quantity"@[0]);
}

/// A kind is read back from its own name.
pub proof fn lemma_material_type_name(kind: MaterialType)
    ensures
        parse_material_type(material_type_text(kind)) == Some(kind),
{
    reveal_strlit("WIRE");
    reveal_strlit("BEAD");
    assert("WIRE"@[0] != "BEAD"@[0]);
}

/// A finish is read back from its own name.
pub proof fn lemma_wire_type_name(finish: WireType)
    ensures
        parse_wire_type(wire_type_text(finish)) == Some(finish),
{
    reveal_strlit("FULL");
    reveal_strlit("FILLED");
    reveal_strlit("PLATED");
    assert("FULL"@.len() == 4);
    assert("FILLED"@.len() == 6);
    assert("PLATED"@.len() == 6);
    assert("FILLED"@[0] != "PLATED"@[0]);
}

/// A metal is read back from its own name.
pub proof fn lemma_metal_type_name(metal: MetalType)
    ensures
        parse_metal_type(metal_type_text(metal)) == Some(metal),
{
    reveal_strlit("BRASS");
    reveal_strlit("COPPER");
    reveal_strlit("SILVER");
    reveal_strlit("GOLD");
    assert("BRASS"@.len() == 5);
    assert("COPPER"@.len() == 6);
    assert("SILVER"@.len() == 6);
    assert("GOLD"@.len() == 4);
    assert("COPPER"@[0] != "SILVER"@[0]);
}

/// The record of a material holds its kind under `type`: the name of a wire
/// for a wire, that of a bead for a bead, whatever kind the value declares.
pub proof fn lemma_encode_type_field(material: MaterialModel)
    ensures
        lookup(encode_spec(material), "type"@) == Some(
            JsonModel::Text(material_type_text(material.kind())),
        ),
        material is Wire ==> text_at(encode_spec(material), "type"@) == Some("WIRE"@),
        material is Bead ==> text_at(encode_spec(material), "type"@) == Some("BEAD"@),
{
    lemma_keys_differ();
    lemma_lookup_at(encode_spec(material), "type"@, 4);
}

/// Reading what was written gives the material back, for every material
/// whose declared kind agrees with its shape. Every well-formed material is
/// such a one.
pub proof fn lemma_round_trip(material: Material)
    requires
        material@.kind_consistent(),
    ensures
        decode_spec(encode_spec(material@)) == Ok::<MaterialModel, DecodeErrorModel>(material@),
{
    let m = material@;
    let fields = encode_spec(m);
    lemma_keys_differ();
    lemma_material_type_name(m.kind());
    lemma_lookup_at(fields, "name"@, 0);
    lemma_lookup_at(fields, "brand"@, 1);
    lemma_lookup_at(fields, "diameter"@, 2);
    lemma_lookup_at(fields, "purchaseUrl"@, 3);
    lemma_lookup_at(fields, "type"@, 4);
    match m {
        MaterialModel::Wire(w) => {
            lemma_wire_type_name(w.wire_type);
            lemma_metal_type_name(w.metal_type);
            lemma_lookup_at(fields, "wireFinish"@, 5);
            lemma_lookup_at(fields, "metal"@, 6);
            lemma_lookup_at(fields, "lengthMm"@, 7);
            lemma_lookup_at(fields, "pricePerMeter"@, 8);
        },
        MaterialModel::Bead(b) => {
            lemma_lookup_none(fields, "wireFinish"@);
            lemma_lookup_at(fields, "colour"@, 5);
            lemma_lookup_at(fields, "quantity"@, 6);
        },
    }
}

/// Reading goes by what stands first under each key and by nothing else:
/// two records that agree on that are read alike, whatever the order of
/// their fields and whatever they hold besides.
pub proof fn lemma_decode_by_lookup(first: Seq<FieldModel>, second: Seq<FieldModel>)
    requires
        forall|key: Seq<char>| lookup(first, key) == lookup(second, key),
    ensures
        decode_spec(first) == decode_spec(second),
{
}

/// A record that lacks one shared attribute, while those read before it are
/// there and can be read, is refused as missing that attribute.
pub proof fn lemma_missing_base_field(fields: Seq<FieldModel>, i: int)
    requires
        lacks_base_field(fields, i),
    ensures
        decode_spec(fields) == Err::<MaterialModel, DecodeErrorModel>(
            DecodeErrorModel::MissingField { field: base_keys()[i] },
        ),
{
    assert(i > 0 ==> base_field_ok(fields, 0));
    assert(i > 1 ==> base_field_ok(fields, 1));
    assert(i > 2 ==> base_field_ok(fields, 2));
    assert(i > 3 ==> base_field_ok(fields, 3));
}

/// A record with the shared attributes and the four keys of a wire, whose
/// metal is a text that names no metal, is refused with that text, whatever
/// else it holds.
pub proof fn lemma_unknown_metal(fields: Seq<FieldModel>, value: Seq<char>)
    requires
        has_unknown_metal(fields, value),
    ensures
        decode_spec(fields) == Err::<MaterialModel, DecodeErrorModel>(
            DecodeErrorModel::InvalidEnumValue { field: "metal"@, value },
        ),
{
}

/// A record whose first four shared attributes can be read and whose kind is
/// a text that names no kind is refused with that text.
pub proof fn lemma_unknown_kind(fields: Seq<FieldModel>, value: Seq<char>)
    requires
        forall|j: int| 0 <= j < 4 ==> base_field_ok(fields, j),
        lookup(fields, "type"@) == Some(JsonModel::Text(value)),
        parse_material_type(value).is_none(),
    ensures
        decode_spec(fields) == Err::<MaterialModel, DecodeErrorModel>(
            DecodeErrorModel::InvalidEnumValue { field: "type"@, value },
        ),
{
    assert(base_field_ok(fields, 0));
    assert(base_field_ok(fields, 1));
    assert(base_field_ok(fields, 2));
    assert(base_field_ok(fields, 3));
}

/// A record with the shared attributes and the four keys of a wire, whose
/// finish is a text that names no finish, is refused with that text.
pub proof fn lemma_unknown_finish(fields: Seq<FieldModel>, value: Seq<char>)
    requires
        decode_base_spec(fields).is_ok(),
        has_wire_shape(fields),
        lookup(fields, "wireFinish"@) == Some(JsonModel::Text(value)),
        parse_wire_type(value).is_none(),
    ensures
        decode_spec(fields) == Err::<MaterialModel, DecodeErrorModel>(
            DecodeErrorModel::InvalidEnumValue { field: "wireFinish"@, value },
        ),
{
}

/// A record that holds the attributes of a wire is read as a wire, also where
/// it holds those of a bead.
pub proof fn lemma_wire_before_bead(fields: Seq<FieldModel>)
    requires
        holds_wire(fields),
    ensures
        decode_spec(fields) is Ok,
        decode_spec(fields)->Ok_0 is Wire,
{
}

} // verus!
