use api::codec::{decode, decode_all, decode_base, encode, BatchError, DecodeError};
use api::json::{Field, JsonObject, JsonValue};
use api::model::{
    BaseMaterialType, Bead, Material, MaterialType, MetalType, Wire, WireType,
};

fn text(s: &str) -> JsonValue {
    JsonValue::Text(s.to_string())
}

fn object(fields: Vec<(&str, JsonValue)>) -> JsonObject {
    let mut object = JsonObject::new();
    for (key, value) in fields {
        object.push(key, value);
    }
    object
}

fn gold_wire_fields() -> Vec<(&'static str, JsonValue)> {
    vec![
        ("name", text("Gold 24ga")),
        ("brand", text("Acme")),
        ("diameter", JsonValue::Int(1)),
        ("purchaseUrl", text("http://x")),
        ("type", text("WIRE")),
        ("wireFinish", text("FULL")),
        ("metal", text("GOLD")),
        ("lengthMm", JsonValue::Int(500)),
        ("pricePerMeter", JsonValue::Int(120)),
    ]
}

fn red_bead_fields() -> Vec<(&'static str, JsonValue)> {
    vec![
        ("name", text("Red seed")),
        ("brand", text("Acme")),
        ("diameter", JsonValue::Int(2)),
        ("purchaseUrl", text("http://x")),
        ("type", text("BEAD")),
        ("colour", text("red")),
        ("quantity", JsonValue::Int(50)),
    ]
}

fn without(fields: Vec<(&'static str, JsonValue)>, key: &str) -> JsonObject {
    object(fields.into_iter().filter(|(k, _)| *k != key).collect())
}

fn with(
    fields: Vec<(&'static str, JsonValue)>,
    key: &'static str,
    value: JsonValue,
) -> JsonObject {
    object(
        fields
            .into_iter()
            .map(|(k, v)| if k == key { (k, value.clone()) } else { (k, v) })
            .collect(),
    )
}

fn gold_wire() -> Material {
    Material::Wire(Wire {
        base_material_type: BaseMaterialType {
            name: "Gold 24ga".to_string(),
            brand: "Acme".to_string(),
            diameter: 1,
            purchase_url: "http://x".to_string(),
            material_type: MaterialType::WIRE,
        },
        wire_type: WireType::FULL,
        metal_type: MetalType::GOLD,
        length: 500,
        price_per_meter: 120,
    })
}

fn red_bead() -> Material {
    Material::Bead(Bead {
        base_material_type: BaseMaterialType {
            name: "Red seed".to_string(),
            brand: "Acme".to_string(),
            diameter: 2,
            purchase_url: "http://x".to_string(),
            material_type: MaterialType::BEAD,
        },
        colour: "red".to_string(),
        quantity: 50,
    })
}

fn missing(field: &str) -> DecodeError {
    DecodeError::MissingField { field: field.to_string() }
}

#[test]
fn gold_wire_record_decodes_to_a_wire() {
    let decoded = decode(&object(gold_wire_fields())).unwrap();
    match &decoded {
        Material::Wire(w) => {
            assert_eq!(w.metal_type, MetalType::GOLD);
            assert_eq!(w.length, 500);
        }
        Material::Bead(_) => panic!("a bead came out"),
    }
    assert_eq!(decoded, gold_wire());
}

#[test]
fn gold_wire_encodes_to_exactly_nine_fields() {
    let decoded = decode(&object(gold_wire_fields())).unwrap();
    let written = encode(&decoded);
    assert_eq!(written.len(), 9);
    assert_eq!(written, object(gold_wire_fields()));
    let keys: Vec<&str> = written.fields.iter().map(|f| f.key.as_str()).collect();
    assert_eq!(
        keys,
        vec![
            "name", "brand", "diameter", "purchaseUrl", "type", "wireFinish", "metal",
            "lengthMm", "pricePerMeter"
        ]
    );
}

#[test]
fn red_bead_record_decodes_to_a_bead() {
    let decoded = decode(&object(red_bead_fields())).unwrap();
    match &decoded {
        Material::Bead(b) => assert_eq!(b.quantity, 50),
        Material::Wire(_) => panic!("a wire came out"),
    }
    assert_eq!(decoded, red_bead());
}

#[test]
fn bead_encodes_to_exactly_seven_fields() {
    let written = encode(&red_bead());
    assert_eq!(written.len(), 7);
    assert_eq!(written, object(red_bead_fields()));
}

#[test]
fn round_trip_gives_the_value_back() {
    for material in [gold_wire(), red_bead()] {
        assert_eq!(decode(&encode(&material)), Ok(material));
    }
    let mut n = 0;
    for wire_type in [WireType::FULL, WireType::FILLED, WireType::PLATED] {
        for metal_type in
            [MetalType::BRASS, MetalType::COPPER, MetalType::SILVER, MetalType::GOLD]
        {
            n += 1;
            let wire = Material::Wire(Wire {
                base_material_type: BaseMaterialType {
                    name: format!("wire {}", n),
                    brand: String::new(),
                    diameter: n,
                    purchase_url: "https://example.org/w".to_string(),
                    material_type: MaterialType::WIRE,
                },
                wire_type,
                metal_type,
                length: i32::MAX,
                price_per_meter: 0,
            });
            assert!(wire.is_valid());
            assert_eq!(decode(&encode(&wire)), Ok(wire));
        }
    }
}

#[test]
fn round_trip_keeps_extreme_numbers() {
    let bead = Material::Bead(Bead {
        base_material_type: BaseMaterialType {
            name: "n".to_string(),
            brand: "b".to_string(),
            diameter: i32::MIN,
            purchase_url: "u".to_string(),
            material_type: MaterialType::BEAD,
        },
        colour: "blå".to_string(),
        quantity: i32::MAX,
    });
    assert!(!bead.is_valid());
    assert_eq!(decode(&encode(&bead)), Ok(bead));
}

#[test]
fn encode_writes_the_kind_of_the_shape() {
    let wire = encode(&gold_wire());
    assert_eq!(wire.get("type"), Some(&text("WIRE")));
    let bead = encode(&red_bead());
    assert_eq!(bead.get("type"), Some(&text("BEAD")));
    assert_eq!(wire.get("kind"), None);
}

#[test]
fn encode_writes_the_kind_of_the_shape_over_the_declared_kind() {
    let mut mislabelled = match red_bead() {
        Material::Bead(b) => b,
        Material::Wire(_) => unreachable!(),
    };
    mislabelled.base_material_type.material_type = MaterialType::WIRE;
    let material = Material::Bead(mislabelled);
    assert!(!material.is_valid());
    assert_eq!(material.kind(), MaterialType::BEAD);
    assert_eq!(encode(&material).get("type"), Some(&text("BEAD")));
    assert_eq!(decode(&encode(&material)), Ok(red_bead()));
}

#[test]
fn each_missing_base_field_is_named() {
    for key in ["name", "brand", "diameter", "purchaseUrl", "type"] {
        assert_eq!(decode(&without(gold_wire_fields(), key)), Err(missing(key)));
        assert_eq!(decode(&without(red_bead_fields(), key)), Err(missing(key)));
        assert_eq!(decode_base(&without(red_bead_fields(), key)), Err(missing(key)));
    }
}

#[test]
fn the_first_missing_base_field_is_named() {
    let object = without(red_bead_fields(), "brand");
    let object = JsonObject {
        fields: object.fields.into_iter().filter(|f| f.key != "type").collect(),
    };
    assert_eq!(decode(&object), Err(missing("brand")));
    assert_eq!(decode(&JsonObject::new()), Err(missing("name")));
}

#[test]
fn a_base_field_of_the_wrong_type_counts_as_missing() {
    assert_eq!(
        decode(&with(gold_wire_fields(), "name", JsonValue::Int(3))),
        Err(missing("name"))
    );
    assert_eq!(
        decode(&with(gold_wire_fields(), "diameter", text("1"))),
        Err(missing("diameter"))
    );
    assert_eq!(
        decode(&with(gold_wire_fields(), "diameter", JsonValue::Int(2147483648))),
        Err(missing("diameter"))
    );
    assert_eq!(
        decode(&with(gold_wire_fields(), "diameter", JsonValue::Opaque)),
        Err(missing("diameter"))
    );
    assert_eq!(
        decode(&with(gold_wire_fields(), "purchaseUrl", JsonValue::Null)),
        Err(missing("purchaseUrl"))
    );
    assert_eq!(
        decode(&with(gold_wire_fields(), "brand", JsonValue::Bool(true))),
        Err(missing("brand"))
    );
}

#[test]
fn titanium_is_no_metal() {
    assert_eq!(
        decode(&with(gold_wire_fields(), "metal", text("TITANIUM"))),
        Err(DecodeError::InvalidEnumValue {
            field: "metal".to_string(),
            value: "TITANIUM".to_string()
        })
    );
}

#[test]
fn enumerations_match_case_sensitively() {
    assert_eq!(
        decode(&with(gold_wire_fields(), "metal", text("gold"))),
        Err(DecodeError::InvalidEnumValue {
            field: "metal".to_string(),
            value: "gold".to_string()
        })
    );
    assert_eq!(
        decode(&with(gold_wire_fields(), "wireFinish", text("Full"))),
        Err(DecodeError::InvalidEnumValue {
            field: "wireFinish".to_string(),
            value: "Full".to_string()
        })
    );
    assert_eq!(
        decode(&with(red_bead_fields(), "type", text("bead"))),
        Err(DecodeError::InvalidEnumValue {
            field: "type".to_string(),
            value: "bead".to_string()
        })
    );
}

#[test]
fn an_enumeration_that_is_no_text_is_a_type_mismatch() {
    for key in ["type", "wireFinish", "metal"] {
        assert_eq!(
            decode(&with(gold_wire_fields(), key, JsonValue::Int(1))),
            Err(DecodeError::TypeMismatch {
                field: key.to_string(),
                expected: "string".to_string()
            })
        );
    }
}

#[test]
fn every_enumeration_name_is_read() {
    assert_eq!(MaterialType::from_name(&"WIRE".to_string()), Some(MaterialType::WIRE));
    assert_eq!(MaterialType::from_name(&"BEAD".to_string()), Some(MaterialType::BEAD));
    assert_eq!(MaterialType::from_name(&"".to_string()), None);
    assert_eq!(WireType::from_name(&"FULL".to_string()), Some(WireType::FULL));
    assert_eq!(WireType::from_name(&"FILLED".to_string()), Some(WireType::FILLED));
    assert_eq!(WireType::from_name(&"PLATED".to_string()), Some(WireType::PLATED));
    assert_eq!(WireType::from_name(&"PLATE".to_string()), None);
    assert_eq!(MetalType::from_name(&"BRASS".to_string()), Some(MetalType::BRASS));
    assert_eq!(MetalType::from_name(&"COPPER".to_string()), Some(MetalType::COPPER));
    assert_eq!(MetalType::from_name(&"SILVER".to_string()), Some(MetalType::SILVER));
    assert_eq!(MetalType::from_name(&"GOLD".to_string()), Some(MetalType::GOLD));
    assert_eq!(MetalType::from_name(&"GOLD ".to_string()), None);
    assert_eq!(MetalType::SILVER.name(), "SILVER");
    assert_eq!(WireType::PLATED.name(), "PLATED");
    assert_eq!(MaterialType::BEAD.name(), "BEAD");
}

#[test]
fn both_shapes_at_once_are_read_as_a_wire() {
    let mut fields = gold_wire_fields();
    fields.push(("colour", text("red")));
    fields.push(("quantity", JsonValue::Int(50)));
    assert_eq!(decode(&object(fields)), Ok(gold_wire()));

    let mut fields = red_bead_fields();
    fields.push(("wireFinish", text("FULL")));
    fields.push(("metal", text("GOLD")));
    fields.push(("lengthMm", JsonValue::Int(500)));
    fields.push(("pricePerMeter", JsonValue::Int(120)));
    match decode(&object(fields)).unwrap() {
        Material::Wire(w) => {
            assert_eq!(w.base_material_type.material_type, MaterialType::BEAD);
            assert_eq!(w.base_material_type.name, "Red seed");
        }
        Material::Bead(_) => panic!("a bead came out"),
    }
}

#[test]
fn neither_shape_is_unrecognized() {
    assert_eq!(
        decode(&without(red_bead_fields(), "colour")),
        Err(DecodeError::UnrecognizedVariant)
    );
    assert_eq!(
        decode(&without(gold_wire_fields(), "lengthMm")),
        Err(DecodeError::UnrecognizedVariant)
    );
    assert_eq!(
        decode(&with(gold_wire_fields(), "lengthMm", text("500"))),
        Err(DecodeError::UnrecognizedVariant)
    );
    assert_eq!(
        decode(&with(red_bead_fields(), "quantity", JsonValue::Int(-2147483649))),
        Err(DecodeError::UnrecognizedVariant)
    );
}

#[test]
fn a_bead_with_part_of_a_wire_is_a_bead() {
    let mut fields = red_bead_fields();
    fields.push(("metal", text("TITANIUM")));
    assert_eq!(decode(&object(fields)), Ok(red_bead()));
}

#[test]
fn a_wire_with_an_unreadable_length_falls_back_to_the_bead() {
    let mut fields = red_bead_fields();
    fields.push(("wireFinish", text("FULL")));
    fields.push(("metal", text("GOLD")));
    fields.push(("lengthMm", JsonValue::Opaque));
    fields.push(("pricePerMeter", JsonValue::Int(120)));
    assert_eq!(decode(&object(fields)), Ok(red_bead()));
}

#[test]
fn the_first_of_two_fields_with_one_key_counts() {
    let mut fields = red_bead_fields();
    fields.push(("quantity", JsonValue::Int(7)));
    let object = object(fields);
    assert_eq!(object.get("quantity"), Some(&JsonValue::Int(50)));
    assert_eq!(decode(&object), Ok(red_bead()));
}

#[test]
fn get_finds_nothing_in_an_empty_object() {
    let empty = JsonObject::new();
    assert_eq!(empty.len(), 0);
    assert_eq!(empty.get("name"), None);
    let mut one = JsonObject::new();
    one.push("a", JsonValue::Null);
    assert_eq!(one.fields, vec![Field { key: "a".to_string(), value: JsonValue::Null }]);
    assert_eq!(one.get("a"), Some(&JsonValue::Null));
    assert_eq!(one.get("A"), None);
}

#[test]
fn decode_all_reads_every_record_in_order() {
    let records = vec![object(red_bead_fields()), object(gold_wire_fields())];
    assert_eq!(decode_all(&records), Ok(vec![red_bead(), gold_wire()]));
    assert_eq!(decode_all(&Vec::new()), Ok(Vec::new()));
}

#[test]
fn decode_all_stops_at_the_first_bad_record() {
    let records = vec![
        object(red_bead_fields()),
        without(gold_wire_fields(), "brand"),
        with(gold_wire_fields(), "metal", text("TITANIUM")),
    ];
    assert_eq!(
        decode_all(&records),
        Err(BatchError { index: 1, error: missing("brand") })
    );
}

#[test]
fn validity_follows_the_ranges() {
    assert!(gold_wire().is_valid());
    assert!(red_bead().is_valid());
    let mut wire = match gold_wire() {
        Material::Wire(w) => w,
        Material::Bead(_) => unreachable!(),
    };
    wire.length = 0;
    assert!(!Material::Wire(wire.clone()).is_valid());
    wire.length = 1;
    wire.price_per_meter = -1;
    assert!(!Material::Wire(wire.clone()).is_valid());
    wire.price_per_meter = 0;
    assert!(Material::Wire(wire.clone()).is_valid());
    wire.base_material_type.diameter = 0;
    assert!(!Material::Wire(wire).is_valid());
    assert_eq!(gold_wire().base().name, "Gold 24ga");
    assert_eq!(gold_wire().kind(), MaterialType::WIRE);
}

#[test]
fn constructors_make_valid_values_only() {
    let wire = Material::wire(
        "Gold 24ga".to_string(),
        "Acme".to_string(),
        1,
        "http://x".to_string(),
        WireType::FULL,
        MetalType::GOLD,
        500,
        120,
    );
    assert_eq!(wire, Some(gold_wire()));
    let bead = Material::bead(
        "Red seed".to_string(),
        "Acme".to_string(),
        2,
        "http://x".to_string(),
        "red".to_string(),
        50,
    );
    assert_eq!(bead, Some(red_bead()));
    let s = String::new;
    assert_eq!(Material::bead(s(), s(), 0, s(), s(), 0), None);
    assert_eq!(Material::bead(s(), s(), 1, s(), s(), -1), None);
    assert!(Material::bead(s(), s(), 1, s(), s(), 0).is_some());
    assert_eq!(
        Material::wire(s(), s(), 1, s(), WireType::PLATED, MetalType::BRASS, 0, 0),
        None
    );
    assert_eq!(
        Material::wire(s(), s(), 1, s(), WireType::PLATED, MetalType::BRASS, 1, -1),
        None
    );
    assert!(Material::wire(s(), s(), 1, s(), WireType::PLATED, MetalType::BRASS, 1, 0).is_some());
}

#[test]
fn the_order_of_the_fields_does_not_matter() {
    let mut fields = gold_wire_fields();
    fields.reverse();
    fields.insert(3, ("_id", JsonValue::Opaque));
    assert_eq!(decode(&object(fields)), Ok(gold_wire()));
}

#[test]
fn every_error_says_what_is_wrong() {
    assert_eq!(missing("brand").message(), "missing field `brand`");
    assert_eq!(
        DecodeError::TypeMismatch { field: "metal".to_string(), expected: "string".to_string() }
            .message(),
        "field `metal` must be a string"
    );
    assert_eq!(
        DecodeError::InvalidEnumValue {
            field: "metal".to_string(),
            value: "TITANIUM".to_string()
        }
        .message(),
        "field `metal` has the unknown value `TITANIUM`"
    );
    assert_eq!(
        DecodeError::UnrecognizedVariant.message(),
        "the record is neither a wire nor a bead"
    );
}
