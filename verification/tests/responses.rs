use api::codec::{BatchError, DecodeError};
use api::json::{JsonObject, JsonValue};
use api::model::{Design, Material};
use api::response::{GenericResponse, GetDesignsResponse, GetMaterialsResponse};

fn bead_record(quantity: i64) -> JsonObject {
    let mut object = JsonObject::new();
    object.push("name", JsonValue::Text("Red seed".to_string()));
    object.push("brand", JsonValue::Text("Acme".to_string()));
    object.push("diameter", JsonValue::Int(2));
    object.push("purchaseUrl", JsonValue::Text("http://x".to_string()));
    object.push("type", JsonValue::Text("BEAD".to_string()));
    object.push("colour", JsonValue::Text("red".to_string()));
    object.push("quantity", JsonValue::Int(quantity));
    object
}

#[test]
fn the_health_check_is_alive() {
    let response = GenericResponse::alive();
    assert_eq!(response.status, "success");
    assert_eq!(response.message, "Alive and Kicking!");
}

#[test]
fn an_added_material_is_acknowledged() {
    let response = GenericResponse::material_added();
    assert_eq!(response.status, "success");
    assert_eq!(response.message, "Added Material successfully");
}

#[test]
fn designs_are_answered_with_200() {
    let design = Design::new("silver".to_string(), "12.50".to_string(), "ring".to_string());
    assert_eq!(design.material(), "silver");
    assert_eq!(design.price(), "12.50");
    assert_eq!(design.name(), "ring");
    let response = GetDesignsResponse::found(vec![design.clone()]);
    assert_eq!(response.status, 200);
    assert_eq!(response.body, vec![design]);
}

#[test]
fn materials_are_answered_with_200() {
    let response = GetMaterialsResponse::from_records(&vec![bead_record(1), bead_record(2)])
        .unwrap();
    assert_eq!(response.status, 200);
    let quantities: Vec<i32> = response
        .body
        .iter()
        .map(|m| match m {
            Material::Bead(b) => b.quantity,
            Material::Wire(_) => -1,
        })
        .collect();
    assert_eq!(quantities, vec![1, 2]);
    let same = GetMaterialsResponse::found(response.body.clone());
    assert_eq!(same, response);
}

#[test]
fn one_bad_record_fails_the_whole_answer() {
    let mut bad = bead_record(3);
    bad.fields.remove(6);
    let answer = GetMaterialsResponse::from_records(&vec![bead_record(1), bad, bead_record(2)]);
    assert_eq!(
        answer,
        Err(BatchError { index: 1, error: DecodeError::UnrecognizedVariant })
    );
}
