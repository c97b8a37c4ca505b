//! The envelopes in which the catalogue answers.

use vstd::prelude::*;
use crate::codec::{all_readable, decode_all, decode_spec, BatchError, DecodeErrorModel};
use crate::json::JsonObject;
use crate::model::{Design, Material, MaterialModel};

verus! {

/// An answer that carries a message only.
#[derive(Debug, Clone, PartialEq, Eq)]
pub struct GenericResponse {
    pub status: String,
    pub message: String,
}

/// The answer to a request for the designs.
#[derive(Debug, Clone, PartialEq, Eq)]
pub struct GetDesignsResponse {
    pub status: i32,
    pub body: Vec<Design>,
}

/// The answer to a request for the materials.
#[derive(Debug, Clone, PartialEq, Eq)]
pub struct GetMaterialsResponse {
    pub status: i32,
    pub body: Vec<Material>,
}

impl GenericResponse {
    /// The answer of the health check.
    pub fn alive() -> (response: GenericResponse)
        ensures
            response.status@ == "success"@,
            response.message@ == "Alive and Kicking!"@,
    {
        GenericResponse {
            status: String::from_str("success"),
            message: String::from_str("Alive and Kicking!"),
        }
    }

    /// The answer once a material has been stored.
    pub fn material_added() -> (response: GenericResponse)
        ensures
            response.status@ == "success"@,
            response.message@ == "Added Material successfully"@,
    {
        GenericResponse {
            status: String::from_str("success"),
            message: String::from_str("Added Material successfully"),
        }
    }
}

impl GetDesignsResponse {
    /// The designs found, under the status 200.
    pub fn found(designs: Vec<Design>) -> (response: GetDesignsResponse)
        ensures
            response.status == 200,
            response.body == designs,
    {
        GetDesignsResponse { status: 200, body: designs }
    }
}

impl GetMaterialsResponse {
    /// The materials found, under the status 200.
    pub fn found(materials: Vec<Material>) -> (response: GetMaterialsResponse)
        ensures
            response.status == 200,
            response.body == materials,
    {
        GetMaterialsResponse { status: 200, body: materials }
    }

    /// The answer for the stored records: all of them read, in their order,
    /// under the status 200, or the first that could not be read.
    pub fn from_records(records: &Vec<JsonObject>) -> (answer: Result<
        GetMaterialsResponse,
        BatchError,
    >)
        ensures
            match answer {
                Ok(response) => {
                    &&& response.status == 200
                    &&& response.body@.len() == records@.len()
                    &&& forall|i: int|
                        0 <= i < records@.len() ==> decode_spec(#[trigger] records@[i]@) == Ok::<
                            MaterialModel,
                            DecodeErrorModel,
                        >(response.body@[i]@)
                },
                Err(failure) => {
                    &&& failure.index < records@.len()
                    &&& all_readable(records@, failure.index as int)
                    &&& decode_spec(records@[failure.index as int]@) == Err::<
                        MaterialModel,
                        DecodeErrorModel,
                    >(failure.error@)
                },
            },
    {
        match decode_all(records) {
            Ok(materials) => Ok(GetMaterialsResponse::found(materials)),
            Err(failure) => Err(failure),
        }
    }
}

} // verus!
