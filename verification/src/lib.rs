//! A catalogue of jewellery-making materials and designs.
//!
//! The heart of the crate is the material model, a closed choice between a
//! wire and a bead, together with the codec that writes a material as one flat
//! JSON object and reads it back by the shape of the object.
//!
//! - [`model`]: the materials and the designs.
//! - [`json`]: flat JSON objects, the raw records.
//! - [`codec`]: a material as a record, and a record as a material.
//! - [`laws`]: what holds of the codec for every material and every record.
//! - [`body`]: a material as the bytes of a request or a reply.
//! - [`response`]: the envelopes in which the catalogue answers.
//! - [`upload`]: the decisions of an image upload.

pub mod body;
pub mod codec;
pub mod json;
pub mod laws;
pub mod model;
pub mod response;
pub mod upload;
