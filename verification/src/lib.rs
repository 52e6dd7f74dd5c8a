//! A client-side model of a Chroma collection: the request paths and bodies
//! that each collection operation sends, and the validation that `add`,
//! `upsert` and `update` run on their records before anything is sent.

pub mod json;
pub mod validation;
pub mod collection;
pub mod laws;
