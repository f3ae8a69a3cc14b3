//! The REST surface that is generated from the collections' schemas.

pub mod generator;
pub mod openapi_doc;
pub mod openapi_gen;
