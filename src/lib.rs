//! A small movie catalogue service: the record model, request schemas, an in-memory
//! table with the storage rules, and the request-handling decisions of each endpoint.
pub mod model;
pub mod schema;
pub mod table;
pub mod handlers;
pub mod service;
pub mod laws;
