//! An in-memory todo collection with verified CRUD semantics.
//!
//! `model` holds the record types and the specification vocabulary,
//! `store` the collection itself, and `handlers` the mapping from
//! store results to HTTP status codes and response bodies.

pub mod handlers;
pub mod model;
pub mod store;
