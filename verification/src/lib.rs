//! The request-handling core of a small family of REST services for dishes,
//! meals and diets: request validation, routing, the error taxonomy with its
//! HTTP status codes, nutrition aggregation, diet filtering, and the
//! per-request decision flow that drives the store and the remote services.

pub mod diets;
pub mod errors;
pub mod flow;
pub mod laws;
pub mod local;
pub mod meals;
pub mod memory;
pub mod protocol;
pub mod records;
pub mod routing;
pub mod service;
pub mod store;
pub mod store_laws;
pub mod validation;
pub mod world;
