//! The diets service.

pub mod diets_routes;
pub mod models;
