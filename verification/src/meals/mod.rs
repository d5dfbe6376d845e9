//! The meals service: dishes, meals, the nutrition lookup and the diet filter.

pub mod diet_client;
pub mod diet_filter;
pub mod dishes_routes;
pub mod meals_routes;
pub mod models;
pub mod ninjas_api;
