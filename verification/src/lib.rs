//! Core of a package registry that speaks the Cargo protocol: the error
//! taxonomy, the authentication model, the publication pipeline, the
//! dependency resolver and the decisions of the transactional store.

pub mod apierror;
pub mod auth;
pub mod cargo;
pub mod cargo_values;
pub mod database;
pub mod envelope;
pub mod extractors;
pub mod hashes;
pub mod json;
pub mod resolver;
pub mod response;
pub mod string_map;
pub mod text;
