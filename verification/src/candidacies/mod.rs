//! Candidacies: a candidate applies to an offer.

pub mod crud;
pub mod models;
pub mod routes;
