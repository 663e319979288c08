//! Questionnaires that companies attach to their offers.

pub mod crud;
pub mod models;
pub mod routes;
