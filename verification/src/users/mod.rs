//! Candidates and companies: sign-up, storage and login.

pub mod crud;
pub mod models;
pub mod routes;
