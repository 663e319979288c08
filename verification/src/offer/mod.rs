//! Job offers that companies post.

pub mod crud;
pub mod models;
pub mod routes;
