//! Domain logic of a job board: candidates and companies sign up and log in,
//! companies post offers and questionnaires, candidates apply to offers.
//! Storage, HTTP and file uploads live in the application around this crate.

use vstd::prelude::*;

pub mod candidacies;
pub mod config;
pub mod credentials;
pub mod form;
pub mod graph;
pub mod greet;
pub mod homepage;
pub mod ids;
pub mod offer;
pub mod questionnaires;
pub mod text;
pub mod users;
pub mod utils;

verus! {

/// An HTTP error answer: a status code and a message.
pub type HttpError = (u16, String);

} // verus!
