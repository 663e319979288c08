//! Helpers shared by the modules.

pub mod s3;
