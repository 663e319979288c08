//! The settings of the storage services.

use vstd::prelude::*;

verus! {

/// How to reach the S3 object store.
pub struct S3Settings {
    pub aws_access_key_id: String,
    pub aws_secret_access_key: String,
    pub aws_region: String,
    pub s3_endpoint: Option<String>,
}

/// How to reach the Neo4j database.
pub struct Neo4jSettings {
    pub uri: String,
    pub username: String,
    pub password: String,
}

} // verus!
