//! Settings of the backend, read from the environment by the server.

use vstd::prelude::*;

verus! {

/// Settings of the backend.
#[derive(Debug, Clone, PartialEq, Eq)]
pub struct Config {
    pub http_server_host: String,
    pub http_server_port: u16,
    pub db_url: String,
    pub jwt_secret: String,
    pub jwt_expires_hours: i64,
    pub llm_base_url: String,
    pub llm_model: String,
}

} // verus!
