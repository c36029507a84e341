//! The connection descriptor for the remote service: resolved once at
//! startup (outside the library) and immutable for the process
//! lifetime.

use vstd::prelude::*;

verus! {

/// What a session needs to reach the remote service.
#[derive(Debug, Clone)]
pub struct JiraConfig {
    pub base_url: String,
    pub email: String,
    pub api_token: String,
}

impl JiraConfig {
    /// Packs a connection descriptor.
    pub fn new(base_url: String, email: String, api_token: String) -> (r: Self)
        ensures
            r.base_url == base_url,
            r.email == email,
            r.api_token == api_token,
    {
        JiraConfig { base_url, email, api_token }
    }
}

} // verus!
