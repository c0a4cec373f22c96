//! A typed client core for a paginated REST service with a uniform
//! success/error response envelope.
//!
//! The verified library holds the request/response pipeline logic: the
//! envelope decoder, the error taxonomy, status classification, query
//! assembly, and the cursor-based pagination state machine. The network
//! itself is driven by an unverified shell around this crate.

use vstd::prelude::*;

pub mod envelope;
pub mod errors;
pub mod models;
pub mod paginator;
pub mod pulling;
pub mod transport;

verus! {

use crate::errors::ClientError;

/// Timeout applied to every request, in seconds.
pub const REQUEST_TIMEOUT_SECS: u64 = 5;

/// Default base URL of the remote service.
pub const BASE_URL: &'static str = "https://bonus.ly/api/v1";

/// Default number of items requested per page fetch.
pub const PAGE_SIZE: usize = 20;

/// Name of the process environment variable holding the access token.
pub const TOKEN_ENV_VAR: &'static str = "BONUSLY_TOKEN";

/// Decide whether an environment lookup of the access token yielded a
/// credential: the token found, or a `Configuration` error where the
/// variable was absent — never a panic. The lookup itself is performed
/// by the unverified shell, which hands its outcome here.
pub fn token_from_env(lookup: Option<String>) -> (r: Result<String, ClientError>)
    ensures
        lookup is Some ==> r == Ok::<String, ClientError>(lookup->0),
        lookup is None ==> (r matches Err(e) && e matches ClientError::Configuration(m) && m@
            == "Missing env var: BONUSLY_TOKEN"@),
{
    match lookup {
        Some(token) => Ok(token),
        None => Err(ClientError::Configuration("Missing env var: BONUSLY_TOKEN".to_owned())),
    }
}

} // verus!
