//! Pure logic of the request/response pipeline: status classification,
//! response evaluation, URL and credential assembly, and the reserved
//! query keys the pagination engine owns.
//!
//! The network call itself is performed by an unverified shell; it hands
//! this module the status code and the decoded envelope (when the body
//! could be parsed) and receives the typed result or classified error.

use vstd::prelude::*;

verus! {

use vstd::string::StringExecFns;
use vstd::string::StringSliceAdditionalSpecFns;
use crate::envelope::{decodes_to, decode_envelope, Envelope};
use crate::errors::ClientError;

/// Detail text used when a response body does not parse as the envelope.
pub const INVALID_BODY_TEXT: &'static str = "response body is not a valid envelope";

/// The HTTP success range.
pub open spec fn is_success_status(status: u16) -> bool {
    200 <= status < 300
}

/// Classify an HTTP status: statuses in the success range pass, any
/// other becomes an `HttpStatus` error carrying the code.
pub fn check_status(status: u16) -> (r: Result<(), ClientError>)
    ensures
        is_success_status(status) ==> r == Ok::<(), ClientError>(()),
        !is_success_status(status) ==> r == Err::<(), ClientError>(ClientError::HttpStatus(status)),
{
    if 200 <= status && status < 300 {
        Ok(())
    } else {
        Err(ClientError::HttpStatus(status))
    }
}

/// Evaluate one response of the service: the status code together with
/// the envelope its body decoded to, or `None` where the body did not
/// parse as an envelope.
///
/// A status outside the success range short-circuits into `HttpStatus`,
/// whatever the body held; only on a success status is the envelope
/// consulted, an unparseable body becoming a `Decode` error and a parsed
/// envelope being unwrapped by the total decode mapping.
pub fn evaluate_response<T>(status: u16, body: Option<Envelope<T>>) -> (r: Result<T, ClientError>)
    ensures
        !is_success_status(status) ==> r == Err::<T, ClientError>(ClientError::HttpStatus(status)),
        is_success_status(status) && body is None ==> (r matches Err(e) && e matches
            ClientError::Decode(m) && m@ == INVALID_BODY_TEXT@),
        is_success_status(status) && body is Some ==> decodes_to(body->0, r),
        r is Ok ==> is_success_status(status) && body is Some,
{
    match check_status(status) {
        Err(e) => Err(e),
        Ok(()) => match body {
            None => Err(ClientError::Decode(INVALID_BODY_TEXT.to_owned())),
            Some(env) => decode_envelope(env),
        },
    }
}

/// Join the configured base URL and a request path.
pub fn request_url(base: &str, path: &str) -> (r: String)
    ensures
        r@ == base@ + path@,
{
    base.to_owned().concat(path)
}

/// Whether a byte may stand in an HTTP header value: horizontal tab or
/// any byte that is neither a control character nor delete.
pub open spec fn valid_header_byte(b: u8) -> bool {
    b == 9 || (32 <= b && b != 127)
}

/// Whether every byte of a credential token may stand in the
/// authorization header built from it.
pub open spec fn valid_header_token(bytes: Seq<u8>) -> bool {
    forall|i: int| 0 <= i < bytes.len() ==> valid_header_byte(#[trigger] bytes[i])
}

/// Build the bearer authorization header value for a credential token,
/// rejecting tokens that cannot stand in a header with a `Configuration`
/// error instead of failing.
pub fn bearer_header_value(token: &str) -> (r: Result<String, ClientError>)
    ensures
        r is Ok <==> valid_header_token(token.spec_bytes()),
        r matches Ok(v) ==> v@ == "Bearer "@ + token@,
        r matches Err(e) ==> e matches ClientError::Configuration(m) && m@
            == "token is not a valid header value"@,
{
    let bytes = token.as_bytes();
    let mut i: usize = 0;
    while i < bytes.len()
        invariant
            0 <= i <= bytes.len(),
            bytes@ == token.spec_bytes(),
            forall|j: int| 0 <= j < i ==> valid_header_byte(#[trigger] bytes@[j]),
        decreases bytes.len() - i,
    {
        let b = bytes[i];
        if !(b == 9 || (32 <= b && b != 127)) {
            return Err(ClientError::Configuration("token is not a valid header value".to_owned()));
        }
        i = i + 1;
    }
    Ok("Bearer ".to_owned().concat(token))
}

/// Connection configuration of one client instance. Immutable after
/// construction and safely shared read-only across any number of
/// concurrent requests; the unverified shell builds its HTTP client
/// from it.
pub struct ClientConfig {
    /// Every request goes against `base_url + path`.
    pub base_url: String,
    /// The full authorization header value. Sensitive: it must never be
    /// logged or included in error text.
    pub auth_header: String,
    /// Timeout enforced on every request, in seconds.
    pub timeout_secs: u64,
    /// Whether response compression is requested.
    pub compression_enabled: bool,
}

impl ClientConfig {
    /// Assemble the configuration for a given access token: the default
    /// base URL, the bearer authorization header built from the token,
    /// the fixed timeout, and compression on. A token that cannot stand
    /// in a header is a `Configuration` error, not a panic.
    pub fn new(token: &str) -> (r: Result<ClientConfig, ClientError>)
        ensures
            r is Ok <==> valid_header_token(token.spec_bytes()),
            r matches Ok(c) ==> c.auth_header@ == "Bearer "@ + token@ && c.base_url@
                == crate::BASE_URL@ && c.timeout_secs == crate::REQUEST_TIMEOUT_SECS
                && c.compression_enabled,
            r matches Err(e) ==> e matches ClientError::Configuration(m) && m@
                == "token is not a valid header value"@,
    {
        match bearer_header_value(token) {
            Ok(h) => Ok(
                ClientConfig {
                    base_url: crate::BASE_URL.to_owned(),
                    auth_header: h,
                    timeout_secs: crate::REQUEST_TIMEOUT_SECS,
                    compression_enabled: true,
                },
            ),
            Err(e) => Err(e),
        }
    }
}

/// The query keys owned by the pagination engine; callers of the
/// pagination entry point must never supply them.
pub open spec fn reserved_key(k: Seq<char>) -> bool {
    k == "skip"@ || k == "limit"@
}

/// Whether a caller-supplied query holds no reserved pagination key.
pub open spec fn no_reserved_keys(q: Seq<(String, String)>) -> bool {
    forall|i: int| 0 <= i < q.len() ==> !reserved_key(#[trigger] q[i].0@)
}

/// Check that a caller-supplied query leaves the pagination keys to the
/// core, rejecting a query that names `skip` or `limit` with a
/// `Configuration` error.
pub fn validate_user_params(params: &Vec<(String, String)>) -> (r: Result<(), ClientError>)
    ensures
        r is Ok <==> no_reserved_keys(params@),
        r matches Err(e) ==> e matches ClientError::Configuration(m) && m@
            == "the skip and limit query keys are reserved for paging"@,
{
    let skip_key: String = "skip".to_owned();
    let limit_key: String = "limit".to_owned();
    let mut i: usize = 0;
    while i < params.len()
        invariant
            0 <= i <= params@.len(),
            skip_key@ == "skip"@,
            limit_key@ == "limit"@,
            forall|j: int| 0 <= j < i ==> !reserved_key(#[trigger] params@[j].0@),
        decreases params@.len() - i,
    {
        let pair = &params[i];
        if pair.0 == skip_key || pair.0 == limit_key {
            return Err(
                ClientError::Configuration(
                    "the skip and limit query keys are reserved for paging".to_owned(),
                ),
            );
        }
        i = i + 1;
    }
    Ok(())
}

} // verus!
