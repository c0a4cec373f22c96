//! The closed set of failure kinds surfaced to callers.

use vstd::prelude::*;

verus! {

use vstd::string::StringExecFns;

/// Every failure of the client core is classified into exactly one of these
/// kinds. All are terminal for the operation that produced them: the core
/// never retries.
#[derive(Debug)]
pub enum ClientError {
    /// A network-level failure (DNS, connection, timeout), with a
    /// human-readable detail.
    Transport(String),
    /// The server answered with a status outside the success range.
    HttpStatus(u16),
    /// The response body was malformed or violated the envelope shape.
    Decode(String),
    /// A well-formed envelope reported an application-level failure with
    /// the given message.
    Api(String),
    /// The client was set up with invalid configuration (missing
    /// credential, invalid page size, reserved query key supplied).
    Configuration(String),
}

impl ClientError {
    /// A human-readable description sufficient to tell the failure kinds
    /// apart; never includes the credential.
    pub fn detail(&self) -> (r: String)
        ensures
            r@ == self.detail_spec(),
    {
        match self {
            ClientError::Transport(m) => "network error: ".to_owned().concat(m.as_str()),
            ClientError::HttpStatus(_) => "server returned an error status".to_owned(),
            ClientError::Decode(m) => "malformed response: ".to_owned().concat(m.as_str()),
            ClientError::Api(m) => "server reported an error: ".to_owned().concat(m.as_str()),
            ClientError::Configuration(m) => "configuration error: ".to_owned().concat(
                m.as_str(),
            ),
        }
    }

    /// What `detail` returns, as a sequence of characters.
    pub open spec fn detail_spec(&self) -> Seq<char> {
        match self {
            ClientError::Transport(m) => "network error: "@ + m@,
            ClientError::HttpStatus(_) => "server returned an error status"@,
            ClientError::Decode(m) => "malformed response: "@ + m@,
            ClientError::Api(m) => "server reported an error: "@ + m@,
            ClientError::Configuration(m) => "configuration error: "@ + m@,
        }
    }
}

} // verus!
