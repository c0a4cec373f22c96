//! The uniform response envelope and its total decoding into a typed
//! result or a classified error.

use vstd::prelude::*;

verus! {

use crate::errors::ClientError;

/// Detail text used when a failure envelope carries no message.
pub const NO_MESSAGE_TEXT: &'static str = "no message";

/// Detail text used when a success envelope is missing its payload.
pub const MISSING_RESULT_TEXT: &'static str = "success envelope missing result";

/// The wire-level record wrapped around every response of the service.
///
/// If `success` is true the payload must be present in `result`; its
/// absence is a contract violation surfaced as a decode error. If
/// `success` is false, `message` carries the application-level detail.
pub struct Envelope<T> {
    pub success: bool,
    pub message: Option<String>,
    pub result: Option<T>,
}

/// The exact decode mapping, as a relation between an envelope and the
/// value or classified error the caller receives for it. Total over all
/// four combinations of `(success, result/message presence)`.
pub open spec fn decodes_to<T>(env: Envelope<T>, r: Result<T, ClientError>) -> bool {
    &&& (env.success && env.result is Some ==> r == Ok::<T, ClientError>(env.result->0))
    &&& (env.success && env.result is None ==> (r matches Err(e) && e matches ClientError::Decode(
        m,
    ) && m@ == MISSING_RESULT_TEXT@))
    &&& (!env.success && env.message is Some ==> (r matches Err(e) && e matches ClientError::Api(m)
        && m == env.message->0))
    &&& (!env.success && env.message is None ==> (r matches Err(e) && e matches ClientError::Api(m)
        && m@ == NO_MESSAGE_TEXT@))
    &&& (r is Ok <==> env.success && env.result is Some)
}

/// Unwrap an envelope into a typed value or a classified error.
///
/// The mapping is pure and total over all four combinations of
/// `(success, result/message presence)`:
/// - success with a payload yields the payload;
/// - success without a payload is a `Decode` error (a server contract
///   violation, never a panic);
/// - failure with a message yields `Api` with that message verbatim;
/// - failure without a message yields `Api` with a fixed fallback text.
pub fn decode_envelope<T>(env: Envelope<T>) -> (r: Result<T, ClientError>)
    ensures
        decodes_to(env, r),
{
    if env.success {
        match env.result {
            Some(v) => Ok(v),
            None => Err(ClientError::Decode(MISSING_RESULT_TEXT.to_owned())),
        }
    } else {
        match env.message {
            Some(m) => Err(ClientError::Api(m)),
            None => Err(ClientError::Api(NO_MESSAGE_TEXT.to_owned())),
        }
    }
}

} // verus!
