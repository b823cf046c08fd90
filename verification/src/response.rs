use vstd::prelude::*;
use crate::error::{Error, Failure};

verus! {

/// What the body of a response is to be decoded as.
#[derive(Clone, Copy, Debug, PartialEq, Eq, Structural)]
pub enum Expected {
    /// The result that was asked for.
    Payload,
    /// The service's account of why it refused.
    ServiceError,
}

/// Whether a status reports success: 200 up to 299.
pub open spec fn success_status(status: u16) -> bool {
    200 <= status < 300
}

/// Whether a status reports success.
pub fn is_success(status: u16) -> (success: bool)
    ensures
        success == success_status(status),
{
    200 <= status && status < 300
}

/// Decides from the status of a response what its body is to be decoded as.
pub fn expected_body(status: u16) -> (expected: Expected)
    ensures
        expected == if success_status(status) {
            Expected::Payload
        } else {
            Expected::ServiceError
        },
{
    if is_success(status) {
        Expected::Payload
    } else {
        Expected::ServiceError
    }
}

/// The result of a call whose response reported success, given what its
/// body decoded to.
pub open spec fn success_result<T, E>(decoded: Result<T, E>) -> Result<T, Failure<E>> {
    match decoded {
        Ok(payload) => Ok(payload),
        Err(cause) => Err(Failure::Decoding(cause)),
    }
}

/// The result of a call whose response did not report success, given what
/// its body decoded to.
pub open spec fn refusal_result<T, E>(decoded: Result<Error, E>) -> Result<T, Failure<E>> {
    match decoded {
        Ok(error) => Err(Failure::Service(error)),
        Err(cause) => Err(Failure::Decoding(cause)),
    }
}

/// Concludes a call whose response reported success: the payload if the
/// body decoded, a decoding failure if it did not.
pub fn success_outcome<T, E>(decoded: Result<T, E>) -> (outcome: Result<T, Failure<E>>)
    ensures
        outcome == success_result(decoded),
{
    match decoded {
        Ok(payload) => Ok(payload),
        Err(cause) => Err(Failure::Decoding(cause)),
    }
}

/// Concludes a call whose response did not report success: the service's
/// error if the body decoded as one, a decoding failure if it did not.
pub fn refusal_outcome<T, E>(decoded: Result<Error, E>) -> (outcome: Result<T, Failure<E>>)
    ensures
        outcome == refusal_result::<T, E>(decoded),
{
    match decoded {
        Ok(error) => Err(Failure::Service(error)),
        Err(cause) => Err(Failure::Decoding(cause)),
    }
}

} // verus!
