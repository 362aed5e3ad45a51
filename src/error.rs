use vstd::prelude::*;

verus! {

/// The ways a request can fail, one variant per kind of failure so that
/// callers can branch on the kind instead of on message text.
#[derive(Debug, Clone)]
pub enum ApiError {
    /// The transport could not complete the request (DNS, connect, timeout).
    Transport(String),
    /// The service answered with a status code outside `200..=299`.
    Status(u16),
    /// The body does not match the expected wire shape; the text names the step.
    Decode(String),
    /// The chart endpoint reported an error of its own in its envelope.
    Remote(String),
    /// The number of results differs from what the operation needs.
    Cardinality { found: usize },
}

/// Whether an HTTP status code counts as success.
pub open spec fn is_success_status(code: u16) -> bool {
    200 <= code <= 299
}

/// Accepts a success status and turns any other into `ApiError::Status`,
/// keeping the code.
pub fn check_status(code: u16) -> (r: Result<(), ApiError>)
    ensures
        r is Ok <==> is_success_status(code),
        !is_success_status(code) ==> r == Err::<(), ApiError>(ApiError::Status(code)),
{
    if 200 <= code && code <= 299 {
        Ok(())
    } else {
        Err(ApiError::Status(code))
    }
}

} // verus!
