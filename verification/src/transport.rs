//! The values that travel through a chain: requests, responses and errors of
//! the HTTP client. The engine carries them and never looks inside.

use vstd::prelude::*;

verus! {

/// `reqwest::Request`, one HTTP request. Opaque to the proofs.
#[verifier::external_type_specification]
#[verifier::external_body]
pub struct ExRequest(reqwest::Request);

/// `reqwest::Response`, one HTTP response. Opaque to the proofs.
#[verifier::external_type_specification]
#[verifier::external_body]
pub struct ExResponse(reqwest::Response);

/// `reqwest_middleware::Error`, the failure of a send or of a middleware.
/// Opaque to the proofs.
#[verifier::external_type_specification]
#[verifier::external_body]
pub struct ExError(reqwest_middleware::Error);

/// What one attempt produced: a response (whatever its status code), or the
/// failure of the transport.
pub type AttemptOutcome = Result<reqwest::Response, reqwest_middleware::Error>;

/// The duplicate of a request, as `reqwest::Request::try_clone` makes it: an
/// independent request with the same method, URL, headers, timeout, version
/// and body, or `None` where the body is a stream, which cannot be replayed.
/// It depends on the request alone.
pub uninterp spec fn duplicate_of(request: reqwest::Request) -> Option<reqwest::Request>;

/// `reqwest::Request::try_clone` returns the duplicate of the request. The
/// contract claims no more than that the result is the one named
/// [`duplicate_of`]: which requests have a duplicate, and what it holds, is
/// not stated here.
pub assume_specification[ reqwest::Request::try_clone ](request: &reqwest::Request) -> (duplicate:
    Option<reqwest::Request>)
    ensures
        duplicate == duplicate_of(*request),
;

} // verus!
