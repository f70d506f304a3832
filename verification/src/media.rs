//! The media proxy's decision logic. The single outbound HTTP GET happens in
//! the host binary; what the library guarantees is that a received body is
//! handed to the caller byte for byte, and that each failure is reported
//! with its exact, non-empty message.

use vstd::prelude::*;
use vstd::string::StringExecFns;

verus! {

/// What one attempt at the outbound GET came to: the full response body
/// (whatever the status code), or a failure while connecting, or a failure
/// while reading the body.
pub enum FetchOutcome {
    Received(Vec<u8>),
    ConnectFailed(String),
    ReadFailed(String),
}

/// Turns the outcome of the single GET attempt into the proxy's result:
/// a received body is returned unmodified, byte for byte; either failure
/// becomes a non-empty descriptive message and no bytes.
pub fn proxy_media_result(outcome: FetchOutcome) -> (r: Result<Vec<u8>, String>)
    ensures
        match outcome {
            FetchOutcome::Received(body) => r matches Ok(bytes) && bytes@ == body@,
            FetchOutcome::ConnectFailed(detail) => r matches Err(m) && m@ == "Failed to fetch media: "@
                + detail@ && m@.len() > 0,
            FetchOutcome::ReadFailed(detail) => r matches Err(m) && m@
                == "Failed to read media bytes: "@ + detail@ && m@.len() > 0,
        },
{
    proof {
        reveal_strlit("Failed to fetch media: ");
        reveal_strlit("Failed to read media bytes: ");
    }
    match outcome {
        FetchOutcome::Received(body) => Ok(body),
        FetchOutcome::ConnectFailed(detail) => Err(
            "Failed to fetch media: ".to_owned().concat(detail.as_str()),
        ),
        FetchOutcome::ReadFailed(detail) => Err(
            "Failed to read media bytes: ".to_owned().concat(detail.as_str()),
        ),
    }
}

} // verus!
