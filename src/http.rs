//! What the routes answer, and how a failed request is reported.

use vstd::prelude::*;

verus! {

/// The answer of the greeting route.
pub const GREETING: &'static str = "Hello, world!";

/// The status of a request that failed on the server's side.
pub const INTERNAL_SERVER_ERROR: u16 = 500;

/// The body sent when a static file cannot be served.
pub const STATIC_FILE_ERROR_BODY: &'static str = "Something went wrong...";

/// Whether the cause of a failed request reaches the client.
#[derive(Clone, Copy, Debug, PartialEq, Eq, Structural)]
pub enum ErrorExposure {
    /// The body is the cause itself.
    Expose,
    /// The body is a fixed text; the cause is only logged.
    Withhold,
}

/// The exposure of errors of the message route: the cause is sent.
pub const MESSAGE_ERROR_EXPOSURE: ErrorExposure = ErrorExposure::Expose;

/// The exposure of errors of the static files: a fixed text is sent.
pub const STATIC_FILE_ERROR_EXPOSURE: ErrorExposure = ErrorExposure::Withhold;

/// The status and body of a request that failed with `cause`: the cause
/// itself where it is exposed, `fixed_body` where it is withheld.
pub fn error_response(exposure: ErrorExposure, cause: String, fixed_body: &str) -> (r: (u16, String))
    ensures
        r.0 == INTERNAL_SERVER_ERROR,
        r.1@ == match exposure {
            ErrorExposure::Expose => cause@,
            ErrorExposure::Withhold => fixed_body@,
        },
{
    match exposure {
        ErrorExposure::Expose => (INTERNAL_SERVER_ERROR, cause),
        ErrorExposure::Withhold => (INTERNAL_SERVER_ERROR, fixed_body.to_owned()),
    }
}

} // verus!
