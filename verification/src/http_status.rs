//! HTTP status codes used by the bridge, and their classes.

use vstd::prelude::*;

verus! {

/// `200 OK`.
pub const OK: u16 = 200;

/// `401 Unauthorized`.
pub const UNAUTHORIZED: u16 = 401;

/// `422 Unprocessable Entity`.
pub const UNPROCESSABLE_ENTITY: u16 = 422;

/// `500 Internal Server Error`.
pub const INTERNAL_SERVER_ERROR: u16 = 500;

/// The status is a success (200–299).
pub open spec fn spec_is_success(code: u16) -> bool {
    200 <= code < 300
}

/// The status is a redirection (300–399).
pub open spec fn spec_is_redirection(code: u16) -> bool {
    300 <= code < 400
}

/// Whether the status is a success (200–299), as `StatusCode::is_success`.
pub fn is_success(code: u16) -> (res: bool)
    ensures
        res == spec_is_success(code),
{
    200 <= code && code < 300
}

/// Whether the status is a redirection (300–399), as `StatusCode::is_redirection`.
pub fn is_redirection(code: u16) -> (res: bool)
    ensures
        res == spec_is_redirection(code),
{
    300 <= code && code < 400
}

} // verus!
