//! The limit on the requests that the server takes in a minute.

use vstd::prelude::*;
use crate::models::response::ErrorResponse;

verus! {

/// How many requests the server takes in a minute.
pub const REQUESTS_PER_MINUTE: u32 = 100;

/// What a request over the limit is answered.
pub open spec fn too_many_requests_text() -> Seq<char> {
    "Troppe richieste. Riprova tra poco."@
}

/// What the answer of the limiter comes to for a request: a request that is
/// let through goes on, any other is refused with status 429.
pub fn rate_limit_middleware(allowed: bool) -> (r: Result<(), ErrorResponse>)
    ensures
        allowed ==> r is Ok,
        !allowed ==> (r matches Err(e) && e.error@ == too_many_requests_text() && e.status == 429),
{
    if allowed {
        Ok(())
    } else {
        Err(ErrorResponse { error: "Troppe richieste. Riprova tra poco.".to_string(), status: 429 })
    }
}

} // verus!
