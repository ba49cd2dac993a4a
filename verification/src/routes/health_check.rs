//! Telling that the service is up.

use crate::http::{Response, ResponseView, OK};
use vstd::prelude::*;

verus! {

/// The path under which the service tells that it is up.
pub const HEALTH_CHECK_PATH: &'static str = "/health_check";

/// The answer to a health check: `200 OK`, and no body.
pub fn health_check() -> (response: Response)
    ensures
        response@ == (ResponseView { status: OK, body: Seq::<char>::empty() }),
{
    Response::empty(OK)
}

} // verus!
