//! The health check.

use crate::types::errors::AppError;
use vstd::prelude::*;

verus! {

/// Answers `ok`: the command pipeline works.
pub fn health_check() -> (r: Result<String, AppError>)
    ensures
        r is Ok,
        r->Ok_0@ == "ok"@,
{
    Ok("ok".to_owned())
}

} // verus!
