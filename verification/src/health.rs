//! Liveness report.

use crate::state::Rejection;
use vstd::prelude::*;

verus! {

/// The report of a service that is well.
pub struct Health {
    pub status: &'static str,
}

/// Reports on the service, given whether storage answered a ping: it is
/// well, or its dependency is unavailable.
pub fn check(storage_answered: bool) -> (r: Result<Health, Rejection>)
    ensures
        match r {
            Ok(health) => storage_answered && health.status@ == "ok"@,
            Err(e) => !storage_answered && e == Rejection::Unavailable,
        },
{
    if storage_answered {
        Ok(Health { status: "ok" })
    } else {
        Err(Rejection::Unavailable)
    }
}

} // verus!
