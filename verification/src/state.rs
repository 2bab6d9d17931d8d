//! What every component is handed: the settings fixed at startup, and the
//! ways a request can be turned down.

use crate::origin::AllowList;
use vstd::prelude::*;

verus! {

/// Settings that are read-only once the service runs.
pub struct AppState {
    /// Secret that signs session and handoff tokens.
    pub jwt_secret: Vec<u8>,
    /// Whether the canonical origin is served over TLS.
    pub secure_cookies: bool,
    /// The canonical origin, on which all ceremonies take place.
    pub rp_origin: String,
    /// Hosts that may receive a handoff.
    pub allowed_hosts: AllowList,
}

/// Why a request is refused. Each kind stands for one HTTP status.
#[derive(Clone, Copy, Debug, PartialEq, Eq, Structural)]
pub enum Rejection {
    /// Malformed or disallowed input.
    BadRequest,
    /// Missing or invalid session, failed ceremony or handoff.
    Unauthorized,
    /// Nothing under that id.
    NotFound,
    /// Lost the race for the single user slot.
    Conflict,
    /// Storage or signing failed, or stored state is corrupt.
    Internal,
    /// A dependency cannot be reached.
    Unavailable,
}

/// HTTP status of a rejection.
pub open spec fn status_of(r: Rejection) -> u16 {
    match r {
        Rejection::BadRequest => 400,
        Rejection::Unauthorized => 401,
        Rejection::NotFound => 404,
        Rejection::Conflict => 409,
        Rejection::Internal => 500,
        Rejection::Unavailable => 503,
    }
}

impl Rejection {
    /// The HTTP status that reports this rejection.
    pub fn status_code(&self) -> (code: u16)
        ensures
            code == status_of(*self),
    {
        match self {
            Rejection::BadRequest => 400,
            Rejection::Unauthorized => 401,
            Rejection::NotFound => 404,
            Rejection::Conflict => 409,
            Rejection::Internal => 500,
            Rejection::Unavailable => 503,
        }
    }
}

} // verus!
