//! What the process is configured with before it accepts a request.

use vstd::prelude::*;

verus! {

/// The environment variable that supplies the backend's base address.
pub const BACKEND_BASE_VAR: &'static str = "FLYD_SIM_BASE";

/// The backend's base address where the environment supplies none.
pub const DEFAULT_BACKEND_BASE: &'static str = "http://flyd-sim:8080";

/// The port on which the inbound surface listens.
pub const LISTEN_PORT: u16 = 7070;

/// The backend's base address: the configured one where there is one, the
/// default otherwise. It is fixed once, at startup.
pub fn backend_base(configured: Option<String>) -> (base: String)
    ensures
        base@ == match configured {
            Some(address) => address@,
            None => DEFAULT_BACKEND_BASE@,
        },
{
    match configured {
        Some(address) => address,
        None => DEFAULT_BACKEND_BASE.to_owned(),
    }
}

} // verus!
