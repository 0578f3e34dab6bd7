//! Health and version probe bodies.
//!
//! The HTTP layer around the library routes `/health` and `/version` here:
//! it asks these functions for the status code and body of each response and
//! only puts them on the wire (with a cache-disabling header).

use vstd::prelude::*;
use crate::StartedServices;
use crate::all_ready_spec;

verus! {

/// The status code of a successful probe.
pub const STATUS_OK: u16 = 200;

/// The status code reported while some service has not started yet.
pub const STATUS_SERVICE_UNAVAILABLE: u16 = 503;

/// The status code the health probe answers: success iff all services started.
pub open spec fn health_status(all_started: bool) -> u16 {
    if all_started {
        STATUS_OK
    } else {
        STATUS_SERVICE_UNAVAILABLE
    }
}

/// The body the health probe answers beside [`health_status`].
pub open spec fn health_body(all_started: bool) -> Seq<char> {
    if all_started {
        "healthy"@
    } else {
        "starting"@
    }
}

/// The status code and body of the general health check.
///
/// Answers `200 OK` with `"healthy"` if all services of `started_services`
/// already started, and `503 Service Unavailable` with `"starting"` if one
/// of the services did not start yet.
pub fn health_response(started_services: &StartedServices) -> (r: (u16, &'static str))
    ensures
        r.0 == health_status(all_ready_spec(started_services.flags())),
        r.1@ == health_body(all_ready_spec(started_services.flags())),
{
    if started_services.all_started() {
        (STATUS_OK, "healthy")
    } else {
        (STATUS_SERVICE_UNAVAILABLE, "starting")
    }
}

/// The status code and body of the version probe: always `200 OK` with the
/// supplied version string.
pub fn version_response(version_str: String) -> (r: (u16, String))
    ensures
        r.0 == STATUS_OK,
        r.1 == version_str,
{
    (STATUS_OK, version_str)
}

} // verus!
