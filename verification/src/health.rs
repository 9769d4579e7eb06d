//! The health report of a service from the state of its dependencies.

use vstd::prelude::*;

verus! {

/// A health check answer: the HTTP status and the fields of the report.
pub struct HealthReport {
    pub status_code: u16,
    pub status: &'static str,
    pub service: String,
    pub master: &'static str,
    pub replica: &'static str,
    pub redis: &'static str,
}

/// How a dependency is reported: `up` when it answered, else `down`.
pub open spec fn up_down(ok: bool) -> Seq<char> {
    if ok {
        "up"@
    } else {
        "down"@
    }
}

fn up_down_text(ok: bool) -> (s: &'static str)
    ensures
        s@ == up_down(ok),
{
    if ok {
        "up"
    } else {
        "down"
    }
}

/// The health of `service` given which of the write database, the read database
/// and the cache answered: healthy (200) when all did, degraded (503) otherwise,
/// with each dependency reported up or down.
pub fn health_report(service: &str, write_ok: bool, read_ok: bool, redis_ok: bool) -> (h: HealthReport)
    ensures
        h.service@ == service@,
        write_ok && read_ok && redis_ok ==> h.status_code == 200 && h.status@ == "healthy"@,
        !(write_ok && read_ok && redis_ok) ==> h.status_code == 503 && h.status@ == "degraded"@,
        h.master@ == up_down(write_ok),
        h.replica@ == up_down(read_ok),
        h.redis@ == up_down(redis_ok),
{
    let all = write_ok && read_ok && redis_ok;
    HealthReport {
        status_code: if all {
            200
        } else {
            503
        },
        status: if all {
            "healthy"
        } else {
            "degraded"
        },
        service: String::from_str(service),
        master: up_down_text(write_ok),
        replica: up_down_text(read_ok),
        redis: up_down_text(redis_ok),
    }
}

} // verus!
