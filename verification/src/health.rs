//! Health reports: the components checked, their states, and the overall verdict.

use vstd::prelude::*;
use crate::text::{lower_of, to_lower};

verus! {

/// What a component reports besides its state.
pub enum HealthDetails {
    Pool { size: i64, idle: i64 },
    Kind(String),
}

/// One checked component.
pub struct ComponentHealth {
    pub status: String,
    pub details: Option<HealthDetails>,
}

/// The health report, with the HTTP status it is sent with.
pub struct HealthReport {
    pub ok: bool,
    pub status: String,
    pub version: String,
    pub uptime_secs: u64,
    pub components: Vec<(String, ComponentHealth)>,
}

/// What the checks found.
pub struct HealthInputs {
    pub db_ok: bool,
    pub pool_size: i64,
    pub pool_idle: i64,
    pub rule_engine_running: bool,
    pub cache_kind: String,
    pub queue_kind: String,
    pub version: String,
    pub uptime_secs: u64,
}

pub open spec fn up_or(ok: bool, other: Seq<char>) -> Seq<char> {
    if ok { "UP"@ } else { other }
}

/// The report: the database is `UP` or `DOWN` with its pool size and idle count;
/// the cache is `UP` with its kind; the rule engine is `UP` or `DEGRADED`; the queue
/// is `UP` with its kind (kinds lower-cased). Overall the service is `UP` (status
/// 200) exactly when the database is reachable, `DEGRADED` (status 503) otherwise.
pub fn health_report(inp: HealthInputs) -> (r: HealthReport)
    ensures
        r.ok == inp.db_ok,
        r.status@ == up_or(inp.db_ok, "DEGRADED"@),
        r.version == inp.version,
        r.uptime_secs == inp.uptime_secs,
        r.components@.len() == 4,
        r.components@[0].0@ == "db"@,
        r.components@[0].1.status@ == up_or(inp.db_ok, "DOWN"@),
        r.components@[0].1.details matches Some(HealthDetails::Pool { size, idle })
            && size == inp.pool_size && idle == inp.pool_idle,
        r.components@[1].0@ == "cache"@,
        r.components@[1].1.status@ == "UP"@,
        r.components@[1].1.details matches Some(HealthDetails::Kind(k)) && k@ == lower_of(inp.cache_kind@),
        r.components@[2].0@ == "ruleEngine"@,
        r.components@[2].1.status@ == up_or(inp.rule_engine_running, "DEGRADED"@),
        r.components@[2].1.details is None,
        r.components@[3].0@ == "queue"@,
        r.components@[3].1.status@ == "UP"@,
        r.components@[3].1.details matches Some(HealthDetails::Kind(k)) && k@ == lower_of(inp.queue_kind@),
{
    let mut components: Vec<(String, ComponentHealth)> = Vec::new();
    let db_status = if inp.db_ok { "UP" } else { "DOWN" };
    components.push(("db".to_owned(), ComponentHealth {
        status: db_status.to_owned(),
        details: Some(HealthDetails::Pool { size: inp.pool_size, idle: inp.pool_idle }),
    }));
    components.push(("cache".to_owned(), ComponentHealth {
        status: "UP".to_owned(),
        details: Some(HealthDetails::Kind(to_lower(inp.cache_kind.as_str()))),
    }));
    let re_status = if inp.rule_engine_running { "UP" } else { "DEGRADED" };
    components.push(("ruleEngine".to_owned(), ComponentHealth { status: re_status.to_owned(), details: None }));
    components.push(("queue".to_owned(), ComponentHealth {
        status: "UP".to_owned(),
        details: Some(HealthDetails::Kind(to_lower(inp.queue_kind.as_str()))),
    }));
    let overall = if inp.db_ok { "UP" } else { "DEGRADED" };
    HealthReport {
        ok: inp.db_ok,
        status: overall.to_owned(),
        version: inp.version,
        uptime_secs: inp.uptime_secs,
        components,
    }
}

/// The readiness answer: whether the service is ready (`200`, else `503`), its
/// status and, when not ready, the reason.
pub struct Readiness {
    pub ready: bool,
    pub status: String,
    pub reason: Option<String>,
}

/// The readiness probe: ready with status `UP` when the database is reachable;
/// otherwise `DOWN` with the reason.
pub fn readiness(db_ok: bool) -> (r: Readiness)
    ensures
        r.ready == db_ok,
        db_ok ==> r.status@ == "UP"@ && r.reason is None,
        !db_ok ==> (r.status@ == "DOWN"@ && (r.reason matches Some(why) && why@ == "database unavailable"@)),
{
    if db_ok {
        Readiness { ready: true, status: "UP".to_owned(), reason: None }
    } else {
        Readiness { ready: false, status: "DOWN".to_owned(), reason: Some("database unavailable".to_owned()) }
    }
}

} // verus!
