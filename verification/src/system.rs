//! Health reporting.

use vstd::prelude::*;
use crate::clock::{representable, seconds_between, utc_now, whole_seconds_between, Instant};

verus! {

/// Status of one backend component.
#[derive(Debug, Clone, PartialEq, Eq)]
pub struct ServiceStatus {
    pub status: String,
    pub detail: Option<String>,
}

impl ServiceStatus {
    /// A component that has not been brought up yet.
    pub fn pending() -> (s: ServiceStatus)
        ensures
            s.status@ == "pending"@,
            s.detail.deep_view() == Some("not initialized yet"@),
    {
        ServiceStatus { status: "pending".to_owned(), detail: Some("not initialized yet".to_owned()) }
    }

    /// A component that works.
    pub fn ok() -> (s: ServiceStatus)
        ensures
            s.status@ == "ok"@,
            s.detail is None,
    {
        ServiceStatus { status: "ok".to_owned(), detail: None }
    }
}

/// The health of the backend and its components.
#[derive(Debug, Clone, PartialEq, Eq)]
pub struct ServicesHealth {
    pub version: String,
    pub uptime_seconds: i64,
    pub database: ServiceStatus,
    pub qdrant: ServiceStatus,
    pub llm: ServiceStatus,
    pub embeddings: ServiceStatus,
}

/// The body of the health endpoint.
#[derive(Debug, Clone, PartialEq, Eq)]
pub struct HealthResponse {
    pub health: ServicesHealth,
}

/// The status of a component not brought up yet.
pub open spec fn is_pending(s: ServiceStatus) -> bool {
    s.status@ == "pending"@ && s.detail.deep_view() == Some("not initialized yet"@)
}

/// The health report for a version and uptime: every component pending.
pub open spec fn health_report(h: ServicesHealth, version: String, uptime_seconds: i64) -> bool {
    &&& h.version == version
    &&& h.uptime_seconds == uptime_seconds
    &&& is_pending(h.database)
    &&& is_pending(h.qdrant)
    &&& is_pending(h.llm)
    &&& is_pending(h.embeddings)
}

/// Reads the backend's health.
#[derive(Debug, Clone, PartialEq, Eq)]
pub struct HealthService;

impl HealthService {
    /// The health report for the given version and uptime.
    pub fn report(version: String, uptime_seconds: i64) -> (h: ServicesHealth)
        ensures
            health_report(h, version, uptime_seconds),
    {
        ServicesHealth {
            version,
            uptime_seconds,
            database: ServiceStatus::pending(),
            qdrant: ServiceStatus::pending(),
            llm: ServiceStatus::pending(),
            embeddings: ServiceStatus::pending(),
        }
    }

    /// The health report at instant `now`, for a backend started at
    /// `started_at`: the uptime is the whole seconds between them, rounded
    /// toward zero.
    pub fn read_at(started_at: &Instant, now: &Instant, version: String) -> (h: ServicesHealth)
        requires
            representable(*started_at),
            representable(*now),
        ensures
            health_report(h, version, whole_seconds_between(*started_at, *now) as i64),
    {
        let uptime = seconds_between(started_at, now);
        Self::report(version, uptime)
    }

    /// The health report now, for a backend started at `started_at`.
    pub fn read(started_at: &Instant, version: String) -> (h: ServicesHealth)
        requires
            representable(*started_at),
        ensures
            exists|now: Instant| representable(now) && 0 <= now.secs
                && health_report(h, version, whole_seconds_between(*started_at, now) as i64),
    {
        let now = utc_now();
        Self::read_at(started_at, &now, version)
    }
}

} // verus!
