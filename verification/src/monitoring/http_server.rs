//! The answers of the monitoring endpoints: health, readiness and status,
//! built from what the probes of the system, the database and the network
//! found. The probes themselves, the clock and the HTTP serving are the
//! caller's.

use vstd::prelude::*;
use crate::text::{concat_str, decimal, decimal_string, str_eq};

verus! {

/// Health check response.
#[derive(Debug)]
pub struct HealthResponse {
    pub status: String,
    pub timestamp: u64,
    pub uptime_seconds: u64,
    pub version: String,
    pub checks: Vec<HealthCheckResult>,
}

/// Individual health check result.
#[derive(Debug)]
pub struct HealthCheckResult {
    pub name: String,
    pub status: String,
    pub message: Option<String>,
    pub duration_ms: u64,
}

/// Readiness response.
#[derive(Debug)]
pub struct ReadinessResponse {
    pub ready: bool,
    pub timestamp: u64,
    pub checks: Vec<ReadinessCheck>,
}

/// Individual readiness check.
#[derive(Debug)]
pub struct ReadinessCheck {
    pub name: String,
    pub ready: bool,
    pub message: Option<String>,
}

/// Network part of the status response.
#[derive(Debug, Clone, Copy, PartialEq, Eq, Structural)]
pub struct NetworkStatus {
    pub connected_peers: usize,
    pub active_connections: usize,
    pub total_messages: u64,
    pub consensus_height: u64,
}

/// Database part of the status response.
#[derive(Debug, Clone, Copy, PartialEq, Eq, Structural)]
pub struct DatabaseStatus {
    pub healthy: bool,
    pub connections_active: usize,
    pub connections_total: usize,
    pub transactions_total: u64,
}

/// Statistics of the database pool, as its probe reports them.
#[derive(Debug, Clone, Copy, PartialEq, Eq, Structural)]
pub struct DatabasePoolStats {
    pub active_connections: usize,
    pub total_connections: usize,
    pub total_queries: u64,
}

/// A timed probe: what it found and how long it took.
#[derive(Debug, Clone, Copy, PartialEq, Eq, Structural)]
pub struct Probe<T> {
    pub value: T,
    pub duration_ms: u64,
}

/// The database is healthy while fewer than a hundred connections are busy.
pub open spec fn database_healthy(active_connections: usize) -> bool {
    active_connections < 100
}

/// The service is healthy when the system check says "healthy" and the
/// database, where there is one, is healthy; the network only degrades.
pub open spec fn overall_healthy(system_status: Seq<char>, database: Option<Probe<usize>>) -> bool {
    &&& system_status == "healthy"@
    &&& (database matches Some(p) ==> database_healthy(p.value))
}

/// Text of a healthy or unhealthy status.
pub open spec fn health_text(healthy: bool) -> Seq<char> {
    if healthy { "healthy"@ } else { "unhealthy"@ }
}

fn health_word(healthy: bool) -> (s: String)
    ensures
        s@ == health_text(healthy),
{
    if healthy { "healthy".to_string() } else { "unhealthy".to_string() }
}

/// The health endpoint's answer and whether it is served as OK (else as
/// unavailable). The checks are, in order: the system check; the database
/// check where a database probe was made; the network check, "healthy"
/// with peers and "degraded" without, where a network probe was made, with
/// the message "N peers connected".
pub fn build_health_response(
    system_status: &str,
    system_duration_ms: u64,
    database: Option<Probe<usize>>,
    network: Option<Probe<usize>>,
    timestamp: u64,
    uptime_seconds: u64,
    version: &str,
) -> (r: (HealthResponse, bool))
    ensures
        r.1 == overall_healthy(system_status@, database),
        r.0.status@ == health_text(r.1),
        r.0.timestamp == timestamp,
        r.0.uptime_seconds == uptime_seconds,
        r.0.version@ == version@,
        r.0.checks@.len() == 1 + (if database is Some { 1int } else { 0 }) + (if network is Some { 1int } else { 0 }),
        r.0.checks@[0].name@ == "system"@,
        r.0.checks@[0].status@ == system_status@,
        r.0.checks@[0].message is None,
        r.0.checks@[0].duration_ms == system_duration_ms,
        database matches Some(p) ==> {
            &&& r.0.checks@[1].name@ == "database"@
            &&& r.0.checks@[1].status@ == health_text(database_healthy(p.value))
            &&& r.0.checks@[1].message is None
            &&& r.0.checks@[1].duration_ms == p.duration_ms
        },
        network matches Some(p) ==> {
            let k = r.0.checks@.len() - 1;
            &&& r.0.checks@[k].name@ == "network"@
            &&& r.0.checks@[k].status@ == (if p.value > 0 { "healthy"@ } else { "degraded"@ })
            &&& r.0.checks@[k].message matches Some(m) && m@ == decimal(p.value as nat) + " peers connected"@
            &&& r.0.checks@[k].duration_ms == p.duration_ms
        },
{
    let mut checks: Vec<HealthCheckResult> = Vec::new();
    checks.push(HealthCheckResult {
        name: "system".to_string(),
        status: system_status.to_string(),
        message: None,
        duration_ms: system_duration_ms,
    });
    let mut healthy = str_eq(system_status, "healthy");
    match database {
        Some(p) => {
            let db_healthy = p.value < 100;
            checks.push(HealthCheckResult {
                name: "database".to_string(),
                status: health_word(db_healthy),
                message: None,
                duration_ms: p.duration_ms,
            });
            if !db_healthy {
                healthy = false;
            }
        },
        None => {},
    }
    match network {
        Some(p) => {
            let status = if p.value > 0 { "healthy".to_string() } else { "degraded".to_string() };
            let count = decimal_string(p.value as u64);
            let message = concat_str(count.as_str(), " peers connected");
            checks.push(HealthCheckResult {
                name: "network".to_string(),
                status,
                message: Some(message),
                duration_ms: p.duration_ms,
            });
        },
        None => {},
    }
    proof {
        reveal_strlit("healthy");
    }
    let response = HealthResponse {
        status: health_word(healthy),
        timestamp,
        uptime_seconds,
        version: version.to_string(),
        checks,
    };
    (response, healthy)
}

/// The readiness endpoint's answer: ready when the service was marked
/// ready and the database, where there is one, has an idle connection.
/// The checks are the database's, then the network's (ready with peers),
/// each where its probe was made; the network does not decide readiness.
pub fn build_readiness_response(
    ready_state: bool,
    database: Option<DatabasePoolStats>,
    connected_peers: Option<usize>,
    timestamp: u64,
) -> (r: ReadinessResponse)
    ensures
        r.ready == (ready_state && (database matches Some(s) ==> s.active_connections < s.total_connections)),
        r.timestamp == timestamp,
        r.checks@.len() == (if database is Some { 1int } else { 0 }) + (if connected_peers is Some { 1int } else { 0 }),
        database matches Some(s) ==> {
            &&& r.checks@[0].name@ == "database"@
            &&& r.checks@[0].ready == (s.active_connections < s.total_connections)
            &&& r.checks@[0].message is None
        },
        connected_peers matches Some(n) ==> {
            let k = r.checks@.len() - 1;
            &&& r.checks@[k].name@ == "network"@
            &&& r.checks@[k].ready == (n > 0)
            &&& r.checks@[k].message is None
        },
{
    let mut checks: Vec<ReadinessCheck> = Vec::new();
    let mut ready = ready_state;
    match database {
        Some(s) => {
            let db_ready = s.active_connections < s.total_connections;
            checks.push(ReadinessCheck { name: "database".to_string(), ready: db_ready, message: None });
            ready = ready && db_ready;
        },
        None => {},
    }
    match connected_peers {
        Some(n) => {
            checks.push(ReadinessCheck { name: "network".to_string(), ready: n > 0, message: None });
        },
        None => {},
    }
    ReadinessResponse { ready, timestamp, checks }
}

/// The network part of the status: the peers connected count both as peers
/// and as connections; without a network all is zero.
pub fn network_status(connected_peers: Option<usize>) -> (s: NetworkStatus)
    ensures
        s.connected_peers == (match connected_peers { Some(n) => n, None => 0 }),
        s.active_connections == s.connected_peers,
        s.total_messages == 0,
        s.consensus_height == 0,
{
    let n = match connected_peers {
        Some(n) => n,
        None => 0,
    };
    NetworkStatus { connected_peers: n, active_connections: n, total_messages: 0, consensus_height: 0 }
}

/// The database part of the status: the pool's figures, or zeros without a
/// database; reported healthy either way.
pub fn database_status(stats: Option<DatabasePoolStats>) -> (s: DatabaseStatus)
    ensures
        s.healthy,
        stats matches Some(p) ==> s.connections_active == p.active_connections
            && s.connections_total == p.total_connections && s.transactions_total == p.total_queries,
        stats is None ==> s.connections_active == 0 && s.connections_total == 0 && s.transactions_total == 0,
{
    match stats {
        Some(p) => DatabaseStatus {
            healthy: true,
            connections_active: p.active_connections,
            connections_total: p.total_connections,
            transactions_total: p.total_queries,
        },
        None => DatabaseStatus { healthy: true, connections_active: 0, connections_total: 0, transactions_total: 0 },
    }
}

} // verus!
