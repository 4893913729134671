//! The live dashboard's network overview and activity feed, computed from
//! the network counters.

use vstd::prelude::*;
use crate::monitoring::metrics::NetworkCounters;
use crate::text::{concat_str, decimal, decimal_string};

verus! {

/// Network overview of the live dashboard.
#[derive(Debug)]
pub struct NetworkOverview {
    pub connected_peers: usize,
    pub active_sessions: usize,
    pub messages_sent: u64,
    pub messages_received: u64,
    pub bytes_sent: u64,
    pub bytes_received: u64,
    pub connection_errors: u64,
    pub network_quality: String,
}

/// One entry of the activity feed.
#[derive(Debug)]
pub struct ActivityEvent {
    pub timestamp: u64,
    pub event_type: String,
    pub description: String,
    pub severity: String,
}

/// Quality of the network by peers and connection errors: disconnected
/// without peers; with one or two peers poor above ten errors, else
/// limited; with three to ten peers fair above five errors, else good; with
/// more peers good with any error and excellent without.
pub open spec fn quality_of(peers: usize, errors: u64) -> Seq<char> {
    if peers == 0 {
        "Disconnected"@
    } else if peers <= 2 {
        if errors > 10 { "Poor"@ } else { "Limited"@ }
    } else if peers <= 10 {
        if errors > 5 { "Fair"@ } else { "Good"@ }
    } else if errors > 0 {
        "Good"@
    } else {
        "Excellent"@
    }
}

/// The network quality word for the given peers and errors.
pub fn network_quality(connected_peers: usize, connection_errors: u64) -> (s: &'static str)
    ensures
        s@ == quality_of(connected_peers, connection_errors),
{
    if connected_peers == 0 {
        "Disconnected"
    } else if connected_peers <= 2 {
        if connection_errors > 10 { "Poor" } else { "Limited" }
    } else if connected_peers <= 10 {
        if connection_errors > 5 { "Fair" } else { "Good" }
    } else if connection_errors > 0 {
        "Good"
    } else {
        "Excellent"
    }
}

/// The network overview from the counters; the active connections count
/// both as peers and as sessions.
pub fn collect_network_overview(counters: &NetworkCounters) -> (o: NetworkOverview)
    ensures
        o.connected_peers == counters.active_connections,
        o.active_sessions == counters.active_connections,
        o.messages_sent == counters.messages_sent,
        o.messages_received == counters.messages_received,
        o.bytes_sent == counters.bytes_sent,
        o.bytes_received == counters.bytes_received,
        o.connection_errors == counters.connection_errors,
        o.network_quality@ == quality_of(counters.active_connections, counters.connection_errors),
{
    let quality = network_quality(counters.active_connections, counters.connection_errors);
    NetworkOverview {
        connected_peers: counters.active_connections,
        active_sessions: counters.active_connections,
        messages_sent: counters.messages_sent,
        messages_received: counters.messages_received,
        bytes_sent: counters.bytes_sent,
        bytes_received: counters.bytes_received,
        connection_errors: counters.connection_errors,
        network_quality: quality.to_string(),
    }
}

/// The activity feed at `timestamp`: a network entry thirty seconds back
/// when peers are connected, a gaming entry fifteen seconds back when games
/// run, and the refresh entry, in that order.
pub fn collect_recent_activity(connected_peers: usize, active_games: usize, timestamp: u64) -> (r: Vec<ActivityEvent>)
    requires
        timestamp >= 30,
    ensures
        r@.len() == 1 + (if connected_peers > 0 { 1int } else { 0 }) + (if active_games > 0 { 1int } else { 0 }),
        connected_peers > 0 ==> {
            &&& r@[0].timestamp == timestamp - 30
            &&& r@[0].event_type@ == "network"@
            &&& r@[0].description@ == decimal(connected_peers as nat) + " peers connected"@
            &&& r@[0].severity@ == "info"@
        },
        active_games > 0 ==> {
            let k = if connected_peers > 0 { 1int } else { 0 };
            &&& r@[k].timestamp == timestamp - 15
            &&& r@[k].event_type@ == "gaming"@
            &&& r@[k].description@ == decimal(active_games as nat) + " active games running"@
            &&& r@[k].severity@ == "info"@
        },
        ({
            let last = r@[r@.len() - 1];
            &&& last.timestamp == timestamp
            &&& last.event_type@ == "system"@
            &&& last.description@ == "Dashboard data refreshed"@
            &&& last.severity@ == "debug"@
        }),
{
    let mut activities: Vec<ActivityEvent> = Vec::new();
    if connected_peers > 0 {
        let count = decimal_string(connected_peers as u64);
        activities.push(ActivityEvent {
            timestamp: timestamp - 30,
            event_type: "network".to_string(),
            description: concat_str(count.as_str(), " peers connected"),
            severity: "info".to_string(),
        });
    }
    if active_games > 0 {
        let count = decimal_string(active_games as u64);
        activities.push(ActivityEvent {
            timestamp: timestamp - 15,
            event_type: "gaming".to_string(),
            description: concat_str(count.as_str(), " active games running"),
            severity: "info".to_string(),
        });
    }
    activities.push(ActivityEvent {
        timestamp,
        event_type: "system".to_string(),
        description: "Dashboard data refreshed".to_string(),
        severity: "debug".to_string(),
    });
    activities
}

} // verus!
