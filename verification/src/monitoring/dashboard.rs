//! The network dashboard: node, game, volume and relay-rate gauges, and
//! the health check that load balancers query.

use vstd::prelude::*;
use crate::monitoring::metrics::{wrap_add, wrapping_add_u64};
use crate::text::{concat_str, decimal, decimal_string};

verus! {

/// Network metrics aggregated from all nodes.
#[derive(Debug, Clone, Copy, PartialEq, Eq, Structural)]
pub struct NetworkMetrics {
    pub node_count: u64,
    pub game_count: u64,
    pub volume: u64,
    pub hash_rate: u64,
}

/// Monitoring dashboard for the network. The volume wraps around on overflow.
#[derive(Debug)]
pub struct NetworkDashboard {
    pub total_nodes: u64,
    pub active_games: u64,
    pub total_volume: u64,
    pub mining_rate: u64,
}

impl NetworkDashboard {
    pub fn new() -> (d: Self)
        ensures
            d.total_nodes == 0 && d.active_games == 0 && d.total_volume == 0 && d.mining_rate == 0,
    {
        NetworkDashboard { total_nodes: 0, active_games: 0, total_volume: 0, mining_rate: 0 }
    }

    /// Current network statistics.
    pub fn get_stats(&self) -> (m: NetworkMetrics)
        ensures
            m == (NetworkMetrics {
                node_count: self.total_nodes,
                game_count: self.active_games,
                volume: self.total_volume,
                hash_rate: self.mining_rate,
            }),
    {
        NetworkMetrics {
            node_count: self.total_nodes,
            game_count: self.active_games,
            volume: self.total_volume,
            hash_rate: self.mining_rate,
        }
    }

    /// Metrics aggregated from the bootstrap nodes: this node counts as one
    /// more node.
    pub fn aggregate_network_metrics(&self) -> (m: NetworkMetrics)
        ensures
            m.node_count == (if self.total_nodes < u64::MAX { self.total_nodes + 1 } else { u64::MAX as int }),
            m.game_count == self.active_games,
            m.volume == self.total_volume,
            m.hash_rate == self.mining_rate,
    {
        NetworkMetrics {
            node_count: if self.total_nodes < u64::MAX { self.total_nodes + 1 } else { u64::MAX },
            game_count: self.active_games,
            volume: self.total_volume,
            hash_rate: self.mining_rate,
        }
    }

    /// Stores collected metrics in the gauges.
    pub fn apply_metrics(&mut self, metrics: NetworkMetrics)
        ensures
            final(self).get_stats_spec() == metrics,
    {
        self.total_nodes = metrics.node_count;
        self.active_games = metrics.game_count;
        self.total_volume = metrics.volume;
        self.mining_rate = metrics.hash_rate;
    }

    pub open spec fn get_stats_spec(&self) -> NetworkMetrics {
        NetworkMetrics {
            node_count: self.total_nodes,
            game_count: self.active_games,
            volume: self.total_volume,
            hash_rate: self.mining_rate,
        }
    }

    pub fn update_node_count(&mut self, count: u64)
        ensures
            final(self).total_nodes == count,
            final(self).active_games == old(self).active_games,
            final(self).total_volume == old(self).total_volume,
            final(self).mining_rate == old(self).mining_rate,
    {
        self.total_nodes = count;
    }

    pub fn update_game_count(&mut self, count: u64)
        ensures
            final(self).active_games == count,
            final(self).total_nodes == old(self).total_nodes,
            final(self).total_volume == old(self).total_volume,
            final(self).mining_rate == old(self).mining_rate,
    {
        self.active_games = count;
    }

    /// Adds to the total volume.
    pub fn add_volume(&mut self, amount: u64)
        ensures
            final(self).total_volume == wrap_add(old(self).total_volume, amount),
            final(self).total_nodes == old(self).total_nodes,
            final(self).active_games == old(self).active_games,
            final(self).mining_rate == old(self).mining_rate,
    {
        self.total_volume = wrapping_add_u64(self.total_volume, amount);
    }

    pub fn update_mining_rate(&mut self, rate: u64)
        ensures
            final(self).mining_rate == rate,
            final(self).total_nodes == old(self).total_nodes,
            final(self).active_games == old(self).active_games,
            final(self).total_volume == old(self).total_volume,
    {
        self.mining_rate = rate;
    }
}

/// Healthy: at least one node, and a relay rate under 10000 messages a
/// second (a higher one means spam).
pub open spec fn healthy(m: NetworkMetrics) -> bool {
    m.node_count > 0 && m.hash_rate < 10000
}

/// The health report as JSON text.
pub open spec fn health_text(m: NetworkMetrics) -> Seq<char> {
    "{\n    \"healthy\": "@ + (if healthy(m) { "true"@ } else { "false"@ }) + ",\n    \"nodes\": "@ + decimal(
        m.node_count as nat,
    ) + ",\n    \"games\": "@ + decimal(m.game_count as nat) + ",\n    \"volume_crap\": "@ + decimal(
        (m.volume / 1000000) as nat,
    ) + ",\n    \"mining_rate\": "@ + decimal(m.hash_rate as nat) + "\n}"@
}

/// Health check endpoint for load balancers, over a dashboard.
pub struct HealthCheck {
    pub dashboard: NetworkDashboard,
}

impl HealthCheck {
    pub fn new(dashboard: NetworkDashboard) -> (h: Self)
        ensures
            h.dashboard == dashboard,
    {
        HealthCheck { dashboard }
    }

    /// Whether the network is healthy.
    pub fn is_healthy(&self) -> (r: bool)
        ensures
            r == healthy(self.dashboard.get_stats_spec()),
    {
        let stats = self.dashboard.get_stats();
        stats.node_count > 0 && stats.hash_rate < 10000
    }

    /// The health status as JSON.
    pub fn health_json(&self) -> (r: String)
        ensures
            r@ == health_text(self.dashboard.get_stats_spec()),
    {
        let healthy = self.is_healthy();
        let stats = self.dashboard.get_stats();
        let s1 = concat_str("{\n    \"healthy\": ", if healthy { "true" } else { "false" });
        let s2 = concat_str(s1.as_str(), ",\n    \"nodes\": ");
        let s3 = concat_str(s2.as_str(), decimal_string(stats.node_count).as_str());
        let s4 = concat_str(s3.as_str(), ",\n    \"games\": ");
        let s5 = concat_str(s4.as_str(), decimal_string(stats.game_count).as_str());
        let s6 = concat_str(s5.as_str(), ",\n    \"volume_crap\": ");
        let s7 = concat_str(s6.as_str(), decimal_string(stats.volume / 1_000_000).as_str());
        let s8 = concat_str(s7.as_str(), ",\n    \"mining_rate\": ");
        let s9 = concat_str(s8.as_str(), decimal_string(stats.hash_rate).as_str());
        concat_str(s9.as_str(), "\n}")
    }
}

} // verus!
