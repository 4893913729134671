//! Monitoring integration: the events the app reports and the counters
//! each one moves.

use vstd::prelude::*;
use crate::monitoring::metrics::{
    wrap_dec_usize, wrap_inc, wrap_inc_usize, wrapping_add_u64, wrapping_dec_usize, wrapping_inc_usize, MetricsCounters,
};
use crate::text::str_eq;

verus! {

/// The service that copies the app's game and peer counts into the
/// counters every `update_interval_secs` seconds.
pub struct MetricsIntegrationService {
    pub update_interval_secs: u64,
}

impl MetricsIntegrationService {
    /// A service updating every five seconds.
    pub fn new() -> (s: Self)
        ensures
            s.update_interval_secs == 5,
    {
        MetricsIntegrationService { update_interval_secs: 5 }
    }

    /// Copies the number of active games into the counters; games active
    /// without any connected peer count as a network error.
    pub fn update_metrics(&self, counters: &mut MetricsCounters, active_game_count: usize)
        ensures
            final(counters).gaming.active_games == active_game_count,
            final(counters).gaming.total_games == active_game_count,
            final(counters).errors.network_errors == (if old(counters).network.active_connections == 0 && active_game_count > 0 {
                wrap_inc(old(counters).errors.network_errors)
            } else {
                old(counters).errors.network_errors
            }),
            final(counters).network.active_connections == old(counters).network.active_connections,
    {
        counters.gaming.active_games = active_game_count;
        counters.gaming.total_games = active_game_count as u64;
        if counters.network.active_connections == 0 && active_game_count > 0 {
            counters.errors.network_errors = wrapping_add_u64(counters.errors.network_errors, 1);
        }
    }
}

/// Counts a game event: a created game, a placed bet, a dice roll or a
/// completed game; tells whether the event type is known.
pub fn record_game_event(counters: &mut MetricsCounters, event_type: &str, game_id: &str) -> (known: bool)
    ensures
        known == (event_type@ == "game_created"@ || event_type@ == "bet_placed"@ || event_type@ == "dice_rolled"@
            || event_type@ == "game_completed"@),
        final(counters).gaming.total_games == (if event_type@ == "game_created"@ { wrap_inc(old(counters).gaming.total_games) } else { old(counters).gaming.total_games }),
        final(counters).gaming.total_bets == (if event_type@ == "bet_placed"@ { wrap_inc(old(counters).gaming.total_bets) } else { old(counters).gaming.total_bets }),
        final(counters).gaming.dice_rolls == (if event_type@ == "dice_rolled"@ { wrap_inc(old(counters).gaming.dice_rolls) } else { old(counters).gaming.dice_rolls }),
        final(counters).gaming.active_games == (if event_type@ == "game_completed"@ { wrap_dec_usize(old(counters).gaming.active_games) } else { old(counters).gaming.active_games }),
        final(counters).gaming.total_volume == old(counters).gaming.total_volume,
        final(counters).gaming.total_payouts == old(counters).gaming.total_payouts,
        final(counters).gaming.disputes == old(counters).gaming.disputes,
        final(counters).network == old(counters).network,
        final(counters).errors == old(counters).errors,
{
    proof {
        reveal_strlit("game_created");
        reveal_strlit("bet_placed");
        reveal_strlit("dice_rolled");
        reveal_strlit("game_completed");
        assert("game_created"@.len() == 12 && "bet_placed"@.len() == 10 && "dice_rolled"@.len() == 11 && "game_completed"@.len() == 14);
    }
    if str_eq(event_type, "game_created") {
        counters.gaming.total_games = wrapping_add_u64(counters.gaming.total_games, 1);
        true
    } else if str_eq(event_type, "bet_placed") {
        counters.gaming.total_bets = wrapping_add_u64(counters.gaming.total_bets, 1);
        true
    } else if str_eq(event_type, "dice_rolled") {
        counters.gaming.dice_rolls = wrapping_add_u64(counters.gaming.dice_rolls, 1);
        true
    } else if str_eq(event_type, "game_completed") {
        counters.gaming.active_games = wrapping_dec_usize(counters.gaming.active_games);
        true
    } else {
        false
    }
}

/// Counts a network event: a peer connecting or disconnecting, a message
/// sent or received; tells whether the event type is known.
pub fn record_network_event(counters: &mut MetricsCounters, event_type: &str, peer_id: Option<&str>) -> (known: bool)
    ensures
        known == (event_type@ == "peer_connected"@ || event_type@ == "peer_disconnected"@ || event_type@ == "message_sent"@
            || event_type@ == "message_received"@),
        final(counters).network.active_connections == (if event_type@ == "peer_connected"@ {
            wrap_inc_usize(old(counters).network.active_connections)
        } else if event_type@ == "peer_disconnected"@ {
            wrap_dec_usize(old(counters).network.active_connections)
        } else {
            old(counters).network.active_connections
        }),
        final(counters).network.messages_sent == (if event_type@ == "message_sent"@ { wrap_inc(old(counters).network.messages_sent) } else { old(counters).network.messages_sent }),
        final(counters).network.messages_received == (if event_type@ == "message_received"@ { wrap_inc(old(counters).network.messages_received) } else { old(counters).network.messages_received }),
        final(counters).network.bytes_sent == old(counters).network.bytes_sent,
        final(counters).network.bytes_received == old(counters).network.bytes_received,
        final(counters).network.connection_errors == old(counters).network.connection_errors,
        final(counters).gaming == old(counters).gaming,
        final(counters).errors == old(counters).errors,
{
    proof {
        reveal_strlit("peer_connected");
        reveal_strlit("peer_disconnected");
        reveal_strlit("message_sent");
        reveal_strlit("message_received");
        assert("peer_connected"@.len() == 14 && "peer_disconnected"@.len() == 17 && "message_sent"@.len() == 12 && "message_received"@.len() == 16);
    }
    if str_eq(event_type, "peer_connected") {
        counters.network.active_connections = wrapping_inc_usize(counters.network.active_connections);
        true
    } else if str_eq(event_type, "peer_disconnected") {
        counters.network.active_connections = wrapping_dec_usize(counters.network.active_connections);
        true
    } else if str_eq(event_type, "message_sent") {
        counters.network.messages_sent = wrapping_add_u64(counters.network.messages_sent, 1);
        true
    } else if str_eq(event_type, "message_received") {
        counters.network.messages_received = wrapping_add_u64(counters.network.messages_received, 1);
        true
    } else {
        false
    }
}

/// Log level at which an error of the given severity is reported.
#[derive(Debug, Clone, Copy, PartialEq, Eq, Structural)]
pub enum ReportLevel {
    Error,
    Warn,
    Info,
}

/// Counts an error of `category`: network, consensus and gaming errors
/// have their own counters, any other category counts as critical. The
/// result is the level at which the error is to be logged.
pub fn record_error(counters: &mut MetricsCounters, category: &str, severity: &str, message: &str) -> (level: ReportLevel)
    ensures
        final(counters).errors.network_errors == (if category@ == "network"@ { wrap_inc(old(counters).errors.network_errors) } else { old(counters).errors.network_errors }),
        final(counters).errors.consensus_errors == (if category@ == "consensus"@ { wrap_inc(old(counters).errors.consensus_errors) } else { old(counters).errors.consensus_errors }),
        final(counters).errors.gaming_errors == (if category@ == "gaming"@ { wrap_inc(old(counters).errors.gaming_errors) } else { old(counters).errors.gaming_errors }),
        final(counters).errors.critical_errors == (if category@ != "network"@ && category@ != "consensus"@ && category@ != "gaming"@ {
            wrap_inc(old(counters).errors.critical_errors)
        } else {
            old(counters).errors.critical_errors
        }),
        final(counters).errors.total_errors == old(counters).errors.total_errors,
        final(counters).errors.recent_errors == old(counters).errors.recent_errors,
        final(counters).network == old(counters).network,
        final(counters).gaming == old(counters).gaming,
        level == (if severity@ == "critical"@ || severity@ == "error"@ {
            ReportLevel::Error
        } else if severity@ == "warn"@ || severity@ == "warning"@ {
            ReportLevel::Warn
        } else {
            ReportLevel::Info
        }),
{
    proof {
        reveal_strlit("network");
        reveal_strlit("consensus");
        reveal_strlit("gaming");
        reveal_strlit("critical");
        reveal_strlit("error");
        reveal_strlit("warn");
        reveal_strlit("warning");
        assert("network"@.len() == 7 && "consensus"@.len() == 9 && "gaming"@.len() == 6 && "critical"@.len() == 8 && "error"@.len() == 5 && "warn"@.len() == 4 && "warning"@.len() == 7);
    }
    if str_eq(category, "network") {
        counters.errors.network_errors = wrapping_add_u64(counters.errors.network_errors, 1);
    } else if str_eq(category, "consensus") {
        counters.errors.consensus_errors = wrapping_add_u64(counters.errors.consensus_errors, 1);
    } else if str_eq(category, "gaming") {
        counters.errors.gaming_errors = wrapping_add_u64(counters.errors.gaming_errors, 1);
    } else {
        counters.errors.critical_errors = wrapping_add_u64(counters.errors.critical_errors, 1);
    }
    if str_eq(severity, "critical") || str_eq(severity, "error") {
        ReportLevel::Error
    } else if str_eq(severity, "warn") || str_eq(severity, "warning") {
        ReportLevel::Warn
    } else {
        ReportLevel::Info
    }
}

} // verus!
