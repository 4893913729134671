//! Component health checks: the score and status of the network, memory,
//! gaming and consensus components from their counters. Scores are kept in
//! tenths (0 to 10) of the unit score.

use vstd::prelude::*;
use crate::text::{concat_str, decimal, decimal_string};

verus! {

/// Health of one component.
#[derive(Debug, Clone, Copy, PartialEq, Eq, Structural)]
pub enum ComponentStatus {
    Healthy,
    Degraded,
    Unhealthy,
    Unknown,
}

/// The outcome of one component's check: status, score in tenths, what it
/// says, and when it was made (seconds since the Unix epoch).
pub struct ComponentCheck {
    pub status: ComponentStatus,
    pub score_tenths: u8,
    pub message: String,
    pub last_check: u64,
}

/// Network score: none without peers; with one or two peers 3 past ten
/// errors, else 6; with three to ten peers 7 past five errors, else 9; with
/// more peers 8 with any error, else 10.
pub open spec fn network_score(peers: nat, errors: nat) -> u8 {
    if peers == 0 {
        0
    } else if peers <= 2 {
        if errors > 10 { 3 } else { 6 }
    } else if peers <= 10 {
        if errors > 5 { 7 } else { 9 }
    } else if errors > 0 {
        8
    } else {
        10
    }
}

/// Status of a network score: healthy from 8, degraded from 5, unhealthy
/// above 0, unknown at 0.
pub open spec fn network_status(score: u8) -> ComponentStatus {
    if score >= 8 {
        ComponentStatus::Healthy
    } else if score >= 5 {
        ComponentStatus::Degraded
    } else if score > 0 {
        ComponentStatus::Unhealthy
    } else {
        ComponentStatus::Unknown
    }
}

/// Memory score and status by bytes in use: under 512 MiB 10, under 1 GiB
/// 8 (both healthy), under 2 GiB 6, under 4 GiB 4 (both degraded), else 2
/// (unhealthy).
pub open spec fn memory_grade(bytes: nat) -> (u8, ComponentStatus) {
    if bytes < 0x2000_0000 {
        (10, ComponentStatus::Healthy)
    } else if bytes < 0x4000_0000 {
        (8, ComponentStatus::Healthy)
    } else if bytes < 0x8000_0000 {
        (6, ComponentStatus::Degraded)
    } else if bytes < 0x1_0000_0000 {
        (4, ComponentStatus::Degraded)
    } else {
        (2, ComponentStatus::Unhealthy)
    }
}

/// Gaming score: 7 without games, 10 for one to five, 9 for six to twenty,
/// 6 beyond.
pub open spec fn gaming_score(games: nat) -> u8 {
    if games == 0 {
        7
    } else if games <= 5 {
        10
    } else if games <= 20 {
        9
    } else {
        6
    }
}

/// Consensus score: 10 without errors, 8 for one to three, 5 for four to
/// ten, 2 beyond.
pub open spec fn consensus_score(errors: nat) -> u8 {
    if errors == 0 {
        10
    } else if errors <= 3 {
        8
    } else if errors <= 10 {
        5
    } else {
        2
    }
}

/// Status of a consensus score: healthy from 8, degraded from 5, else
/// unhealthy.
pub open spec fn consensus_status(score: u8) -> ComponentStatus {
    if score >= 8 {
        ComponentStatus::Healthy
    } else if score >= 5 {
        ComponentStatus::Degraded
    } else {
        ComponentStatus::Unhealthy
    }
}

/// Consensus is healthy (score 10 without errors, 8 with one to three) up
/// to three errors, degraded with four to ten and unhealthy beyond; the
/// status follows the number of errors alone.
pub proof fn lemma_consensus_health_by_errors(errors: nat)
    ensures
        errors == 0 ==> consensus_score(errors) == 10,
        1 <= errors <= 3 ==> consensus_score(errors) == 8,
        (consensus_status(consensus_score(errors)) == ComponentStatus::Healthy) <==> errors <= 3,
        (consensus_status(consensus_score(errors)) == ComponentStatus::Degraded) <==> (4 <= errors <= 10),
        (consensus_status(consensus_score(errors)) == ComponentStatus::Unhealthy) <==> errors > 10,
{
}

/// The network is unknown without peers; healthy with more than ten peers,
/// or three to ten peers and at most five errors; unhealthy with one or two
/// peers and more than ten errors; degraded otherwise. Past ten peers the
/// score is full exactly when there are no errors.
pub proof fn lemma_network_health_by_load(peers: nat, errors: nat)
    ensures
        (network_status(network_score(peers, errors)) == ComponentStatus::Unknown) <==> peers == 0,
        (network_status(network_score(peers, errors)) == ComponentStatus::Healthy) <==> (peers > 10 || (3 <= peers <= 10
            && errors <= 5)),
        (network_status(network_score(peers, errors)) == ComponentStatus::Unhealthy) <==> (1 <= peers <= 2 && errors
            > 10),
        (network_status(network_score(peers, errors)) == ComponentStatus::Degraded) <==> ((1 <= peers <= 2 && errors
            <= 10) || (3 <= peers <= 10 && errors > 5)),
        peers > 10 ==> (network_score(peers, errors) == 10 <==> errors == 0),
{
}

/// Memory in use is healthy under 1 GiB, with the full score under
/// 512 MiB; degraded from 1 GiB to under 4 GiB; unhealthy from 4 GiB.
pub proof fn lemma_memory_health_by_use(bytes: nat)
    ensures
        (memory_grade(bytes).1 == ComponentStatus::Healthy) <==> bytes < 0x4000_0000,
        (memory_grade(bytes).1 == ComponentStatus::Degraded) <==> (0x4000_0000 <= bytes < 0x1_0000_0000),
        (memory_grade(bytes).1 == ComponentStatus::Unhealthy) <==> bytes >= 0x1_0000_0000,
        (memory_grade(bytes).0 == 10) <==> bytes < 0x2000_0000,
{
}

/// Gaming is healthy with one to twenty games in play, and degraded
/// without games or with more; one to five games give the full score.
pub proof fn lemma_gaming_health_by_games(games: nat)
    ensures
        (gaming_score(games) >= 8) <==> (1 <= games <= 20),
        (gaming_score(games) == 10) <==> (1 <= games <= 5),
{
}

/// Health of the network at `now` with `active_peers` connected peers and
/// `network_errors` errors.
pub fn check_network_health(active_peers: u64, network_errors: u64, now: u64) -> (c: ComponentCheck)
    ensures
        c.score_tenths == network_score(active_peers as nat, network_errors as nat),
        c.status == network_status(c.score_tenths),
        c.message@ == "Network: "@ + decimal(active_peers as nat) + " peers connected, "@ + decimal(network_errors as nat)
            + " errors"@,
        c.last_check == now,
{
    let score: u8 = if active_peers == 0 {
        0
    } else if active_peers <= 2 {
        if network_errors > 10 { 3 } else { 6 }
    } else if active_peers <= 10 {
        if network_errors > 5 { 7 } else { 9 }
    } else if network_errors > 0 {
        8
    } else {
        10
    };
    let status = if score >= 8 {
        ComponentStatus::Healthy
    } else if score >= 5 {
        ComponentStatus::Degraded
    } else if score > 0 {
        ComponentStatus::Unhealthy
    } else {
        ComponentStatus::Unknown
    };
    let a = concat_str("Network: ", decimal_string(active_peers).as_str());
    let b = concat_str(a.as_str(), " peers connected, ");
    let c = concat_str(b.as_str(), decimal_string(network_errors).as_str());
    let message = concat_str(c.as_str(), " errors");
    ComponentCheck { status, score_tenths: score, message, last_check: now }
}

/// Score and status of the memory in use, `memory_usage` bytes.
pub fn memory_health_grade(memory_usage: u64) -> (r: (u8, ComponentStatus))
    ensures
        r == memory_grade(memory_usage as nat),
{
    if memory_usage < 0x2000_0000 {
        (10, ComponentStatus::Healthy)
    } else if memory_usage < 0x4000_0000 {
        (8, ComponentStatus::Healthy)
    } else if memory_usage < 0x8000_0000 {
        (6, ComponentStatus::Degraded)
    } else if memory_usage < 0x1_0000_0000 {
        (4, ComponentStatus::Degraded)
    } else {
        (2, ComponentStatus::Unhealthy)
    }
}

/// Health of gaming at `now` with `active_games` games in play.
pub fn check_gaming_health(active_games: u64, now: u64) -> (c: ComponentCheck)
    ensures
        c.score_tenths == gaming_score(active_games as nat),
        c.status == (if c.score_tenths >= 8 { ComponentStatus::Healthy } else { ComponentStatus::Degraded }),
        c.message@ == "Gaming: "@ + decimal(active_games as nat) + " active games"@,
        c.last_check == now,
{
    let score: u8 = if active_games == 0 {
        7
    } else if active_games <= 5 {
        10
    } else if active_games <= 20 {
        9
    } else {
        6
    };
    let status = if score >= 8 { ComponentStatus::Healthy } else { ComponentStatus::Degraded };
    let a = concat_str("Gaming: ", decimal_string(active_games).as_str());
    let message = concat_str(a.as_str(), " active games");
    ComponentCheck { status, score_tenths: score, message, last_check: now }
}

/// Health of consensus at `now` with `consensus_errors` errors.
pub fn check_consensus_health(consensus_errors: u64, now: u64) -> (c: ComponentCheck)
    ensures
        c.score_tenths == consensus_score(consensus_errors as nat),
        c.status == consensus_status(c.score_tenths),
        c.message@ == "Consensus: "@ + decimal(consensus_errors as nat) + " errors detected"@,
        c.last_check == now,
{
    let score: u8 = if consensus_errors == 0 {
        10
    } else if consensus_errors <= 3 {
        8
    } else if consensus_errors <= 10 {
        5
    } else {
        2
    };
    let status = if score >= 8 {
        ComponentStatus::Healthy
    } else if score >= 5 {
        ComponentStatus::Degraded
    } else {
        ComponentStatus::Unhealthy
    };
    let a = concat_str("Consensus: ", decimal_string(consensus_errors).as_str());
    let message = concat_str(a.as_str(), " errors detected");
    ComponentCheck { status, score_tenths: score, message, last_check: now }
}

/// More errors never raise a component's score: the network's (for a
/// given number of peers), the consensus's, and more memory in use never
/// raises the memory score. Without errors, more peers never lower the
/// network score.
pub proof fn lemma_scores_fall_with_trouble(peers: nat, e1: nat, e2: nat, m1: nat, m2: nat, p1: nat, p2: nat)
    requires
        e1 <= e2,
        m1 <= m2,
        p1 <= p2,
    ensures
        network_score(peers, e2) <= network_score(peers, e1),
        consensus_score(e2) <= consensus_score(e1),
        memory_grade(m2).0 <= memory_grade(m1).0,
        network_score(p1, 0) <= network_score(p2, 0),
{
}

} // verus!
