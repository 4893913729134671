//! Metric counters for the network, the games and the errors, with the
//! snapshots they export and the bounded list of recent errors.

use vstd::prelude::*;
use crate::text::{decimal, decimal_string};

verus! {

/// Error categories.
#[derive(Debug, Clone, Copy, PartialEq, Eq, Structural)]
pub enum ErrorCategory {
    Network,
    Consensus,
    Gaming,
    Other,
}

/// An error event.
#[derive(Debug)]
pub struct ErrorEvent {
    pub timestamp: u64,
    pub category: ErrorCategory,
    pub message: String,
    pub is_critical: bool,
}

/// Counters of network traffic. The counters wrap around on overflow.
#[derive(Debug)]
pub struct NetworkCounters {
    pub messages_sent: u64,
    pub messages_received: u64,
    pub bytes_sent: u64,
    pub bytes_received: u64,
    pub active_connections: usize,
    pub connection_errors: u64,
}

/// `a + b` wrapping around at 2^64.
pub open spec fn wrap_add(a: u64, b: u64) -> u64 {
    if a + b <= u64::MAX { (a + b) as u64 } else { (a + b - 18446744073709551616) as u64 }
}

/// `a + 1` wrapping around at 2^64.
pub open spec fn wrap_inc(a: u64) -> u64 {
    wrap_add(a, 1)
}

/// `a + b`, wrapping around at 2^64.
pub fn wrapping_add_u64(a: u64, b: u64) -> (r: u64)
    ensures
        r == wrap_add(a, b),
{
    if a <= u64::MAX - b {
        a + b
    } else {
        b - (u64::MAX - a) - 1
    }
}

/// `a + 1` on a count of items, wrapping around at the largest `usize`.
pub open spec fn wrap_inc_usize(a: usize) -> usize {
    if a < usize::MAX { (a + 1) as usize } else { 0 }
}

/// `a - 1` on a count of items, wrapping around at zero.
pub open spec fn wrap_dec_usize(a: usize) -> usize {
    if a > 0 { (a - 1) as usize } else { usize::MAX }
}

pub fn wrapping_inc_usize(a: usize) -> (r: usize)
    ensures
        r == wrap_inc_usize(a),
{
    if a < usize::MAX { a + 1 } else { 0 }
}

pub fn wrapping_dec_usize(a: usize) -> (r: usize)
    ensures
        r == wrap_dec_usize(a),
{
    if a > 0 { a - 1 } else { usize::MAX }
}

impl NetworkCounters {
    pub fn new() -> (n: Self)
        ensures
            n.messages_sent == 0 && n.messages_received == 0 && n.bytes_sent == 0 && n.bytes_received == 0,
            n.active_connections == 0 && n.connection_errors == 0,
    {
        NetworkCounters {
            messages_sent: 0,
            messages_received: 0,
            bytes_sent: 0,
            bytes_received: 0,
            active_connections: 0,
            connection_errors: 0,
        }
    }

    /// Counts a sent message of `bytes` bytes.
    pub fn record_message_sent(&mut self, bytes: u64)
        ensures
            final(self).messages_sent == wrap_inc(old(self).messages_sent),
            final(self).bytes_sent == wrap_add(old(self).bytes_sent, bytes),
            final(self).messages_received == old(self).messages_received,
            final(self).bytes_received == old(self).bytes_received,
            final(self).active_connections == old(self).active_connections,
            final(self).connection_errors == old(self).connection_errors,
    {
        self.messages_sent = wrapping_add_u64(self.messages_sent, 1);
        self.bytes_sent = wrapping_add_u64(self.bytes_sent, bytes);
    }

    /// Counts a received message of `bytes` bytes.
    pub fn record_message_received(&mut self, bytes: u64)
        ensures
            final(self).messages_received == wrap_inc(old(self).messages_received),
            final(self).bytes_received == wrap_add(old(self).bytes_received, bytes),
            final(self).messages_sent == old(self).messages_sent,
            final(self).bytes_sent == old(self).bytes_sent,
            final(self).active_connections == old(self).active_connections,
            final(self).connection_errors == old(self).connection_errors,
    {
        self.messages_received = wrapping_add_u64(self.messages_received, 1);
        self.bytes_received = wrapping_add_u64(self.bytes_received, bytes);
    }

    /// The counters as exported.
    pub fn snapshot(&self) -> (s: NetworkSnapshot)
        ensures
            s.messages_sent == self.messages_sent,
            s.messages_received == self.messages_received,
            s.bytes_sent == self.bytes_sent,
            s.bytes_received == self.bytes_received,
            s.active_connections == self.active_connections,
            s.connection_errors == self.connection_errors,
    {
        NetworkSnapshot {
            messages_sent: self.messages_sent,
            messages_received: self.messages_received,
            bytes_sent: self.bytes_sent,
            bytes_received: self.bytes_received,
            active_connections: self.active_connections,
            connection_errors: self.connection_errors,
        }
    }
}

/// Gaming counters. The counters wrap around on overflow.
#[derive(Debug)]
pub struct GamingMetrics {
    pub total_games: u64,
    pub active_games: usize,
    pub total_bets: u64,
    pub total_volume: u64,
    pub total_payouts: u64,
    pub dice_rolls: u64,
    pub disputes: u64,
}

impl GamingMetrics {
    pub fn new() -> (g: Self)
        ensures
            g.total_games == 0 && g.active_games == 0 && g.total_bets == 0 && g.total_volume == 0,
            g.total_payouts == 0 && g.dice_rolls == 0 && g.disputes == 0,
    {
        GamingMetrics {
            total_games: 0,
            active_games: 0,
            total_bets: 0,
            total_volume: 0,
            total_payouts: 0,
            dice_rolls: 0,
            disputes: 0,
        }
    }

    /// Counts a bet of `amount`: one more bet, and the amount added to the volume.
    pub fn record_bet(&mut self, amount: u64)
        ensures
            final(self).total_bets == wrap_inc(old(self).total_bets),
            final(self).total_volume == wrap_add(old(self).total_volume, amount),
            final(self).total_games == old(self).total_games,
            final(self).active_games == old(self).active_games,
            final(self).total_payouts == old(self).total_payouts,
            final(self).dice_rolls == old(self).dice_rolls,
            final(self).disputes == old(self).disputes,
    {
        self.total_bets = wrapping_add_u64(self.total_bets, 1);
        self.total_volume = wrapping_add_u64(self.total_volume, amount);
    }

    /// Counts a payout of `amount`.
    pub fn record_payout(&mut self, amount: u64)
        ensures
            final(self).total_payouts == wrap_add(old(self).total_payouts, amount),
            final(self).total_games == old(self).total_games,
            final(self).active_games == old(self).active_games,
            final(self).total_bets == old(self).total_bets,
            final(self).total_volume == old(self).total_volume,
            final(self).dice_rolls == old(self).dice_rolls,
            final(self).disputes == old(self).disputes,
    {
        self.total_payouts = wrapping_add_u64(self.total_payouts, amount);
    }

    /// The counters as exported.
    pub fn snapshot(&self) -> (s: GamingSnapshot)
        ensures
            s.total_games == self.total_games,
            s.active_games == self.active_games,
            s.total_bets == self.total_bets,
            s.total_volume == self.total_volume,
            s.total_payouts == self.total_payouts,
    {
        GamingSnapshot {
            total_games: self.total_games,
            active_games: self.active_games,
            total_bets: self.total_bets,
            total_volume: self.total_volume,
            total_payouts: self.total_payouts,
        }
    }
}

/// Bets that were counted add up: after bets of `a` then `b` the volume
/// grew by `a + b` (modulo 2^64) and the bet count by two.
pub proof fn lemma_bet_volume_adds(v: u64, a: u64, b: u64)
    ensures
        wrap_add(wrap_add(v, a), b) == (v + a + b) % 18446744073709551616,
{
}

/// How many recent errors are kept.
pub const MAX_RECENT_ERRORS: usize = 100;

/// Error counters and the most recent errors, oldest first.
#[derive(Debug)]
pub struct ErrorMetrics {
    pub total_errors: u64,
    pub network_errors: u64,
    pub consensus_errors: u64,
    pub gaming_errors: u64,
    pub critical_errors: u64,
    pub recent_errors: Vec<ErrorEvent>,
}

impl ErrorMetrics {
    pub fn new() -> (e: Self)
        ensures
            e.total_errors == 0 && e.network_errors == 0 && e.consensus_errors == 0,
            e.gaming_errors == 0 && e.critical_errors == 0,
            e.recent_errors@.len() == 0,
    {
        ErrorMetrics {
            total_errors: 0,
            network_errors: 0,
            consensus_errors: 0,
            gaming_errors: 0,
            critical_errors: 0,
            recent_errors: Vec::new(),
        }
    }

    /// Counts an error at time `now` and keeps it among the recent errors,
    /// dropping the oldest when a hundred are kept.
    pub fn record_error_at(&mut self, category: ErrorCategory, message: String, is_critical: bool, now: u64)
        ensures
            final(self).total_errors == wrap_inc(old(self).total_errors),
            final(self).network_errors == (if category == ErrorCategory::Network { wrap_inc(old(self).network_errors) } else { old(self).network_errors }),
            final(self).consensus_errors == (if category == ErrorCategory::Consensus { wrap_inc(old(self).consensus_errors) } else { old(self).consensus_errors }),
            final(self).gaming_errors == (if category == ErrorCategory::Gaming { wrap_inc(old(self).gaming_errors) } else { old(self).gaming_errors }),
            final(self).critical_errors == (if is_critical { wrap_inc(old(self).critical_errors) } else { old(self).critical_errors }),
            old(self).recent_errors@.len() <= MAX_RECENT_ERRORS ==> final(self).recent_errors@.len() <= MAX_RECENT_ERRORS,
            final(self).recent_errors@ == (if old(self).recent_errors@.len() >= MAX_RECENT_ERRORS {
                old(self).recent_errors@.drop_first()
            } else {
                old(self).recent_errors@
            }).push(ErrorEvent { timestamp: now, category, message, is_critical }),
    {
        self.total_errors = wrapping_add_u64(self.total_errors, 1);
        match category {
            ErrorCategory::Network => {
                self.network_errors = wrapping_add_u64(self.network_errors, 1);
            },
            ErrorCategory::Consensus => {
                self.consensus_errors = wrapping_add_u64(self.consensus_errors, 1);
            },
            ErrorCategory::Gaming => {
                self.gaming_errors = wrapping_add_u64(self.gaming_errors, 1);
            },
            ErrorCategory::Other => {},
        }
        if is_critical {
            self.critical_errors = wrapping_add_u64(self.critical_errors, 1);
        }
        if self.recent_errors.len() >= MAX_RECENT_ERRORS {
            self.recent_errors.remove(0);
        }
        self.recent_errors.push(ErrorEvent { timestamp: now, category, message, is_critical });
    }

    /// Counts an error at the clock's current reading, as `record_error_at`
    /// does.
    pub fn record_error(&mut self, category: ErrorCategory, message: String, is_critical: bool)
        ensures
            final(self).total_errors == wrap_inc(old(self).total_errors),
            final(self).network_errors == (if category == ErrorCategory::Network { wrap_inc(old(self).network_errors) } else { old(self).network_errors }),
            final(self).consensus_errors == (if category == ErrorCategory::Consensus { wrap_inc(old(self).consensus_errors) } else { old(self).consensus_errors }),
            final(self).gaming_errors == (if category == ErrorCategory::Gaming { wrap_inc(old(self).gaming_errors) } else { old(self).gaming_errors }),
            final(self).critical_errors == (if is_critical { wrap_inc(old(self).critical_errors) } else { old(self).critical_errors }),
            old(self).recent_errors@.len() <= MAX_RECENT_ERRORS ==> final(self).recent_errors@.len() <= MAX_RECENT_ERRORS,
            final(self).recent_errors@.len() > 0,
            exists|now: u64| final(self).recent_errors@ == (if old(self).recent_errors@.len() >= MAX_RECENT_ERRORS {
                old(self).recent_errors@.drop_first()
            } else {
                old(self).recent_errors@
            }).push(#[trigger] error_event(now, category, message, is_critical)),
    {
        let ghost m = message;
        let now = crate::clock::current_timestamp();
        self.record_error_at(category, message, is_critical, now);
        assert(error_event(now, category, m, is_critical) == ErrorEvent { timestamp: now, category, message: m, is_critical });
    }

    /// The counters as exported.
    pub fn snapshot(&self) -> (s: ErrorSnapshot)
        ensures
            s.total_errors == self.total_errors,
            s.network_errors == self.network_errors,
            s.consensus_errors == self.consensus_errors,
            s.gaming_errors == self.gaming_errors,
    {
        ErrorSnapshot {
            total_errors: self.total_errors,
            network_errors: self.network_errors,
            consensus_errors: self.consensus_errors,
            gaming_errors: self.gaming_errors,
        }
    }
}

/// The recorded error of `category` with `message` at `now`.
pub open spec fn error_event(now: u64, category: ErrorCategory, message: String, is_critical: bool) -> ErrorEvent {
    ErrorEvent { timestamp: now, category, message, is_critical }
}

/// Exported network counters.
#[derive(Debug)]
pub struct NetworkSnapshot {
    pub messages_sent: u64,
    pub messages_received: u64,
    pub bytes_sent: u64,
    pub bytes_received: u64,
    pub active_connections: usize,
    pub connection_errors: u64,
}

/// Exported gaming counters.
#[derive(Debug)]
pub struct GamingSnapshot {
    pub total_games: u64,
    pub active_games: usize,
    pub total_bets: u64,
    pub total_volume: u64,
    pub total_payouts: u64,
}

/// Exported resource usage.
#[derive(Debug)]
pub struct ResourceSnapshot {
    pub memory_usage_bytes: u64,
    pub cpu_usage_percent: usize,
    pub disk_usage_bytes: u64,
    pub thread_count: usize,
}

/// Exported error counters.
#[derive(Debug)]
pub struct ErrorSnapshot {
    pub total_errors: u64,
    pub network_errors: u64,
    pub consensus_errors: u64,
    pub gaming_errors: u64,
}

/// The counters that the monitoring integration updates.
#[derive(Debug)]
pub struct MetricsCounters {
    pub network: NetworkCounters,
    pub gaming: GamingMetrics,
    pub errors: ErrorMetrics,
}

impl MetricsCounters {
    pub fn new() -> (m: Self)
        ensures
            m.network.messages_sent == 0 && m.network.messages_received == 0 && m.network.active_connections == 0,
            m.network.bytes_sent == 0 && m.network.bytes_received == 0 && m.network.connection_errors == 0,
            m.gaming.total_games == 0 && m.gaming.total_bets == 0 && m.gaming.dice_rolls == 0 && m.gaming.active_games == 0,
            m.gaming.total_volume == 0 && m.gaming.total_payouts == 0 && m.gaming.disputes == 0,
            m.errors.total_errors == 0 && m.errors.network_errors == 0 && m.errors.consensus_errors == 0,
            m.errors.gaming_errors == 0 && m.errors.critical_errors == 0,
            m.errors.recent_errors@.len() == 0,
    {
        MetricsCounters { network: NetworkCounters::new(), gaming: GamingMetrics::new(), errors: ErrorMetrics::new() }
    }
}

/// What the Prometheus export reads besides the counters: the consensus and
/// resource figures, with those measured as floating-point values already
/// rendered as text, and the uptime.
#[derive(Debug)]
pub struct ExportFigures {
    pub proposals_accepted: u64,
    pub consensus_latency_ms: String,
    pub memory_usage_bytes: u64,
    pub cpu_usage_percent: usize,
    pub battery_level: Option<String>,
    pub battery_charging: Option<bool>,
    pub temperature_celsius: Option<String>,
    pub thermal_throttling: bool,
    pub uptime_seconds: u64,
}

/// One metric in the Prometheus text format: its help line, its type line
/// and its sample.
pub open spec fn metric_block(name: Seq<char>, help: Seq<char>, kind: Seq<char>, value: Seq<char>) -> Seq<char> {
    "# HELP "@ + name + " "@ + help + "\n# TYPE "@ + name + " "@ + kind + "\n"@ + name + " "@ + value + "\n"@
}

/// A flag as a Prometheus gauge value.
pub open spec fn flag_text(b: bool) -> Seq<char> {
    if b { "1"@ } else { "0"@ }
}

/// The battery and temperature metrics, each present only when measured.
pub open spec fn device_blocks(f: ExportFigures) -> Seq<char> {
    (match f.battery_level {
        Some(v) => metric_block("bitcraps_battery_level"@, "Battery level percentage"@, "gauge"@, v@),
        None => Seq::empty(),
    }) + (match f.battery_charging {
        Some(c) => metric_block(
            "bitcraps_battery_charging"@,
            "Battery charging status (1=charging, 0=discharging)"@,
            "gauge"@,
            flag_text(c),
        ),
        None => Seq::empty(),
    }) + (match f.temperature_celsius {
        Some(v) => metric_block("bitcraps_temperature_celsius"@, "Device temperature in Celsius"@, "gauge"@, v@),
        None => Seq::empty(),
    })
}

/// The Prometheus text export of the counters and figures.
pub open spec fn prometheus_text(c: MetricsCounters, f: ExportFigures) -> Seq<char> {
    metric_block(
        "bitcraps_network_messages_sent"@,
        "Total messages sent"@,
        "counter"@,
        decimal(c.network.messages_sent as nat),
    ) + metric_block(
        "bitcraps_network_messages_received"@,
        "Total messages received"@,
        "counter"@,
        decimal(c.network.messages_received as nat),
    ) + metric_block("bitcraps_network_bytes_sent"@, "Total bytes sent"@, "counter"@, decimal(c.network.bytes_sent as nat))
        + metric_block(
        "bitcraps_network_active_connections"@,
        "Active connections"@,
        "gauge"@,
        decimal(c.network.active_connections as nat),
    ) + metric_block(
        "bitcraps_consensus_proposals_accepted"@,
        "Accepted proposals"@,
        "counter"@,
        decimal(f.proposals_accepted as nat),
    ) + metric_block(
        "bitcraps_consensus_latency_ms"@,
        "Average consensus latency"@,
        "gauge"@,
        f.consensus_latency_ms@,
    ) + metric_block("bitcraps_games_total"@, "Total games played"@, "counter"@, decimal(c.gaming.total_games as nat))
        + metric_block("bitcraps_bets_total"@, "Total bets placed"@, "counter"@, decimal(c.gaming.total_bets as nat))
        + metric_block(
        "bitcraps_memory_usage_bytes"@,
        "Current memory usage"@,
        "gauge"@,
        decimal(f.memory_usage_bytes as nat),
    ) + metric_block(
        "bitcraps_cpu_usage_percent"@,
        "CPU usage percentage"@,
        "gauge"@,
        decimal(f.cpu_usage_percent as nat),
    ) + device_blocks(f) + metric_block(
        "bitcraps_thermal_throttling"@,
        "Thermal throttling active (1=yes, 0=no)"@,
        "gauge"@,
        flag_text(f.thermal_throttling),
    ) + metric_block("bitcraps_errors_total"@, "Total errors"@, "counter"@, decimal(c.errors.total_errors as nat))
        + metric_block("bitcraps_uptime_seconds"@, "Uptime in seconds"@, "counter"@, decimal(f.uptime_seconds as nat))
}

/// Appends one metric in the Prometheus text format.
fn push_block(out: &mut String, name: &str, help: &str, kind: &str, value: &str)
    ensures
        final(out)@ == old(out)@ + metric_block(name@, help@, kind@, value@),
{
    out.append("# HELP ");
    out.append(name);
    out.append(" ");
    out.append(help);
    out.append("\n# TYPE ");
    out.append(name);
    out.append(" ");
    out.append(kind);
    out.append("\n");
    out.append(name);
    out.append(" ");
    out.append(value);
    out.append("\n");
    assert(out@ =~= old(out)@ + metric_block(name@, help@, kind@, value@));
}

/// Appends a metric whose value is a decimal count.
fn push_count(out: &mut String, name: &str, help: &str, kind: &str, value: u64)
    ensures
        final(out)@ == old(out)@ + metric_block(name@, help@, kind@, decimal(value as nat)),
{
    let v = decimal_string(value);
    push_block(out, name, help, kind, v.as_str());
}

/// Appends a metric whose value is a flag.
fn push_flag(out: &mut String, name: &str, help: &str, flag: bool)
    ensures
        final(out)@ == old(out)@ + metric_block(name@, help@, "gauge"@, flag_text(flag)),
{
    if flag {
        push_block(out, name, help, "gauge", "1");
    } else {
        push_block(out, name, help, "gauge", "0");
    }
}

/// Appends the battery and temperature metrics that were measured.
fn push_device_blocks(out: &mut String, f: &ExportFigures)
    ensures
        final(out)@ == old(out)@ + device_blocks(*f),
{
    let ghost start = out@;
    match &f.battery_level {
        Some(v) => push_block(out, "bitcraps_battery_level", "Battery level percentage", "gauge", v.as_str()),
        None => {},
    }
    match f.battery_charging {
        Some(c) => push_flag(out, "bitcraps_battery_charging", "Battery charging status (1=charging, 0=discharging)", c),
        None => {},
    }
    match &f.temperature_celsius {
        Some(v) => push_block(out, "bitcraps_temperature_celsius", "Device temperature in Celsius", "gauge", v.as_str()),
        None => {},
    }
    assert(out@ =~= start + device_blocks(*f));
}

impl MetricsCounters {
    /// The counters and figures in the Prometheus text exposition format.
    pub fn export_prometheus(&self, f: &ExportFigures) -> (r: String)
        ensures
            r@ == prometheus_text(*self, *f),
    {
        let mut out = String::new();
        push_count(&mut out, "bitcraps_network_messages_sent", "Total messages sent", "counter", self.network.messages_sent);
        assert(out@ =~= Seq::<char>::empty() + metric_block(
            "bitcraps_network_messages_sent"@,
            "Total messages sent"@,
            "counter"@,
            decimal(self.network.messages_sent as nat),
        ));
        push_count(
            &mut out,
            "bitcraps_network_messages_received",
            "Total messages received",
            "counter",
            self.network.messages_received,
        );
        push_count(&mut out, "bitcraps_network_bytes_sent", "Total bytes sent", "counter", self.network.bytes_sent);
        push_count(
            &mut out,
            "bitcraps_network_active_connections",
            "Active connections",
            "gauge",
            self.network.active_connections as u64,
        );
        push_count(
            &mut out,
            "bitcraps_consensus_proposals_accepted",
            "Accepted proposals",
            "counter",
            f.proposals_accepted,
        );
        push_block(
            &mut out,
            "bitcraps_consensus_latency_ms",
            "Average consensus latency",
            "gauge",
            f.consensus_latency_ms.as_str(),
        );
        push_count(&mut out, "bitcraps_games_total", "Total games played", "counter", self.gaming.total_games);
        push_count(&mut out, "bitcraps_bets_total", "Total bets placed", "counter", self.gaming.total_bets);
        push_count(&mut out, "bitcraps_memory_usage_bytes", "Current memory usage", "gauge", f.memory_usage_bytes);
        push_count(&mut out, "bitcraps_cpu_usage_percent", "CPU usage percentage", "gauge", f.cpu_usage_percent as u64);
        push_device_blocks(&mut out, f);
        push_flag(&mut out, "bitcraps_thermal_throttling", "Thermal throttling active (1=yes, 0=no)", f.thermal_throttling);
        push_count(&mut out, "bitcraps_errors_total", "Total errors", "counter", self.errors.total_errors);
        push_count(&mut out, "bitcraps_uptime_seconds", "Uptime in seconds", "counter", f.uptime_seconds);
        out
    }
}

} // verus!
