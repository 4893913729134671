//! Alert types: severities and their order, alerts and their lifecycle,
//! notification channels, rate limits and escalation settings.

use vstd::prelude::*;
use std::collections::HashMap;
use crate::clock::current_timestamp;
use crate::text::{concat_str, new_uuid_string, uuid_parse};

verus! {

/// Alert severity levels, from least to most severe.
#[derive(Debug, Clone, Copy, PartialEq, Eq, Hash, PartialOrd, Ord, Structural)]
pub enum AlertSeverity {
    Info,
    Low,
    Medium,
    High,
    Critical,
}

/// Position of a severity in the order Info < Low < Medium < High < Critical.
pub open spec fn severity_rank(s: AlertSeverity) -> int {
    match s {
        AlertSeverity::Info => 1,
        AlertSeverity::Low => 2,
        AlertSeverity::Medium => 3,
        AlertSeverity::High => 4,
        AlertSeverity::Critical => 5,
    }
}

impl AlertSeverity {
    /// Numeric level of the severity (1 to 5).
    pub fn rank(&self) -> (r: u8)
        ensures
            r == severity_rank(*self),
    {
        match self {
            AlertSeverity::Info => 1,
            AlertSeverity::Low => 2,
            AlertSeverity::Medium => 3,
            AlertSeverity::High => 4,
            AlertSeverity::Critical => 5,
        }
    }

    /// Whether this severity is at least `other`.
    pub fn at_least(&self, other: AlertSeverity) -> (r: bool)
        ensures
            r == (severity_rank(*self) >= severity_rank(other)),
    {
        self.rank() >= other.rank()
    }
}

/// Different severities have different ranks: the order is total and strict.
pub proof fn lemma_severity_order(a: AlertSeverity, b: AlertSeverity)
    ensures
        a != b ==> severity_rank(a) != severity_rank(b),
        1 <= severity_rank(a) <= 5,
{
}

/// Seconds from `timestamp` to `now`; 0 for a time before `timestamp`.
pub open spec fn age_at(timestamp: u64, now: u64) -> u64 {
    if now >= timestamp { (now - timestamp) as u64 } else { 0 }
}

/// An alert. The measured and threshold values are kept as the bit
/// patterns of their floating-point numbers; times are seconds since the
/// Unix epoch.
#[derive(Debug)]
pub struct Alert {
    pub id: String,
    pub name: String,
    pub description: String,
    pub severity: AlertSeverity,
    pub category: String,
    pub metric_name: String,
    pub current_value_bits: u64,
    pub threshold_value_bits: u64,
    pub timestamp: u64,
    pub resolved_at: Option<u64>,
    pub tags: Vec<String>,
}

impl Clone for Alert {
    fn clone(&self) -> (r: Self)
        ensures
            r.id == self.id,
            r.name == self.name,
            r.description == self.description,
            r.severity == self.severity,
            r.category == self.category,
            r.metric_name == self.metric_name,
            r.current_value_bits == self.current_value_bits,
            r.threshold_value_bits == self.threshold_value_bits,
            r.timestamp == self.timestamp,
            r.resolved_at == self.resolved_at,
            r.tags@ == self.tags@,
    {
        Alert {
            id: self.id.clone(),
            name: self.name.clone(),
            description: self.description.clone(),
            severity: self.severity,
            category: self.category.clone(),
            metric_name: self.metric_name.clone(),
            current_value_bits: self.current_value_bits,
            threshold_value_bits: self.threshold_value_bits,
            timestamp: self.timestamp,
            resolved_at: self.resolved_at,
            tags: clone_strings(&self.tags),
        }
    }
}

/// A copy of a list of strings.
pub fn clone_strings(v: &Vec<String>) -> (r: Vec<String>)
    ensures
        r@ == v@,
{
    let r = v.clone();
    assert(r@ =~= v@);
    r
}

impl Alert {
    /// An unresolved, untagged alert raised at `now` with id `id`.
    pub fn new_at(
        id: String,
        name: String,
        description: String,
        severity: AlertSeverity,
        category: String,
        metric_name: String,
        current_value_bits: u64,
        threshold_value_bits: u64,
        now: u64,
    ) -> (a: Self)
        ensures
            a.id == id,
            a.name == name,
            a.description == description,
            a.severity == severity,
            a.category == category,
            a.metric_name == metric_name,
            a.current_value_bits == current_value_bits,
            a.threshold_value_bits == threshold_value_bits,
            a.timestamp == now,
            a.resolved_at is None,
            a.tags@.len() == 0,
    {
        Alert {
            id,
            name,
            description,
            severity,
            category,
            metric_name,
            current_value_bits,
            threshold_value_bits,
            timestamp: now,
            resolved_at: None,
            tags: Vec::new(),
        }
    }

    /// A new alert with a fresh random UUID as id, raised now.
    pub fn new(
        name: String,
        description: String,
        severity: AlertSeverity,
        category: String,
        metric_name: String,
        current_value_bits: u64,
        threshold_value_bits: u64,
    ) -> (a: Self)
        ensures
            uuid_parse(a.id@) is Some,
            a.name == name,
            a.description == description,
            a.severity == severity,
            a.category == category,
            a.metric_name == metric_name,
            a.current_value_bits == current_value_bits,
            a.threshold_value_bits == threshold_value_bits,
            a.resolved_at is None,
            a.tags@.len() == 0,
    {
        let id = new_uuid_string();
        let now = current_timestamp();
        Self::new_at(id, name, description, severity, category, metric_name, current_value_bits, threshold_value_bits, now)
    }

    /// The alert with `tag` added.
    pub fn with_tag(self, tag: String) -> (a: Self)
        ensures
            a.tags@ == self.tags@.push(tag),
            a.id == self.id,
            a.severity == self.severity,
            a.timestamp == self.timestamp,
            a.resolved_at == self.resolved_at,
    {
        let mut a = self;
        a.tags.push(tag);
        a
    }

    /// The alert with `tags` added after its own.
    pub fn with_tags(self, tags: Vec<String>) -> (a: Self)
        ensures
            a.tags@ == self.tags@ + tags@,
            a.id == self.id,
            a.name == self.name,
            a.description == self.description,
            a.severity == self.severity,
            a.category == self.category,
            a.metric_name == self.metric_name,
            a.current_value_bits == self.current_value_bits,
            a.threshold_value_bits == self.threshold_value_bits,
            a.timestamp == self.timestamp,
            a.resolved_at == self.resolved_at,
    {
        let mut a = self;
        let mut more = tags;
        a.tags.append(&mut more);
        a
    }

    /// Whether the alert is resolved.
    pub fn is_resolved(&self) -> (r: bool)
        ensures
            r == self.resolved_at is Some,
    {
        self.resolved_at.is_some()
    }

    /// Marks the alert resolved at `now`.
    pub fn resolve_at(&mut self, now: u64)
        ensures
            final(self).resolved_at == Some(now),
            final(self).id == old(self).id,
            final(self).severity == old(self).severity,
            final(self).timestamp == old(self).timestamp,
    {
        self.resolved_at = Some(now);
    }

    /// Marks the alert resolved now.
    pub fn resolve(&mut self)
        ensures
            final(self).resolved_at is Some,
            final(self).id == old(self).id,
            final(self).severity == old(self).severity,
            final(self).timestamp == old(self).timestamp,
    {
        self.resolve_at(current_timestamp());
    }

    /// Seconds from the alert to `now`; 0 for a time before the alert.
    pub fn age_seconds_at(&self, now: u64) -> (r: u64)
        ensures
            r == (if now >= self.timestamp { now - self.timestamp } else { 0 }),
    {
        if now >= self.timestamp {
            now - self.timestamp
        } else {
            0
        }
    }

    /// Seconds since the alert was raised, by the clock's current reading.
    pub fn age_seconds(&self) -> (r: u64)
        ensures
            exists|now: u64| r == #[trigger] age_at(self.timestamp, now),
    {
        let now = current_timestamp();
        let r = self.age_seconds_at(now);
        assert(r == age_at(self.timestamp, now));
        r
    }

    /// Seconds from raising to resolution, for a resolved alert; 0 when the
    /// resolution is dated before the alert.
    pub fn resolution_time_seconds(&self) -> (r: Option<u64>)
        ensures
            self.resolved_at is None ==> r is None,
            self.resolved_at matches Some(t) ==> r == Some(
                if t >= self.timestamp { (t - self.timestamp) as u64 } else { 0u64 },
            ),
    {
        match self.resolved_at {
            Some(t) => Some(if t >= self.timestamp { t - self.timestamp } else { 0 }),
            None => None,
        }
    }
}

/// Overall system health status.
#[derive(Debug, Clone, Copy, PartialEq, Eq, Structural)]
pub enum SystemHealth {
    Healthy,
    Warning,
    Critical,
}

/// Current alert status for the system.
#[derive(Debug)]
pub struct AlertStatus {
    pub active_alerts: usize,
    pub critical_alerts: usize,
    pub total_alerts_last_24h: usize,
    pub system_health: SystemHealth,
}

/// Notification rate limiting configuration.
#[derive(Debug, Clone, Copy, PartialEq, Eq, Structural)]
pub struct NotificationRateLimit {
    pub max_per_hour: u32,
    pub max_per_day: u32,
}

/// SMTP configuration for email notifications.
#[derive(Debug)]
pub struct SMTPConfig {
    pub host: String,
    pub port: u16,
    pub username: String,
    pub password: String,
    pub use_tls: bool,
}

/// SMS API configuration.
#[derive(Debug)]
pub struct SMSConfig {
    pub api_key: String,
    pub api_url: String,
    pub provider: String,
}

/// Types of notification channels available.
#[derive(Debug)]
pub enum NotificationChannelType {
    Email { to: String, smtp_config: SMTPConfig },
    Slack { webhook_url: String },
    Discord { webhook_url: String },
    PagerDuty { integration_key: String },
    Webhook { url: String, headers: HashMap<String, String> },
    SMS { phone_number: String, api_config: SMSConfig },
    Teams { webhook_url: String },
}

/// Notification channel configuration.
#[derive(Debug)]
pub struct NotificationChannel {
    pub name: String,
    pub channel_type: NotificationChannelType,
    pub min_severity: Option<AlertSeverity>,
    pub categories: Vec<String>,
    pub required_tags: Vec<String>,
}

/// Notification configuration.
#[derive(Debug)]
pub struct NotificationConfig {
    pub channels: Vec<NotificationChannel>,
    pub rate_limit: NotificationRateLimit,
}

impl NotificationConfig {
    /// The default configuration: one console channel posting to the
    /// webhook `url` for alerts of medium severity or above, and at most 100
    /// notifications an hour and 1000 a day.
    pub fn default_with_webhook(url: String) -> (c: Self)
        ensures
            c.channels@.len() == 1,
            c.channels@[0].name@ == "console"@,
            c.channels@[0].channel_type matches NotificationChannelType::Webhook { url: u, .. } && u == url,
            c.channels@[0].min_severity == Some(AlertSeverity::Medium),
            c.channels@[0].categories@.len() == 0,
            c.channels@[0].required_tags@.len() == 0,
            c.rate_limit == (NotificationRateLimit { max_per_hour: 100, max_per_day: 1000 }),
    {
        NotificationConfig {
            channels: vec![NotificationChannel {
                name: "console".to_owned(),
                channel_type: NotificationChannelType::Webhook { url, headers: HashMap::new() },
                min_severity: Some(AlertSeverity::Medium),
                categories: Vec::new(),
                required_tags: Vec::new(),
            }],
            rate_limit: NotificationRateLimit { max_per_hour: 100, max_per_day: 1000 },
        }
    }
}

/// Escalation rule for automated escalation.
#[derive(Debug)]
pub struct EscalationRule {
    pub level: u32,
    pub delay_minutes: u32,
    pub severity_filter: Option<AlertSeverity>,
    pub channels: Vec<String>,
}

/// Escalation configuration.
#[derive(Debug)]
pub struct EscalationConfig {
    pub enable_escalation: bool,
    pub escalation_delay_minutes: u32,
    pub max_escalation_level: u32,
    pub escalation_rules: Vec<EscalationRule>,
}

impl Default for EscalationConfig {
    /// Escalation on, after 15 minutes, up to level 3: level 1 pages the
    /// primary on-call for high alerts after 15 minutes, level 2 the
    /// secondary on-call and the manager for critical ones after 30, level 3
    /// the executive on-call after 60.
    fn default() -> (c: Self)
        ensures
            c.enable_escalation,
            c.escalation_delay_minutes == 15,
            c.max_escalation_level == 3,
            c.escalation_rules@.len() == 3,
            c.escalation_rules@[0].level == 1 && c.escalation_rules@[0].delay_minutes == 15
                && c.escalation_rules@[0].severity_filter == Some(AlertSeverity::High)
                && c.escalation_rules@[0].channels@.len() == 1
                && c.escalation_rules@[0].channels@[0]@ == "primary_oncall"@,
            c.escalation_rules@[1].level == 2 && c.escalation_rules@[1].delay_minutes == 30
                && c.escalation_rules@[1].severity_filter == Some(AlertSeverity::Critical)
                && c.escalation_rules@[1].channels@.len() == 2
                && c.escalation_rules@[1].channels@[0]@ == "secondary_oncall"@
                && c.escalation_rules@[1].channels@[1]@ == "manager"@,
            c.escalation_rules@[2].level == 3 && c.escalation_rules@[2].delay_minutes == 60
                && c.escalation_rules@[2].severity_filter == Some(AlertSeverity::Critical)
                && c.escalation_rules@[2].channels@.len() == 1
                && c.escalation_rules@[2].channels@[0]@ == "executive_oncall"@,
    {
        EscalationConfig {
            enable_escalation: true,
            escalation_delay_minutes: 15,
            max_escalation_level: 3,
            escalation_rules: vec![
                EscalationRule {
                    level: 1,
                    delay_minutes: 15,
                    severity_filter: Some(AlertSeverity::High),
                    channels: vec!["primary_oncall".to_owned()],
                },
                EscalationRule {
                    level: 2,
                    delay_minutes: 30,
                    severity_filter: Some(AlertSeverity::Critical),
                    channels: vec!["secondary_oncall".to_owned(), "manager".to_owned()],
                },
                EscalationRule {
                    level: 3,
                    delay_minutes: 60,
                    severity_filter: Some(AlertSeverity::Critical),
                    channels: vec!["executive_oncall".to_owned()],
                },
            ],
        }
    }
}

/// Errors of the alerting system.
#[derive(Debug)]
pub enum AlertingError {
    ProcessingError(String),
    NotificationError(String),
    ConfigurationError(String),
    UnknownMetric(String),
    RateLimitExceeded,
    ChannelNotFound(String),
    SerializationError(String),
    HttpError(String),
}

impl AlertingError {
    /// The error's message, as the app displays it.
    pub fn message(&self) -> (r: String)
        ensures
            (match self {
                AlertingError::ProcessingError(m) => r@ == "Processing error: "@ + m@,
                AlertingError::NotificationError(m) => r@ == "Notification error: "@ + m@,
                AlertingError::ConfigurationError(m) => r@ == "Configuration error: "@ + m@,
                AlertingError::UnknownMetric(m) => r@ == "Unknown metric: "@ + m@,
                AlertingError::RateLimitExceeded => r@ == "Rate limit exceeded"@,
                AlertingError::ChannelNotFound(m) => r@ == "Channel not found: "@ + m@,
                AlertingError::SerializationError(m) => r@ == "Serialization error: "@ + m@,
                AlertingError::HttpError(m) => r@ == "HTTP error: "@ + m@,
            }),
    {
        match self {
            AlertingError::ProcessingError(m) => concat_str("Processing error: ", m.as_str()),
            AlertingError::NotificationError(m) => concat_str("Notification error: ", m.as_str()),
            AlertingError::ConfigurationError(m) => concat_str("Configuration error: ", m.as_str()),
            AlertingError::UnknownMetric(m) => concat_str("Unknown metric: ", m.as_str()),
            AlertingError::RateLimitExceeded => "Rate limit exceeded".to_owned(),
            AlertingError::ChannelNotFound(m) => concat_str("Channel not found: ", m.as_str()),
            AlertingError::SerializationError(m) => concat_str("Serialization error: ", m.as_str()),
            AlertingError::HttpError(m) => concat_str("HTTP error: ", m.as_str()),
        }
    }
}

} // verus!
