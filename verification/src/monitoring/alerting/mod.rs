//! Alerting: alert types, escalation and alert state.

pub mod alert_types;
pub mod escalation;
pub mod alert_state;
pub mod notification_channels;
pub mod alert_conditions;
