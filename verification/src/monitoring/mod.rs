//! Monitoring: alerting, metrics, dashboards, logging and system monitors.

pub mod alerting;
pub mod logging;
pub mod system;
pub mod metrics;
pub mod integration;
pub mod dashboard;
pub mod real_metrics;
pub mod overflow;
pub mod http_server;
pub mod live_dashboard;
pub mod health;
