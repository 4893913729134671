use bitcraps::monitoring::alerting::alert_state::{AlertAddResult, AlertHistory, AlertStateConfig, AlertStateManager};
use bitcraps::monitoring::alerting::alert_types::{
    Alert, AlertSeverity, EscalationConfig, EscalationRule, NotificationChannel, NotificationChannelType, NotificationConfig,
    NotificationRateLimit, SystemHealth,
};
use bitcraps::monitoring::alerting::escalation::{EscalationManager, EscalationReason};
use bitcraps::monitoring::alerting::notification_channels::{
    get_discord_color, get_discord_icon, get_pagerduty_severity, get_slack_color, get_slack_icon, should_send_to_channel,
    NotificationDispatcher, NotificationRateLimiter,
};
use std::collections::HashMap;

fn alert_with(name: &str, severity: AlertSeverity) -> Alert {
    Alert::new(
        name.to_string(),
        "Test alert".to_string(),
        severity,
        "test".to_string(),
        "test_metric".to_string(),
        100.0f64.to_bits(),
        80.0f64.to_bits(),
    )
}

fn threshold_key(threshold: f64) -> i64 {
    (threshold * 100.0) as i64
}

#[test]
fn test_severity_ordering() {
    assert!(AlertSeverity::Critical > AlertSeverity::High);
    assert!(AlertSeverity::High > AlertSeverity::Medium);
    assert!(AlertSeverity::Medium > AlertSeverity::Low);
    assert!(AlertSeverity::Low > AlertSeverity::Info);
}

#[test]
fn severity_rank_follows_order() {
    assert_eq!(AlertSeverity::Info.rank(), 1);
    assert_eq!(AlertSeverity::Critical.rank(), 5);
    assert!(AlertSeverity::High.at_least(AlertSeverity::Medium));
    assert!(!AlertSeverity::Low.at_least(AlertSeverity::Medium));
}

#[test]
fn test_alert_creation() {
    let alert = Alert::new(
        "Test Alert".to_string(),
        "Test description".to_string(),
        AlertSeverity::Medium,
        "test".to_string(),
        "test_metric".to_string(),
        100.0f64.to_bits(),
        80.0f64.to_bits(),
    );

    assert_eq!(alert.name, "Test Alert");
    assert_eq!(alert.severity, AlertSeverity::Medium);
    assert!(!alert.is_resolved());
    assert!(alert.age_seconds() >= 0);
}

#[test]
fn test_alert_resolution() {
    let mut alert = Alert::new(
        "Test Alert".to_string(),
        "Test description".to_string(),
        AlertSeverity::Low,
        "test".to_string(),
        "test_metric".to_string(),
        50.0f64.to_bits(),
        40.0f64.to_bits(),
    );

    assert!(!alert.is_resolved());
    alert.resolve();
    assert!(alert.is_resolved());
    assert!(alert.resolution_time_seconds().is_some());
}

#[test]
fn alert_times_and_tags() {
    let a = Alert::new_at("id".into(), "n".into(), "d".into(), AlertSeverity::Low, "c".into(), "m".into(), 0, 0, 100);
    assert_eq!(a.age_seconds_at(160), 60);
    assert_eq!(a.age_seconds_at(50), 0);
    let mut a = a.with_tag("x".into()).with_tags(vec!["y".into(), "z".into()]);
    assert_eq!(a.tags, vec!["x".to_string(), "y".to_string(), "z".to_string()]);
    assert_eq!(a.resolution_time_seconds(), None);
    a.resolve_at(130);
    assert_eq!(a.resolution_time_seconds(), Some(30));
}

fn create_test_config() -> EscalationConfig {
    EscalationConfig {
        enable_escalation: true,
        escalation_delay_minutes: 1,
        max_escalation_level: 3,
        escalation_rules: vec![
            EscalationRule {
                level: 1,
                delay_minutes: 1,
                severity_filter: Some(AlertSeverity::High),
                channels: vec!["level1".to_string()],
            },
            EscalationRule {
                level: 2,
                delay_minutes: 2,
                severity_filter: Some(AlertSeverity::High),
                channels: vec!["level2".to_string()],
            },
            EscalationRule {
                level: 3,
                delay_minutes: 3,
                severity_filter: Some(AlertSeverity::Critical),
                channels: vec!["level3".to_string()],
            },
        ],
    }
}

fn create_test_alert() -> Alert {
    Alert::new(
        "Test Alert".to_string(),
        "Test alert description".to_string(),
        AlertSeverity::High,
        "test".to_string(),
        "test_metric".to_string(),
        100.0f64.to_bits(),
        80.0f64.to_bits(),
    )
}

#[test]
fn test_escalation_manager_creation() {
    let manager = EscalationManager::new(create_test_config());
    let stats = manager.get_statistics();
    assert_eq!(stats.total_escalations, 0);
}

#[test]
fn test_immediate_escalation_for_high_severity() {
    let mut manager = EscalationManager::new(create_test_config());
    let alert = create_test_alert();

    let result = manager.check_escalation(&alert).unwrap();
    assert!(result.is_some());

    let escalated = result.unwrap();
    assert!(escalated.description.contains("ESCALATED to level 1"));
}

#[test]
fn test_manual_escalation() {
    let mut manager = EscalationManager::new(create_test_config());
    let alert = create_test_alert();

    let escalated = manager.manual_escalation(&alert, 2, "test_user").unwrap();

    assert!(escalated.description.contains("ESCALATED by test_user to level 2"));

    let status = manager.get_escalation_status(&alert.id).unwrap();
    assert_eq!(status.current_level, 2);
    assert_eq!(status.escalation_count, 1);
}

#[test]
fn test_acknowledge_alert() {
    let mut manager = EscalationManager::new(create_test_config());
    let alert = create_test_alert();

    let _ = manager.manual_escalation(&alert, 1, "system");

    let result = manager.acknowledge_alert(&alert.id, "user".to_string(), Some("Working on it".to_string()));
    assert!(result.is_ok());

    let status = manager.get_escalation_status(&alert.id).unwrap();
    assert_eq!(status.acknowledgments.len(), 1);
    assert_eq!(status.acknowledgments[0].acknowledger, "user");
    assert_eq!(status.acknowledgments[0].message, Some("Working on it".to_string()));
}

#[test]
fn test_escalation_level_limits() {
    let mut manager = EscalationManager::new(create_test_config());
    let alert = create_test_alert();

    let result = manager.manual_escalation(&alert, 5, "test_user");
    assert!(result.is_err());

    assert!(result.unwrap_err().message().contains("exceeds maximum level"));
}

#[test]
fn test_remove_alert_from_tracking() {
    let mut manager = EscalationManager::new(create_test_config());
    let alert = create_test_alert();

    let _ = manager.manual_escalation(&alert, 1, "system");
    assert!(manager.get_escalation_status(&alert.id).is_some());
    assert!(manager.remove_alert(&alert.id));
    assert!(manager.get_escalation_status(&alert.id).is_none());
    assert!(!manager.remove_alert("nonexistent"));
}

#[test]
fn test_escalation_statistics() {
    let mut manager = EscalationManager::new(create_test_config());

    let alert1 = create_test_alert();
    let mut alert2 = create_test_alert();
    alert2.id = "alert2".to_string();
    alert2.name = "Alert 2".to_string();

    let _ = manager.manual_escalation(&alert1, 1, "user1");
    let _ = manager.manual_escalation(&alert2, 2, "user2");
    let _ = manager.manual_escalation(&alert1, 2, "user1");

    let stats = manager.get_statistics();
    assert_eq!(stats.total_escalations, 3);
    let level = |l: u32| stats.escalations_by_level.iter().find(|(x, _)| *x == l).map(|(_, c)| *c);
    assert_eq!(level(1), Some(1));
    assert_eq!(level(2), Some(2));
}

#[test]
fn test_severity_escalation() {
    let manager = EscalationManager::new(create_test_config());
    assert_eq!(manager.escalate_severity(AlertSeverity::Low, 2), AlertSeverity::Medium);
    assert_eq!(manager.escalate_severity(AlertSeverity::Medium, 3), AlertSeverity::High);
    assert_eq!(manager.escalate_severity(AlertSeverity::High, 4), AlertSeverity::Critical);
    assert_eq!(manager.escalate_severity(AlertSeverity::Critical, 5), AlertSeverity::Critical);
}

#[test]
fn test_cleanup_old_records() {
    let mut manager = EscalationManager::new(create_test_config());
    let alert = create_test_alert();

    let _ = manager.manual_escalation(&alert, 1, "system");
    let stats_before = manager.get_statistics();
    assert_eq!(stats_before.total_escalations, 1);

    manager.cleanup_old_records(0);

    let stats_after = manager.get_statistics();
    assert_eq!(stats_after.total_escalations, 0);
}

#[test]
fn escalation_waits_for_delay_and_respects_acknowledgment() {
    let mut manager = EscalationManager::new(create_test_config());
    let alert = Alert::new_at("a1".into(), "n".into(), "d".into(), AlertSeverity::High, "c".into(), "m".into(), 0, 0, 1000);
    // first check: level 1 at once
    let e1 = manager.check_escalation_at(&alert, 1000).unwrap().unwrap();
    assert_eq!(e1.description, "d [ESCALATED to level 1 - SeverityIncrease]");
    // level 2 needs two minutes since the last escalation
    assert!(manager.check_escalation_at(&alert, 1100).unwrap().is_none());
    let e2 = manager.check_escalation_at(&alert, 1120).unwrap().unwrap();
    assert_eq!(e2.description, "d [ESCALATED to level 2 - TimeoutExpired]");
    // level 3 needs a critical alert
    assert!(manager.check_escalation_at(&alert, 5000).unwrap().is_none());
    let mut critical = alert.clone();
    critical.severity = AlertSeverity::Critical;
    // an acknowledgment within a minute holds it back
    manager.acknowledge_alert_at("a1", "me".into(), None, 5000).unwrap();
    assert!(manager.check_escalation_at(&critical, 5030).unwrap().is_none());
    let e3 = manager.check_escalation_at(&critical, 5060).unwrap().unwrap();
    assert_eq!(e3.severity, AlertSeverity::Critical);
    // maximum level reached
    assert!(manager.check_escalation_at(&critical, 99999).unwrap().is_none());
    let status = manager.get_escalation_status("a1").unwrap();
    assert_eq!(status.current_level, 3);
    assert_eq!(status.escalation_count, 3);
    assert_eq!(status.next_escalation_at, None);
    let stats = manager.get_statistics();
    assert_eq!(stats.total_escalations, 3);
    assert!(stats.escalations_by_reason.contains(&(EscalationReason::TimeoutExpired, 2)));
    assert!(stats.escalations_by_alert.contains(&("n".to_string(), 3)));
}

#[test]
fn manual_escalation_cannot_go_down_and_ack_needs_tracking() {
    let mut manager = EscalationManager::new(EscalationConfig::default());
    let alert = Alert::new_at("x".into(), "n".into(), "d".into(), AlertSeverity::Low, "c".into(), "m".into(), 0, 0, 0);
    let r = manager.acknowledge_alert_at("x", "me".into(), None, 1);
    assert_eq!(r.unwrap_err().message(), "Processing error: Alert x not found in escalation tracking");
    manager.manual_escalation_at(&alert, 2, "ops", 10).unwrap();
    let err = manager.manual_escalation_at(&alert, 2, "ops", 11).unwrap_err();
    assert_eq!(err.message(), "Configuration error: Cannot escalate to level 2 from current level 2");
    let err = manager.manual_escalation_at(&alert, 4, "ops", 11).unwrap_err();
    assert_eq!(err.message(), "Configuration error: Target level 4 exceeds maximum level 3");
    let status = manager.get_escalation_status("x").unwrap();
    assert_eq!(status.next_escalation_at, Some(10 + 60 * 60));
}

#[test]
fn default_escalation_config() {
    let c = EscalationConfig::default();
    assert!(c.enable_escalation);
    assert_eq!(c.max_escalation_level, 3);
    assert_eq!(c.escalation_rules.len(), 3);
    assert_eq!(c.escalation_rules[1].channels, vec!["secondary_oncall".to_string(), "manager".to_string()]);
}

#[test]
fn test_alert_state_manager_basic() {
    let mut manager = AlertStateManager::new(AlertStateConfig::default());
    let alert = alert_with("Test Alert", AlertSeverity::High);
    let alert_id = alert.id.clone();

    let result = manager.add_active_alert(alert, threshold_key(80.0));
    assert!(matches!(result, AlertAddResult::Added { .. }));

    let active = manager.get_active_alerts();
    assert_eq!(active.len(), 1);
    assert_eq!(active[0].name, "Test Alert");

    assert!(manager.resolve_alert(&alert_id));

    let active = manager.get_active_alerts();
    assert_eq!(active.len(), 0);

    let resolved = manager.get_recent_resolved_alerts(10);
    assert_eq!(resolved.len(), 1);
    assert!(resolved[0].is_resolved());
}

#[test]
fn test_alert_deduplication() {
    let config = AlertStateConfig { dedup_window_minutes: 5, ..AlertStateConfig::default() };
    let mut manager = AlertStateManager::new(config);

    let alert1 = alert_with("Duplicate Alert", AlertSeverity::Medium);
    let alert2 = alert_with("Duplicate Alert", AlertSeverity::Medium);

    let result1 = manager.add_active_alert(alert1, threshold_key(80.0));
    assert!(matches!(result1, AlertAddResult::Added { .. }));

    let result2 = manager.add_active_alert(alert2, threshold_key(80.0));
    assert!(matches!(result2, AlertAddResult::Suppressed { occurrence_count: 2, .. }));

    let active = manager.get_active_alerts();
    assert_eq!(active.len(), 1);
}

#[test]
fn test_alert_filtering_by_severity() {
    let mut manager = AlertStateManager::new(AlertStateConfig::default());

    manager.add_active_alert(alert_with("Critical", AlertSeverity::Critical), threshold_key(80.0));
    manager.add_active_alert(alert_with("High", AlertSeverity::High), threshold_key(80.0));
    manager.add_active_alert(alert_with("Low", AlertSeverity::Low), threshold_key(80.0));

    let critical_alerts = manager.get_active_alerts_by_severity(AlertSeverity::Critical);
    assert_eq!(critical_alerts.len(), 1);
    assert_eq!(critical_alerts[0].name, "Critical");

    let high_alerts = manager.get_active_alerts_by_severity(AlertSeverity::High);
    assert_eq!(high_alerts.len(), 1);
    assert_eq!(high_alerts[0].name, "High");
}

#[test]
fn test_alert_filtering_by_category() {
    let mut manager = AlertStateManager::new(AlertStateConfig::default());

    let mut perf_alert = alert_with("Performance Alert", AlertSeverity::High);
    perf_alert.category = "performance".to_string();
    let mut security_alert = alert_with("Security Alert", AlertSeverity::Critical);
    security_alert.category = "security".to_string();

    manager.add_active_alert(perf_alert, threshold_key(80.0));
    manager.add_active_alert(security_alert, threshold_key(80.0));

    let perf_alerts = manager.get_active_alerts_by_category("performance");
    assert_eq!(perf_alerts.len(), 1);
    assert_eq!(perf_alerts[0].name, "Performance Alert");

    let security_alerts = manager.get_active_alerts_by_category("security");
    assert_eq!(security_alerts.len(), 1);
    assert_eq!(security_alerts[0].name, "Security Alert");
}

#[test]
fn test_auto_resolve_stale_alerts() {
    let config = AlertStateConfig { auto_resolve_timeout_minutes: Some(1), ..AlertStateConfig::default() };
    let mut manager = AlertStateManager::new(config);

    let mut old_alert = alert_with("Old Alert", AlertSeverity::Medium);
    old_alert.timestamp -= 120;

    manager.add_active_alert(old_alert, threshold_key(80.0));

    let now = unix_now();
    let auto_resolved = manager.auto_resolve_stale_alerts_at(now);
    assert_eq!(auto_resolved.len(), 1);
    assert_eq!(auto_resolved[0].name, "Old Alert");

    let active = manager.get_active_alerts();
    assert_eq!(active.len(), 0);
}

#[test]
fn test_alert_status() {
    let mut manager = AlertStateManager::new(AlertStateConfig::default());

    manager.add_active_alert(alert_with("Critical", AlertSeverity::Critical), threshold_key(80.0));
    manager.add_active_alert(alert_with("High", AlertSeverity::High), threshold_key(80.0));

    let now = unix_now();
    let status = manager.get_alert_status_at(now);
    assert_eq!(status.active_alerts, 2);
    assert_eq!(status.critical_alerts, 1);
    assert!(matches!(status.system_health, SystemHealth::Critical));
}

#[test]
fn test_cleanup_operations() {
    let mut manager = AlertStateManager::new(AlertStateConfig::default());

    manager.add_active_alert(alert_with("Alert 1", AlertSeverity::High), threshold_key(80.0));
    manager.add_active_alert(alert_with("Alert 2", AlertSeverity::Medium), threshold_key(80.0));

    assert_eq!(manager.get_active_alerts().len(), 2);

    manager.force_cleanup();

    assert_eq!(manager.get_active_alerts().len(), 0);
    assert_eq!(manager.total_alerts_processed(), 0);
    let stats = manager.get_statistics();
    assert_eq!(stats.total_alerts_processed, 0);
}

#[test]
fn test_alert_statistics() {
    let mut manager = AlertStateManager::new(AlertStateConfig::default());

    let high_alert = alert_with("High Alert", AlertSeverity::High);
    let critical_alert = alert_with("Critical Alert", AlertSeverity::Critical);

    manager.add_active_alert(high_alert, threshold_key(80.0));
    manager.add_active_alert(critical_alert, threshold_key(80.0));

    let stats = manager.get_statistics();
    assert_eq!(stats.total_alerts_processed, 2);
    assert_eq!(stats.active_alerts, 2);
    assert!(stats.alerts_by_severity.iter().any(|(s, _)| *s == AlertSeverity::High));
    assert!(stats.alerts_by_severity.iter().any(|(s, _)| *s == AlertSeverity::Critical));
}

#[test]
fn statistics_count_added_alerts_not_suppressed_ones() {
    let mut m = AlertStateManager::new(AlertStateConfig::default());
    let mk = |id: &str, sev: AlertSeverity, cat: &str, t: u64| {
        Alert::new_at(id.into(), "n".into(), "d".into(), sev, cat.into(), "m".into(), 0, 0, t)
    };
    m.add_active_alert_at(mk("a", AlertSeverity::Low, "net", 10_000), "fa".into(), 10_000);
    m.add_active_alert_at(mk("b", AlertSeverity::Low, "net", 10_001), "fa".into(), 10_001);
    m.add_active_alert_at(mk("c", AlertSeverity::High, "cpu", 10_002), "fc".into(), 10_002);
    assert!(m.resolve_alert_at("c", 10_062));
    let s = m.get_statistics_at(10_100);
    assert_eq!(s.total_alerts_processed, 2);
    assert_eq!(s.active_alerts, 1);
    assert_eq!(s.alerts_by_severity, vec![(AlertSeverity::Low, 1), (AlertSeverity::High, 1)]);
    assert_eq!(s.alerts_by_category.len(), 2);
    assert!(s.alerts_by_category.contains(&("net".to_string(), 1)));
    assert!(s.alerts_by_category.contains(&("cpu".to_string(), 1)));
    assert_eq!(s.resolution_times_seconds, vec![60]);
    assert_eq!(s.alerts_last_hour, 2);
    assert_eq!(s.total_auto_resolved, 0);
}

#[test]
fn dedup_window_expires_and_history_is_bounded() {
    let config = AlertStateConfig { dedup_window_minutes: 1, max_resolved_history: 2, ..AlertStateConfig::default() };
    let mut m = AlertStateManager::new(config);
    let mk = |id: &str| Alert::new_at(id.into(), "n".into(), "d".into(), AlertSeverity::Low, "c".into(), "m".into(), 0, 0, 0);
    assert!(matches!(m.add_active_alert_at(mk("a"), "fp".into(), 100), AlertAddResult::Added { .. }));
    assert!(m.is_duplicate_at("fp", 159));
    assert!(matches!(m.add_active_alert_at(mk("b"), "fp".into(), 159), AlertAddResult::Suppressed { occurrence_count: 2, .. }));
    assert!(!m.is_duplicate_at("fp", 219));
    assert!(matches!(m.add_active_alert_at(mk("c"), "fp".into(), 219), AlertAddResult::Added { .. }));
    let stats = m.get_dedup_stats();
    assert_eq!(stats.unique_fingerprints, 1);
    assert_eq!(stats.total_duplicates_suppressed, 1);
    assert!(m.resolve_alert_at("a", 300));
    assert!(m.resolve_alert_at("c", 301));
    assert!(!m.resolve_alert_at("zzz", 302));
    m.add_active_alert_at(mk("d"), "other".into(), 400);
    assert!(m.resolve_alert_at("d", 401));
    let recent = m.get_recent_resolved_alerts(10);
    assert_eq!(recent.len(), 2);
    assert_eq!(recent[0].id, "d");
    assert_eq!(recent[1].id, "c");
    assert!(m.get_resolved_alert("a").is_none());
    assert_eq!(m.get_resolved_alert("c").unwrap().resolved_at, Some(301));
}

#[test]
fn health_is_warning_with_many_alerts() {
    let mut m = AlertStateManager::new(AlertStateConfig::default());
    for i in 0..11 {
        let a = Alert::new_at(format!("id{}", i), "n".into(), "d".into(), AlertSeverity::Low, "c".into(), "m".into(), 0, 0, 10);
        m.add_active_alert_at(a, format!("fp{}", i), 10);
    }
    let status = m.get_alert_status_at(20);
    assert_eq!(status.active_alerts, 11);
    assert_eq!(status.critical_alerts, 0);
    assert!(matches!(status.system_health, SystemHealth::Warning));
    assert_eq!(m.count_alerts_in_last_hours_at(1, 20), 11);
    assert_eq!(m.count_alerts_in_last_hours_at(1, 10 + 3600), 0);
}

fn webhook_channel(name: &str, min: Option<AlertSeverity>) -> NotificationChannel {
    NotificationChannel {
        name: name.to_string(),
        channel_type: NotificationChannelType::Webhook { url: "http://test".to_string(), headers: HashMap::new() },
        min_severity: min,
        categories: vec![],
        required_tags: vec![],
    }
}

#[test]
fn test_notification_channel_filtering() {
    let _dispatcher = NotificationDispatcher::new(NotificationConfig::default_with_webhook(
        "http://localhost:8080/alerts".to_string(),
    ));
    let alert = create_test_alert();

    assert!(should_send_to_channel(&webhook_channel("all", None), &alert));
    assert!(should_send_to_channel(&webhook_channel("high_only", Some(AlertSeverity::High)), &alert));
    assert!(!should_send_to_channel(&webhook_channel("critical_only", Some(AlertSeverity::Critical)), &alert));
}

#[test]
fn channel_filters_by_category_and_tags() {
    let alert = create_test_alert().with_tag("db".into());
    let mut c = webhook_channel("c", None);
    c.categories = vec!["other".into()];
    assert!(!should_send_to_channel(&c, &alert));
    c.categories = vec!["other".into(), "test".into()];
    assert!(should_send_to_channel(&c, &alert));
    c.required_tags = vec!["db".into(), "prod".into()];
    assert!(!should_send_to_channel(&c, &alert));
    c.required_tags = vec!["db".into()];
    assert!(should_send_to_channel(&c, &alert));
}

#[test]
fn test_rate_limiter() {
    let mut limiter = NotificationRateLimiter::new(NotificationRateLimit { max_per_hour: 5, max_per_day: 10 });
    for i in 0..5 {
        assert!(limiter.can_send("test_alert"), "Send {} should be allowed", i);
        limiter.record_sent("test_alert");
    }
    assert!(!limiter.can_send("test_alert"));
    assert!(limiter.can_send("other_alert"));
}

#[test]
fn test_rate_limiter_status() {
    let mut limiter = NotificationRateLimiter::new(NotificationRateLimit { max_per_hour: 100, max_per_day: 1000 });
    limiter.record_sent("alert1");
    limiter.record_sent("alert1");
    limiter.record_sent("alert2");

    let status: HashMap<String, (u32, u32, u32)> = limiter.get_status().into_iter().collect();
    assert_eq!(status.get("alert1"), Some(&(2, 2, 2)));
    assert_eq!(status.get("alert2"), Some(&(1, 1, 1)));
}

#[test]
fn test_color_and_icon_helpers() {
    assert_eq!(get_slack_color(&AlertSeverity::Critical), "danger");
    assert_eq!(get_slack_color(&AlertSeverity::Low), "good");
    assert_eq!(get_discord_color(&AlertSeverity::Critical), 0xFF0000);
    assert_eq!(get_discord_color(&AlertSeverity::Info), 0x1E90FF);
    assert_eq!(get_slack_icon(&AlertSeverity::Critical), "🚨");
    assert_eq!(get_discord_icon(&AlertSeverity::High), "⚠️");
}

#[test]
fn test_pagerduty_severity_mapping() {
    assert_eq!(get_pagerduty_severity(&AlertSeverity::Critical), "critical");
    assert_eq!(get_pagerduty_severity(&AlertSeverity::High), "error");
    assert_eq!(get_pagerduty_severity(&AlertSeverity::Medium), "warning");
    assert_eq!(get_pagerduty_severity(&AlertSeverity::Info), "info");
}

#[test]
fn test_rate_limiter_resets() {
    let mut limiter = NotificationRateLimiter::new(NotificationRateLimit { max_per_hour: 2, max_per_day: 5 });
    limiter.record_sent("test");
    limiter.record_sent("test");
    assert!(!limiter.can_send("test"));
    limiter.reset_hour_counters();
    assert!(limiter.can_send("test"));
}

#[test]
fn minute_limit_and_day_limit() {
    let mut limiter = NotificationRateLimiter::new(NotificationRateLimit { max_per_hour: 100, max_per_day: 12 });
    for _ in 0..10 {
        limiter.record_sent("a");
    }
    assert!(!limiter.can_send("a"));
    limiter.reset_minute_counters();
    assert!(limiter.can_send("a"));
    limiter.record_sent("a");
    limiter.record_sent("a");
    limiter.reset_minute_counters();
    assert!(!limiter.can_send("a"));
    limiter.reset_day_counters();
    assert!(limiter.can_send("a"));
    assert_eq!(limiter.get_counts("a"), (0, 12, 0));
}

#[test]
fn dispatcher_channels_and_outcomes() {
    let mut d = NotificationDispatcher::new(NotificationConfig::default_with_webhook("http://x".to_string()));
    d.add_channel(webhook_channel("crit", Some(AlertSeverity::Critical)));
    d.add_channel(webhook_channel("any", None));
    let alert = create_test_alert();
    assert_eq!(d.matching_channels(&alert), vec![0, 2]);
    assert!(d.remove_channel("crit"));
    assert!(!d.remove_channel("crit"));
    assert_eq!(d.channels.len(), 2);
    assert!(d.finish_notification("n", 0, &vec![]).is_ok());
    let err = d.finish_notification("n", 0, &vec!["e1".to_string(), "e2".to_string()]).unwrap_err();
    assert_eq!(err.message(), "Notification error: All notification attempts failed: e1; e2");
    assert!(d.finish_notification("n", 1, &vec!["e".to_string()]).is_ok());
    assert_eq!(d.rate_limiter.get_counts("n"), (1, 1, 1));
}

fn severity_count(counts: &[(AlertSeverity, usize)], severity: AlertSeverity) -> Option<usize> {
    counts.iter().find(|(s, _)| *s == severity).map(|(_, c)| *c)
}

fn category_count(counts: &[(String, usize)], category: &str) -> Option<usize> {
    counts.iter().find(|(c, _)| c == category).map(|(_, n)| *n)
}

#[test]
fn test_alert_history() {
    let mut history = AlertHistory::new(7); // 7 days retention

    let alert1 = alert_with("Alert 1", AlertSeverity::High);
    let alert2 = alert_with("Alert 2", AlertSeverity::Medium);

    history.add_alert(alert1);
    history.add_alert(alert2);

    assert_eq!(history.total_count(), 2);

    let by_severity = history.count_by_severity();
    assert_eq!(severity_count(&by_severity, AlertSeverity::High), Some(1));
    assert_eq!(severity_count(&by_severity, AlertSeverity::Medium), Some(1));

    let by_category = history.count_by_category();
    assert_eq!(category_count(&by_category, "test"), Some(2));
}

fn alert_at(name: &str, severity: AlertSeverity, category: &str, timestamp: u64) -> Alert {
    Alert::new_at(
        format!("id-{}", name),
        name.to_string(),
        "Test alert".to_string(),
        severity,
        category.to_string(),
        "test_metric".to_string(),
        1.0f64.to_bits(),
        2.0f64.to_bits(),
        timestamp,
    )
}

#[test]
fn alert_history_drops_alerts_older_than_retention() {
    let day = 86_400u64;
    let mut history = AlertHistory::new(1);
    history.add_alert_at(alert_at("old", AlertSeverity::Low, "a", 10 * day), 10 * day);
    history.add_alert_at(alert_at("mid", AlertSeverity::Low, "a", 10 * day + 5), 10 * day + 5);
    assert_eq!(history.total_count(), 2);
    // One day later the first alert is exactly at the cutoff and goes.
    history.add_alert_at(alert_at("new", AlertSeverity::High, "b", 11 * day), 11 * day);
    assert_eq!(history.total_count(), 2);
    assert_eq!(history.count_alerts_in_last_hours_at(1, 11 * day), 1);
    assert_eq!(history.count_alerts_in_last_hours_at(24, 11 * day), 2);
    history.cleanup_old_alerts_at(20 * day);
    assert_eq!(history.total_count(), 0);
}

#[test]
fn alert_history_counts_severities_and_categories_once_each() {
    let mut history = AlertHistory::new(30);
    let now = 1_000_000u64;
    history.add_alert_at(alert_at("a", AlertSeverity::High, "net", now), now);
    history.add_alert_at(alert_at("b", AlertSeverity::Low, "cpu", now), now);
    history.add_alert_at(alert_at("c", AlertSeverity::High, "net", now), now);
    let by_severity = history.count_by_severity();
    assert_eq!(by_severity.len(), 2);
    assert_eq!(severity_count(&by_severity, AlertSeverity::High), Some(2));
    assert_eq!(severity_count(&by_severity, AlertSeverity::Low), Some(1));
    assert_eq!(severity_count(&by_severity, AlertSeverity::Critical), None);
    let by_category = history.count_by_category();
    assert_eq!(by_category.len(), 2);
    assert_eq!(category_count(&by_category, "net"), Some(2));
    assert_eq!(category_count(&by_category, "cpu"), Some(1));
}

#[test]
fn alert_history_resolution_times_and_quick_resolutions() {
    let mut history = AlertHistory::new(30);
    let now = 1_000_000u64;
    let mut quick = alert_at("quick", AlertSeverity::Low, "x", now);
    quick.resolve_at(now + 30);
    let mut slow = alert_at("slow", AlertSeverity::Low, "x", now);
    slow.resolve_at(now + 600);
    let open = alert_at("open", AlertSeverity::Low, "x", now);
    history.add_alert_at(quick, now + 600);
    history.add_alert_at(open, now + 600);
    history.add_alert_at(slow, now + 600);
    assert_eq!(history.resolution_times_seconds(), vec![30, 600]);
    assert_eq!(history.quickly_resolved_count(), 1);
}

use bitcraps::monitoring::alerting::alert_conditions::{AlertCondition, AlertRule, AlertRulesEngine};

#[test]
fn test_alert_rules_engine() {
    let rules = vec![AlertRule::new(
        "Test Rule".to_string(),
        "cpu_usage_percent".to_string(),
        AlertCondition::GreaterThan(50.0f64.to_bits()),
        AlertSeverity::Medium,
    )
    .with_interval(10)];

    let engine = AlertRulesEngine::new(rules);
    assert_eq!(engine.get_rules().len(), 1);
}

#[test]
fn test_rule_evaluation_cooldown() {
    let rules = vec![AlertRule::new(
        "Test Rule".to_string(),
        "cpu_usage_percent".to_string(),
        AlertCondition::GreaterThan(0.0f64.to_bits()), // Always triggers
        AlertSeverity::Low,
    )
    .with_interval(60)];

    let mut engine = AlertRulesEngine::new(rules);
    let now = unix_now();

    // First evaluation should be allowed
    assert!(engine.should_evaluate_rule_at(0, now));

    // Mark as evaluated
    engine.record_trigger_at(0, now);

    // Second evaluation should be blocked by cooldown
    assert!(!engine.should_evaluate_rule_at(0, now));
    assert!(engine.should_evaluate_rule_at(0, now + 60));
}

#[test]
fn test_rule_management() {
    let mut engine = AlertRulesEngine::new(vec![]);

    let rule = AlertRule::new(
        "CPU Alert".to_string(),
        "cpu_usage_percent".to_string(),
        AlertCondition::GreaterThan(80.0f64.to_bits()),
        AlertSeverity::High,
    );

    // Add rule
    engine.add_rule(rule.clone());
    assert_eq!(engine.get_rules().len(), 1);

    // Update rule
    let updated_rule = AlertRule::new(
        "CPU Alert".to_string(),
        "cpu_usage_percent".to_string(),
        AlertCondition::GreaterThan(90.0f64.to_bits()),
        AlertSeverity::Critical,
    );

    assert!(engine.update_rule("CPU Alert", updated_rule));
    assert_eq!(engine.get_rules()[0].severity, AlertSeverity::Critical);

    // Remove rule
    assert!(engine.remove_rule("CPU Alert"));
    assert_eq!(engine.get_rules().len(), 0);
    assert!(!engine.remove_rule("CPU Alert"));
}

#[test]
fn test_cache_functionality() {
    let mut engine = AlertRulesEngine::new(vec![]);

    // Cache should be empty initially
    let stats = engine.get_cache_stats_at(100);
    assert!(stats.is_empty());

    // Clear cache should work even when empty
    engine.clear_cache();

    // Forgetting non-existent metrics is harmless
    engine.forget_metrics(&vec!["nonexistent_metric".to_string()]);
    assert!(engine.get_cache_stats_at(100).is_empty());
}

#[test]
fn metric_cache_keeps_values_thirty_seconds() {
    let mut engine = AlertRulesEngine::new(vec![]);
    engine.store_metric_at("cpu", 42.0f64.to_bits(), 1000);
    engine.store_metric_at("mem", 7.0f64.to_bits(), 1010);
    assert_eq!(engine.cached_metric_at("cpu", 1029), Some(42.0f64.to_bits()));
    assert_eq!(engine.cached_metric_at("cpu", 1030), None);
    assert_eq!(engine.cached_metric_at("disk", 1000), None);
    let stats = engine.get_cache_stats_at(1020);
    assert_eq!(stats.len(), 2);
    assert!(stats.contains(&("cpu".to_string(), (42.0f64.to_bits(), 20))));
    engine.forget_metrics(&vec!["cpu".to_string()]);
    assert_eq!(engine.cached_metric_at("cpu", 1001), None);
    assert_eq!(engine.cached_metric_at("mem", 1011), Some(7.0f64.to_bits()));
}

#[test]
fn test_alert_rule_builder() {
    let rule = AlertRule::new(
        "CPU High".to_string(),
        "cpu_usage".to_string(),
        AlertCondition::GreaterThan(80.0f64.to_bits()),
        AlertSeverity::High,
    )
    .with_description("CPU usage too high".to_string())
    .with_category("performance".to_string())
    .with_tags(vec!["cpu".to_string(), "performance".to_string()]);

    assert_eq!(rule.name, "CPU High");
    assert_eq!(rule.category, "performance");
    assert_eq!(rule.tags.len(), 2);
    let plain = AlertRule::new("x".to_string(), "m".to_string(), AlertCondition::LessThan(0), AlertSeverity::Low);
    assert_eq!(plain.description, "Alert rule for x");
    assert_eq!(plain.category, "general");
    assert_eq!(plain.evaluation_interval_secs, 60);
}

#[test]
fn rules_engine_raises_the_rule_alert_and_removes_every_namesake() {
    let r = |n: &str| AlertRule::new(n.to_string(), "m".to_string(), AlertCondition::Between(1, 2), AlertSeverity::High)
        .with_tags(vec!["t".to_string()]);
    let mut engine = AlertRulesEngine::new(vec![r("a"), r("b"), r("a")]);
    let alert = engine.alert_for_rule_at(1, 5, 6, "id-1".to_string(), 77);
    assert_eq!(alert.name, "b");
    assert_eq!(alert.tags, vec!["t".to_string()]);
    assert_eq!((alert.current_value_bits, alert.threshold_value_bits, alert.timestamp), (5, 6, 77));
    assert!(engine.remove_rule("a"));
    assert_eq!(engine.get_rules().len(), 1);
    assert_eq!(engine.get_rules()[0].name, "b");
}

#[test]
fn cleanup_drops_old_fingerprints_and_resolved_alerts() {
    let mut m = AlertStateManager::new(AlertStateConfig::default());
    let day: u64 = 86_400;
    let mk = |id: &str, t: u64| Alert::new_at(id.into(), id.into(), "d".into(), AlertSeverity::Low, "c".into(), "m".into(), 0, 0, t);
    let start = 10 * day;
    m.add_active_alert_at(mk("old", start), "f-old".into(), start);
    assert!(m.resolve_alert_at("old", start + 10));
    let later = start + 8 * day;
    m.add_active_alert_at(mk("new", later), "f-new".into(), later);
    assert!(m.resolve_alert_at("new", later + 10));
    m.add_active_alert_at(mk("live", later + 20), "f-live".into(), later + 20);
    assert_eq!(m.get_dedup_stats().unique_fingerprints, 3);
    m.cleanup_old_data_at(later + 30);
    assert_eq!(m.get_dedup_stats().unique_fingerprints, 2);
    assert!(!m.is_duplicate_at("f-old", later + 30));
    assert!(m.is_duplicate_at("f-new", later + 30));
    let resolved = m.get_recent_resolved_alerts(10);
    assert_eq!(resolved.len(), 1);
    assert_eq!(resolved[0].id, "new");
    assert_eq!(m.get_active_alerts().len(), 1);
}

fn unix_now() -> u64 {
    std::time::SystemTime::now().duration_since(std::time::UNIX_EPOCH).unwrap_or_default().as_secs()
}

#[test]
fn fingerprint_is_a_stable_hex_hash_of_the_alert_fields() {
    let m = AlertStateManager::new(AlertStateConfig::default());
    let a = alert_with("Disk", AlertSeverity::High);
    let f1 = m.calculate_fingerprint(&a, 8000);
    let f2 = m.calculate_fingerprint(&a.clone(), 8000);
    assert_eq!(f1, f2);
    assert!(!f1.is_empty() && f1.chars().all(|c| c.is_ascii_hexdigit() && !c.is_ascii_uppercase()));
    assert_ne!(f1, a.name);
    assert_ne!(m.calculate_fingerprint(&a, 8001), f1);
    assert_ne!(m.calculate_fingerprint(&alert_with("Disk", AlertSeverity::Low), 8000), f1);
}
