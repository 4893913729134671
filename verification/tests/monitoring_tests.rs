use bitcraps::monitoring::health::{
    check_consensus_health, check_gaming_health, check_network_health, memory_health_grade, ComponentStatus,
};
use bitcraps::keyed::kv_find;
use bitcraps::monitoring::dashboard::{HealthCheck, NetworkDashboard};
use bitcraps::monitoring::integration::{record_error, record_game_event, record_network_event, ReportLevel};
use bitcraps::monitoring::logging::{
    clear_correlation_context, get_correlation_context, set_correlation_context, CorrelationContext, FluentdAggregator,
    LoggingConfig,
};
use bitcraps::monitoring::metrics::{ErrorCategory, ErrorMetrics, ExportFigures, GamingMetrics, MetricsCounters};
use bitcraps::monitoring::real_metrics::{compress, decompress, memory_stats_from_pages, PerformanceBenchmark};
use bitcraps::monitoring::system::monitors::{
    IOSSystemMonitor, LinuxSystemMonitor, MacOSSystemMonitor, MetricType, SystemMonitorError, WindowsSystemMonitor,
};

#[test]
fn test_logging_config() {
    let config = LoggingConfig::default();
    assert_eq!(config.level, "info");
    assert!(config.json_format);
    assert!(config.enable_correlation);
    assert!(!config.module_levels.is_empty());
}

#[test]
fn logging_config_module_levels() {
    let config = LoggingConfig::default();
    let i = kv_find(&config.module_levels, "bitcraps::network").unwrap();
    assert_eq!(config.module_levels[i].1, "debug");
    assert_eq!(config.module_levels.len(), 6);
    assert_eq!(config.max_file_size_bytes, 100 * 1024 * 1024);
}

#[test]
fn test_correlation_context() {
    let context = CorrelationContext::new()
        .with_user_id("test_user".to_string())
        .with_game_id("game_123".to_string())
        .add_context("custom_field".to_string(), "value".to_string());

    let mut slot = None;
    set_correlation_context(&mut slot, context);

    let retrieved = get_correlation_context(&slot).unwrap();
    assert_eq!(retrieved.user_id, Some("test_user".to_string()));
    assert_eq!(retrieved.game_id, Some("game_123".to_string()));
    let field = retrieved.trace_context.get("custom_field").cloned();
    assert_eq!(field, Some("value".to_string()));

    clear_correlation_context(&mut slot);
    assert!(get_correlation_context(&slot).is_none());
}

#[test]
fn correlation_context_replaces_entries() {
    let c = CorrelationContext::new()
        .with_request_id("r1".into())
        .with_session_id("s".into())
        .add_context("k".into(), "1".into())
        .add_context("k".into(), "2".into());
    assert_eq!(c.request_id, "r1");
    assert_eq!(c.trace_context.entries(), &vec![("k".to_string(), "2".to_string())]);
    assert_eq!(c.trace_context.get("k"), Some(&"2".to_string()));
    assert_eq!(c.trace_context.get("missing"), None);
    assert_eq!(CorrelationContext::new().request_id.len(), 36);
    let f = FluentdAggregator::new("h".into(), 24224, "t".into());
    assert_eq!(f.port, 24224);
}

#[test]
fn test_dashboard_metrics() {
    let mut dashboard = NetworkDashboard::new();

    dashboard.update_node_count(5);
    dashboard.update_game_count(3);
    dashboard.add_volume(1_000_000);
    dashboard.update_mining_rate(15);

    let stats = dashboard.get_stats();
    assert_eq!(stats.node_count, 5);
    assert_eq!(stats.game_count, 3);
    assert_eq!(stats.volume, 1_000_000);
    assert_eq!(stats.hash_rate, 15);
}

#[test]
fn test_health_check() {
    let dashboard = NetworkDashboard::new();
    let mut health = HealthCheck::new(dashboard);

    assert!(!health.is_healthy());

    health.dashboard.update_node_count(1);
    assert!(health.is_healthy());

    let json = health.health_json();
    assert!(json.contains("\"healthy\": true"));
    assert!(json.contains("\"nodes\": 1"));
}

#[test]
fn health_json_exact_and_spam_is_unhealthy() {
    let mut d = NetworkDashboard::new();
    d.update_node_count(2);
    d.add_volume(5_500_000);
    d.update_mining_rate(10_000);
    let agg = d.aggregate_network_metrics();
    assert_eq!(agg.node_count, 3);
    let h = HealthCheck::new(d);
    assert!(!h.is_healthy());
    assert_eq!(
        h.health_json(),
        "{\n    \"healthy\": false,\n    \"nodes\": 2,\n    \"games\": 0,\n    \"volume_crap\": 5,\n    \"mining_rate\": 10000\n}"
    );
    let mut w = NetworkDashboard::new();
    w.add_volume(u64::MAX);
    w.add_volume(2);
    assert_eq!(w.total_volume, 1);
}

#[test]
fn gaming_metrics_count_bets_and_payouts() {
    let mut g = GamingMetrics::new();
    g.record_bet(100);
    g.record_bet(50);
    g.record_payout(70);
    let s = g.snapshot();
    assert_eq!((s.total_bets, s.total_volume, s.total_payouts), (2, 150, 70));
}

#[test]
fn error_metrics_keep_the_last_hundred() {
    let mut e = ErrorMetrics::new();
    for i in 0..105u64 {
        e.record_error_at(ErrorCategory::Network, format!("e{}", i), i % 2 == 0, i);
    }
    assert_eq!(e.recent_errors.len(), 100);
    assert_eq!(e.recent_errors[0].timestamp, 5);
    assert_eq!(e.network_errors, 105);
    assert_eq!(e.critical_errors, 53);
    e.record_error(ErrorCategory::Other, "x".into(), false);
    assert_eq!(e.snapshot().total_errors, 106);
}

#[test]
fn integration_events_move_counters() {
    let mut m = MetricsCounters::new();
    assert!(record_game_event(&mut m, "game_created", "g"));
    assert!(record_game_event(&mut m, "bet_placed", "g"));
    assert!(record_game_event(&mut m, "dice_rolled", "g"));
    assert!(!record_game_event(&mut m, "other", "g"));
    assert_eq!((m.gaming.total_games, m.gaming.total_bets, m.gaming.dice_rolls), (1, 1, 1));
    assert!(record_network_event(&mut m, "peer_connected", Some("p")));
    assert!(record_network_event(&mut m, "message_sent", None));
    assert_eq!(m.network.active_connections, 1);
    assert!(record_network_event(&mut m, "peer_disconnected", None));
    assert_eq!(m.network.active_connections, 0);
    assert_eq!(record_error(&mut m, "network", "warning", "x"), ReportLevel::Warn);
    assert_eq!(record_error(&mut m, "disk", "critical", "x"), ReportLevel::Error);
    assert_eq!(record_error(&mut m, "gaming", "note", "x"), ReportLevel::Info);
    assert_eq!((m.errors.network_errors, m.errors.critical_errors, m.errors.gaming_errors), (1, 1, 1));
}

#[test]
fn test_real_compression() {
    let original = b"Hello, world! This is a test of real compression.";
    let compressed = compress(original).unwrap();
    let decompressed = decompress(&compressed).unwrap();

    assert_eq!(original, &decompressed[..]);

    let repetitive = vec![b'A'; 1000];
    let compressed = compress(&repetitive).unwrap();
    assert!(compressed.len() < repetitive.len());

    let ratio = compressed.len() as f64 / repetitive.len() as f64;
    assert!(ratio < 0.5);
}

#[test]
fn benchmark_counts_and_memory_stats() {
    let mut bench = PerformanceBenchmark::new();
    for _ in 0..1000 {
        bench.record_operation();
    }
    assert_eq!(bench.operations, 1000);
    bench.reset();
    assert_eq!(bench.operations, 0);
    let m = memory_stats_from_pages(512, 256, 0, 255, 1024);
    assert_eq!((m.total_mb, m.resident_mb, m.shared_mb, m.text_mb, m.data_mb), (2, 1, 0, 0, 4));
}

#[test]
fn test_linux_monitor_creation() {
    let monitor = LinuxSystemMonitor::new();
    assert_eq!(monitor.platform_name(), "linux");
    assert!(monitor.is_real_monitoring());
}

#[test]
fn test_macos_monitor_creation() {
    let monitor = MacOSSystemMonitor::new();
    assert_eq!(monitor.platform_name(), "macos");
}

#[test]
fn test_windows_monitor_creation() {
    let monitor = WindowsSystemMonitor::new();
    assert_eq!(monitor.platform_name(), "windows");
}

#[test]
fn test_ios_monitor_creation() {
    let monitor = IOSSystemMonitor::new();
    assert_eq!(monitor.platform_name(), "ios");
}

#[test]
fn monitors_list_all_metrics_and_errors_read_well() {
    let all = LinuxSystemMonitor::new().supported_metrics();
    assert_eq!(all.len(), 6);
    assert_eq!(all[0], MetricType::CpuUsage);
    assert_eq!(IOSSystemMonitor::new().supported_metrics(), all);
    let e = SystemMonitorError::MetricNotAvailable { metric: MetricType::Battery };
    assert_eq!(e.message(), "Metric not available on this platform: Battery");
    assert_eq!(SystemMonitorError::ParseError("x".into()).message(), "Parse error: x");
}

use bitcraps::monitoring::http_server::{
    build_health_response, build_readiness_response, database_status, network_status, DatabasePoolStats, Probe,
};
use bitcraps::monitoring::live_dashboard::{collect_network_overview, collect_recent_activity, network_quality};
use bitcraps::monitoring::metrics::NetworkCounters;
use bitcraps::monitoring::overflow::{BoundedBroadcaster, BoundedMpsc, BroadcastError, MpscError, OverflowStrategy};
use bitcraps::monitoring::real_metrics::{compress_lz4, decompress_lz4};
use bitcraps::monitoring::system::monitors::{global_system_monitor, SystemMonitorFactory};

#[test]
fn test_bounded_mpsc() {
    let (mut sender, mut receiver) = BoundedMpsc::new(2, OverflowStrategy::DropNewest);

    // Send within capacity
    assert!(sender.try_send("msg1".to_string()).is_ok());
    assert!(sender.try_send("msg2".to_string()).is_ok());

    // This should drop
    let result = sender.try_send("msg3".to_string());
    assert!(matches!(result, Err(MpscError::Dropped(_))));

    // Receive messages
    assert_eq!(receiver.try_recv().unwrap(), "msg1");
    assert_eq!(receiver.try_recv().unwrap(), "msg2");

    // No third message should be available
    assert!(receiver.try_recv().is_err());
}

#[test]
fn bounded_mpsc_strategies_on_a_full_channel() {
    let (mut errs, _rx1) = BoundedMpsc::new(1, OverflowStrategy::Error);
    assert!(errs.try_send(1u8).is_ok());
    assert!(matches!(errs.try_send(2u8), Err(MpscError::Full(2))));
    assert!(matches!(errs.send_without_waiting(3u8), Err(MpscError::Full(3))));
    let stats = errs.stats();
    assert_eq!((stats.total_sent, stats.total_dropped), (1, 0));

    let (mut oldest, _rx2) = BoundedMpsc::new(1, OverflowStrategy::DropOldest);
    assert!(oldest.send_without_waiting(1u8).is_ok());
    assert!(matches!(oldest.try_send(2u8), Err(MpscError::Full(2))));
    assert!(matches!(oldest.send_without_waiting(3u8), Err(MpscError::Dropped(3))));
    let stats = oldest.stats();
    assert_eq!((stats.total_sent, stats.total_dropped, stats.max_size), (1, 1, 0));
}

#[test]
fn bounded_mpsc_reports_a_closed_channel() {
    let (mut sender, receiver) = BoundedMpsc::new(4, OverflowStrategy::DropNewest);
    drop(receiver);
    assert!(matches!(sender.try_send(7u32), Err(MpscError::Closed(7))));
    assert!(matches!(sender.record_blocking_send(Err(8u32)), Err(MpscError::Closed(8))));
    assert!(sender.record_blocking_send(Ok(())).is_ok());
    assert_eq!(sender.stats().total_sent, 1);
    assert_eq!(sender.stats().total_dropped, 0);
}

#[test]
fn bounded_broadcaster_without_receivers_applies_its_strategy() {
    let mut dropping = BoundedBroadcaster::new(2, OverflowStrategy::DropNewest);
    assert!(matches!(dropping.send("a".to_string()), Err(BroadcastError::Dropped(ref m)) if m == "a"));
    assert_eq!(dropping.stats().total_dropped, 1);
    let mut blocking = BoundedBroadcaster::new(2, OverflowStrategy::Block);
    assert!(matches!(blocking.send(1u8), Err(BroadcastError::Dropped(1))));
    assert_eq!(blocking.stats().total_dropped, 0);
    let mut erroring = BoundedBroadcaster::new(2, OverflowStrategy::Error);
    assert!(matches!(erroring.try_send(1u8), Err(BroadcastError::Full(1))));
    assert_eq!(erroring.stats().max_size, 2);
}

#[test]
fn bounded_broadcaster_reaches_its_subscribers() {
    let mut b = BoundedBroadcaster::new(2, OverflowStrategy::DropNewest);
    let mut rx1 = b.subscribe();
    let mut rx2 = b.subscribe();
    assert_eq!(b.send("msg1".to_string()).ok(), Some(2));
    assert_eq!(rx1.try_recv().unwrap(), "msg1");
    assert_eq!(rx2.try_recv().unwrap(), "msg1");
    assert_eq!(b.stats().total_dropped, 0);
}

#[test]
fn health_response_reports_each_probe() {
    let (resp, ok) = build_health_response(
        "healthy",
        3,
        Some(Probe { value: 5, duration_ms: 4 }),
        Some(Probe { value: 0, duration_ms: 6 }),
        1234567890,
        3600,
        "0.1.0",
    );
    assert!(ok);
    assert_eq!(resp.status, "healthy");
    assert_eq!(resp.version, "0.1.0");
    assert_eq!(resp.checks.len(), 3);
    assert_eq!(resp.checks[1].name, "database");
    assert_eq!(resp.checks[1].status, "healthy");
    assert_eq!(resp.checks[2].status, "degraded");
    assert_eq!(resp.checks[2].message.as_deref(), Some("0 peers connected"));
    assert_eq!(resp.checks[2].duration_ms, 6);
}

#[test]
fn health_response_is_unhealthy_with_a_busy_database() {
    let (resp, ok) = build_health_response("healthy", 1, Some(Probe { value: 100, duration_ms: 2 }), None, 1, 2, "v");
    assert!(!ok);
    assert_eq!(resp.status, "unhealthy");
    assert_eq!(resp.checks[1].status, "unhealthy");
    let (resp, ok) = build_health_response("degraded", 1, None, Some(Probe { value: 12, duration_ms: 2 }), 1, 2, "v");
    assert!(!ok);
    assert_eq!(resp.checks.len(), 2);
    assert_eq!(resp.checks[1].message.as_deref(), Some("12 peers connected"));
}

#[test]
fn readiness_needs_an_idle_database_connection() {
    let stats = DatabasePoolStats { active_connections: 3, total_connections: 3, total_queries: 9 };
    let r = build_readiness_response(true, Some(stats), Some(2), 77);
    assert!(!r.ready);
    assert_eq!(r.checks.len(), 2);
    assert!(!r.checks[0].ready);
    assert!(r.checks[1].ready);
    let r = build_readiness_response(true, None, Some(0), 77);
    assert!(r.ready);
    assert!(!r.checks[0].ready);
    assert!(!build_readiness_response(false, None, None, 1).ready);
    let d = database_status(Some(stats));
    assert!(d.healthy && d.connections_total == 3 && d.transactions_total == 9);
    assert_eq!(network_status(Some(4)).active_connections, 4);
    assert_eq!(network_status(None).connected_peers, 0);
}

#[test]
fn network_quality_bands() {
    assert_eq!(network_quality(0, 0), "Disconnected");
    assert_eq!(network_quality(2, 11), "Poor");
    assert_eq!(network_quality(2, 10), "Limited");
    assert_eq!(network_quality(3, 6), "Fair");
    assert_eq!(network_quality(10, 5), "Good");
    assert_eq!(network_quality(11, 1), "Good");
    assert_eq!(network_quality(11, 0), "Excellent");
}

#[test]
fn network_overview_and_activity_feed() {
    let mut counters = NetworkCounters::new();
    counters.record_message_sent(10);
    counters.active_connections = 4;
    let o = collect_network_overview(&counters);
    assert_eq!(o.messages_sent, 1);
    assert_eq!(o.bytes_sent, 10);
    assert_eq!(o.active_sessions, 4);
    assert_eq!(o.network_quality, "Good");
    let feed = collect_recent_activity(4, 2, 1000);
    assert_eq!(feed.len(), 3);
    assert_eq!(feed[0].timestamp, 970);
    assert_eq!(feed[0].description, "4 peers connected");
    assert_eq!(feed[1].timestamp, 985);
    assert_eq!(feed[1].description, "2 active games running");
    assert_eq!(feed[2].description, "Dashboard data refreshed");
    assert_eq!(feed[2].severity, "debug");
    assert_eq!(collect_recent_activity(0, 0, 30).len(), 1);
}

#[test]
fn current_platform_names() {
    assert_eq!(SystemMonitorFactory::current_platform("linux"), "linux");
    assert_eq!(SystemMonitorFactory::current_platform("windows"), "windows");
    assert_eq!(SystemMonitorFactory::current_platform("freebsd"), "unknown");
    assert!(!global_system_monitor().is_real_monitoring());
}

#[test]
fn lz4_round_trip_with_size_prefix() {
    let data = vec![0u8; 1024];
    let c = compress_lz4(&data).unwrap();
    assert_eq!(&c[0..4], &[0, 4, 0, 0]);
    assert!(c.len() < data.len());
    assert_eq!(decompress_lz4(&c).unwrap(), data);
    let text = b"BitCraps BitCraps BitCraps".to_vec();
    assert_eq!(decompress_lz4(&compress_lz4(&text).unwrap()).unwrap(), text);
    assert!(decompress_lz4(&[1, 2]).is_err());
}

use bitcraps::monitoring::system::linux::MemInfoKb;
use bitcraps::monitoring::system::monitors::CpuStats;
use bitcraps::monitoring::system::proc_text::{parse_uint_chars, split_lines, split_words, IntErrorKind};

fn chars(s: &str) -> Vec<char> {
    s.chars().collect()
}

fn parse_error_text(e: SystemMonitorError) -> String {
    match e {
        SystemMonitorError::ParseError(m) => m,
        other => panic!("unexpected error {:?}", other),
    }
}

#[test]
fn lines_and_words_split_as_std_does() {
    for text in ["", "\n", "a\r\nb", "a\n\nb\n", "x\r", " cpu  1\t2 \n3"] {
        let got: Vec<String> = split_lines(&chars(text)).into_iter().map(|l| l.into_iter().collect()).collect();
        let want: Vec<String> = text.lines().map(|l| l.to_string()).collect();
        assert_eq!(got, want, "lines of {:?}", text);
        let got: Vec<String> = split_words(&chars(text)).into_iter().map(|w| w.into_iter().collect()).collect();
        let want: Vec<String> = text.split_whitespace().map(|w| w.to_string()).collect();
        assert_eq!(got, want, "words of {:?}", text);
    }
}

#[test]
fn numbers_read_as_from_str_reads_them() {
    assert_eq!(parse_uint_chars(&chars("12345"), u64::MAX), Ok(12345));
    assert_eq!(parse_uint_chars(&chars("+7"), u64::MAX), Ok(7));
    assert_eq!(parse_uint_chars(&chars("18446744073709551615"), u64::MAX), Ok(u64::MAX));
    assert_eq!(parse_uint_chars(&chars("18446744073709551616"), u64::MAX), Err(IntErrorKind::PosOverflow));
    assert_eq!(parse_uint_chars(&chars("4294967296"), u32::MAX as u64), Err(IntErrorKind::PosOverflow));
    assert_eq!(parse_uint_chars(&chars(""), u64::MAX), Err(IntErrorKind::Empty));
    assert_eq!(parse_uint_chars(&chars("+"), u64::MAX), Err(IntErrorKind::InvalidDigit));
    assert_eq!(parse_uint_chars(&chars("-1"), u64::MAX), Err(IntErrorKind::InvalidDigit));
    assert_eq!(parse_uint_chars(&chars("12a"), u64::MAX), Err(IntErrorKind::InvalidDigit));
    assert_eq!(parse_uint_chars(&chars("99999999999999999999x"), u64::MAX), Err(IntErrorKind::PosOverflow));
    assert_eq!("99999999999999999999x".parse::<u64>().unwrap_err().to_string(), "number too large to fit in target type");
}

#[test]
fn cpu_line_of_proc_stat() {
    let stat = "cpu  10 2 30 400 5 6 7 8 9 10\ncpu0 1 1 1 1 1 1 1 1 1 1\n";
    let s = LinuxSystemMonitor::parse_cpu_stats(stat).unwrap();
    assert_eq!(
        s,
        CpuStats { user: 10, nice: 2, system: 30, idle: 400, iowait: 5, irq: 6, softirq: 7, steal: 8, guest: 9, guest_nice: 10 }
    );
    assert_eq!(s.total(), 487);
    assert_eq!(parse_error_text(LinuxSystemMonitor::parse_cpu_stats("").unwrap_err()), "Empty /proc/stat");
    assert_eq!(parse_error_text(LinuxSystemMonitor::parse_cpu_stats("intr 1 2\n").unwrap_err()), "Invalid /proc/stat format");
    assert_eq!(
        parse_error_text(LinuxSystemMonitor::parse_cpu_stats("cpu 1 2 3\n").unwrap_err()),
        "Insufficient CPU stats in /proc/stat"
    );
    assert_eq!(
        parse_error_text(LinuxSystemMonitor::parse_cpu_stats("cpu 1 2 x3 4 5 6 7 8 9 10\n").unwrap_err()),
        "Failed to parse CPU stat 'x3': invalid digit found in string"
    );
}

#[test]
fn cpu_usage_differences_between_readings() {
    let mut m = LinuxSystemMonitor::new();
    let a = CpuStats { user: 10, nice: 0, system: 10, idle: 70, iowait: 10, irq: 0, softirq: 0, steal: 0, guest: 0, guest_nice: 0 };
    let b = CpuStats { user: 40, nice: 0, system: 20, idle: 120, iowait: 20, irq: 0, softirq: 0, steal: 0, guest: 0, guest_nice: 0 };
    assert_eq!(m.record_cpu_sample(a), None);
    assert_eq!(m.record_cpu_sample(b), Some((40, 100)));
    assert_eq!(m.last_cpu_stats, Some(b));
}

#[test]
fn memory_figures_of_proc_meminfo() {
    let info = "MemTotal:       16000 kB\nMemFree:         2000 kB\nMemAvailable:    6000 kB\nBuffers:          500 kB\nCached:          3000 kB\nHugePages_Total:       0\n";
    let kb = LinuxSystemMonitor::scan_memory_info(info).unwrap();
    assert_eq!(kb, MemInfoKb { total: 16000, available: 6000, free: 2000, buffers: 500, cached: 3000 });
    assert_eq!(LinuxSystemMonitor::memory_totals(kb), (16000 * 1024, 10000 * 1024, 6000 * 1024));
    let old_kernel = "MemTotal: 1000 kB\nMemFree: 100 kB\nBuffers: 50 kB\nCached: 150 kB\n";
    let kb = LinuxSystemMonitor::scan_memory_info(old_kernel).unwrap();
    assert_eq!(LinuxSystemMonitor::memory_totals(kb), (1000 * 1024, 700 * 1024, 300 * 1024));
    assert_eq!(
        parse_error_text(LinuxSystemMonitor::scan_memory_info("MemTotal: lots kB\n").unwrap_err()),
        "Failed to parse memory value 'lots': invalid digit found in string"
    );
}

#[test]
fn thread_count_and_battery_status() {
    let status = "Name:\tbitcraps\nThreads:\t12\nVmRSS:\t100 kB\n";
    assert!(matches!(LinuxSystemMonitor::thread_count_from_status(status), Some(Ok(12))));
    assert!(LinuxSystemMonitor::thread_count_from_status("Name: x\n").is_none());
    match LinuxSystemMonitor::thread_count_from_status("Threads:\n") {
        Some(Err(e)) => assert_eq!(parse_error_text(e), "Invalid Threads line in /proc/self/status"),
        _ => panic!("expected an error"),
    }
    match LinuxSystemMonitor::thread_count_from_status("Threads: 99999999999\n") {
        Some(Err(e)) => assert_eq!(parse_error_text(e), "Failed to parse thread count: number too large to fit in target type"),
        _ => panic!("expected an error"),
    }
    assert_eq!(LinuxSystemMonitor::charging_from_status("charging"), Some(true));
    assert_eq!(LinuxSystemMonitor::charging_from_status("full"), Some(false));
    assert_eq!(LinuxSystemMonitor::charging_from_status("not charging"), Some(false));
    assert_eq!(LinuxSystemMonitor::charging_from_status("unknown"), None);
}

#[test]
fn interfaces_of_proc_net_dev() {
    let dev = "Inter-|   Receive                                                |  Transmit\n face |bytes    packets errs drop fifo frame compressed multicast|bytes    packets errs drop fifo colls carrier compressed\n    lo:  1000      10    0    0    0     0          0         0     1000      10    0    0    0     0       0          0\n  eth0: 55000     300    0    0    0     0          0         0    42000     200    0    0    0     0       0          0\n";
    let ifs = LinuxSystemMonitor::parse_net_dev(dev).unwrap();
    assert_eq!(ifs.len(), 2);
    assert_eq!(ifs[0].name, "lo");
    assert_eq!(ifs[1].name, "eth0");
    assert_eq!((ifs[1].bytes_received, ifs[1].packets_received, ifs[1].bytes_sent, ifs[1].packets_sent), (55000, 300, 42000, 200));
    assert!(LinuxSystemMonitor::parse_net_dev("only one line\n").unwrap().is_empty());
    let bad = "h1\nh2\n  wl0: 1 x2 0 0 0 0 0 0 3 4 0 0 0 0 0 0\n";
    assert_eq!(
        parse_error_text(LinuxSystemMonitor::parse_net_dev(bad).unwrap_err()),
        "Failed to parse network stat 'x2': invalid digit found in string"
    );
}

#[test]
fn component_health_grades() {
    let n = check_network_health(0, 0, 7);
    assert_eq!((n.score_tenths, n.status), (0, ComponentStatus::Unknown));
    assert_eq!(n.message, "Network: 0 peers connected, 0 errors");
    assert_eq!(n.last_check, 7);
    let n = check_network_health(2, 11, 7);
    assert_eq!((n.score_tenths, n.status), (3, ComponentStatus::Unhealthy));
    let n = check_network_health(5, 3, 7);
    assert_eq!((n.score_tenths, n.status), (9, ComponentStatus::Healthy));
    let n = check_network_health(12, 1, 7);
    assert_eq!((n.score_tenths, n.status), (8, ComponentStatus::Healthy));
    assert_eq!(check_network_health(12, 0, 7).score_tenths, 10);
    assert_eq!(check_network_health(4, 6, 7).status, ComponentStatus::Degraded);

    assert_eq!(memory_health_grade(100 * 1024 * 1024), (10, ComponentStatus::Healthy));
    assert_eq!(memory_health_grade(512 * 1024 * 1024), (8, ComponentStatus::Healthy));
    assert_eq!(memory_health_grade(1536 * 1024 * 1024), (6, ComponentStatus::Degraded));
    assert_eq!(memory_health_grade(3 * 1024 * 1024 * 1024), (4, ComponentStatus::Degraded));
    assert_eq!(memory_health_grade(4 * 1024 * 1024 * 1024), (2, ComponentStatus::Unhealthy));

    let g = check_gaming_health(0, 1);
    assert_eq!((g.score_tenths, g.status), (7, ComponentStatus::Degraded));
    assert_eq!(g.message, "Gaming: 0 active games");
    assert_eq!(check_gaming_health(3, 1).score_tenths, 10);
    assert_eq!(check_gaming_health(20, 1).score_tenths, 9);
    assert_eq!(check_gaming_health(21, 1).score_tenths, 6);

    let c = check_consensus_health(4, 1);
    assert_eq!((c.score_tenths, c.status), (5, ComponentStatus::Degraded));
    assert_eq!(c.message, "Consensus: 4 errors detected");
    assert_eq!(check_consensus_health(0, 1).status, ComponentStatus::Healthy);
    assert_eq!(check_consensus_health(11, 1).status, ComponentStatus::Unhealthy);
}

fn figures() -> ExportFigures {
    ExportFigures {
        proposals_accepted: 3,
        consensus_latency_ms: "12.5".to_string(),
        memory_usage_bytes: 2048,
        cpu_usage_percent: 40,
        battery_level: None,
        battery_charging: None,
        temperature_celsius: None,
        thermal_throttling: false,
        uptime_seconds: 7,
    }
}

#[test]
fn test_prometheus_export() {
    let mut metrics = MetricsCounters::new();
    metrics.network.record_message_sent(100);

    let prometheus = metrics.export_prometheus(&figures());
    assert!(prometheus.contains("bitcraps_network_messages_sent 1"));
}

#[test]
fn prometheus_export_blocks_and_optional_device_metrics() {
    let mut metrics = MetricsCounters::new();
    metrics.network.record_message_sent(100);
    metrics.gaming.record_bet(5);
    let text = metrics.export_prometheus(&figures());
    assert!(text.starts_with(
        "# HELP bitcraps_network_messages_sent Total messages sent\n# TYPE bitcraps_network_messages_sent counter\nbitcraps_network_messages_sent 1\n"
    ));
    assert!(text.contains("bitcraps_network_bytes_sent 100\n"));
    assert!(text.contains("bitcraps_consensus_latency_ms 12.5\n"));
    assert!(text.contains("bitcraps_bets_total 1\n"));
    assert!(text.contains("bitcraps_thermal_throttling 0\n"));
    assert!(!text.contains("bitcraps_battery_level"));
    assert!(text.ends_with("# TYPE bitcraps_uptime_seconds counter\nbitcraps_uptime_seconds 7\n"));
    assert_eq!(text.matches("# HELP").count(), 13);

    let mut with_device = figures();
    with_device.battery_level = Some("80".to_string());
    with_device.battery_charging = Some(true);
    with_device.temperature_celsius = Some("36.6".to_string());
    with_device.thermal_throttling = true;
    let text = metrics.export_prometheus(&with_device);
    assert!(text.contains("bitcraps_battery_level 80\n"));
    assert!(text.contains("bitcraps_battery_charging 1\n"));
    assert!(text.contains("bitcraps_temperature_celsius 36.6\n"));
    assert!(text.contains("bitcraps_thermal_throttling 1\n"));
    assert_eq!(text.matches("# HELP").count(), 16);
}
