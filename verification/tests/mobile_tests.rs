use bitcraps::error::{BitCrapsError, Error};
use bitcraps::mobile::performance::{BleScanConfig, MessageCompressor, CompressionAlgorithm};
use bitcraps::mobile::permissions::{Permission, PermissionManager};
use bitcraps::mobile::platform_adaptations::{BluetoothPlatformConfig, PlatformAdaptationManager, PlatformType};
use bitcraps::mobile::platform_config::{CompatibilityLayer, PlatformConfigBuilder, PlatformDetection};
use bitcraps::mobile::power_management::{BatteryOptimizationDetector, PowerManager, PowerMode};
use bitcraps::mobile::power_manager::{default_network_limits, get_network_limit, PowerSavingStrategies};
use bitcraps::mobile::performance::PowerState;
use bitcraps::mobile::secure_storage::{AndroidSecureStorage, MemorySecureStorage, PlatformStorage};
use bitcraps::mobile::secure_storage::SecureStorage;
use bitcraps::mobile::security_integration::{
    aes_gcm_decrypt, aes_gcm_encrypt, check_and_request_permissions, ensure_initialized, get_security_recommendations,
    get_security_status, security_level_for, verify_secure_storage, MobileSecurityConfig, MobileSecurityManager,
    SecurityLevel,
};
use bitcraps::mobile::uniffi_impl::{
    next_game_state, peer_info, validate_game_config, BetType, BitCrapsNode, GameConfig, GameEvent, GameState, NodeState,
};

#[test]
fn platform_defaults() {
    let c = PlatformDetection::get_platform_config(PlatformType::Ios);
    assert!(!c.background_scanning);
    assert_eq!((c.scan_window_ms, c.scan_interval_ms), (300, 2000));
    assert!(c.low_power_mode);
    let b = PlatformConfigBuilder::new(PlatformType::Android).scan_window_ms(100).low_power_mode(true).build();
    assert_eq!(b.scan_window_ms, 100);
    assert!(b.low_power_mode);
    assert!(PlatformDetection::supports_background_operation(PlatformType::Android));
    assert!(!PlatformDetection::supports_background_operation(PlatformType::Web));
    assert_eq!(CompatibilityLayer::max_connections(PlatformType::Ios), 10);
    let m = PlatformAdaptationManager::new(PlatformType::Android);
    let bt = m.get_bluetooth_config();
    let d = BluetoothPlatformConfig::default_android();
    assert_eq!(bt.max_connections, d.max_connections);
    assert_eq!(bt.preferred_mtu, 244);
}

#[test]
fn power_manager_modes_and_intervals() {
    let mut pm = PowerManager::new(PowerMode::Balanced);
    assert_eq!(pm.scan_interval, 1000);
    pm.set_mode(PowerMode::UltraLowPower).unwrap();
    assert_eq!(pm.scan_interval, 5000);
    assert!(matches!(pm.set_scan_interval(50), Err(BitCrapsError::InvalidInput { .. })));
    assert_eq!(pm.scan_interval, 5000);
    pm.set_scan_interval(150).unwrap();
    assert_eq!(pm.scan_interval, 150);
    let config = PlatformConfigBuilder::new(PlatformType::Android).low_power_mode(true).build();
    pm.configure_for_platform(&config).unwrap();
    assert_eq!(pm.scan_interval, 3000);
    pm.set_mode(PowerMode::BatterySaver).unwrap();
    let (window, interval) = pm.calculate_scan_parameters(PowerMode::BatterySaver, &config);
    assert_eq!((window, interval), (125, 4000));
    pm.configure_discovery(&Some(config)).unwrap();
    assert_eq!(pm.scan_interval, 4000);
}

#[test]
fn battery_optimization_detector_warns_on_fifth_late_scan() {
    let mut d = BatteryOptimizationDetector::new_at(0);
    let mut now = 0;
    for _ in 0..4 {
        now += 10;
        assert_eq!(d.report_scan_event_at(now), None);
    }
    now += 10;
    assert_eq!(
        d.report_scan_event_at(now),
        Some("Battery optimization detected: expected 1000ms interval, got 10000ms. Consider adding app to battery whitelist.".to_string())
    );
    // an on-time scan resets the count
    assert_eq!(d.report_scan_event_at(now + 1), None);
    assert_eq!(d.violation_count, 0);
}

#[test]
fn network_limits_per_power_state() {
    let t = default_network_limits();
    assert_eq!(get_network_limit(&t, PowerState::Critical), 64 * 1024);
    assert_eq!(get_network_limit(&t, PowerState::Charging), 2048 * 1024);
    assert_eq!(get_network_limit(&vec![], PowerState::Active), 512 * 1024);
    let s = PowerSavingStrategies::default();
    assert!(s.adaptive_cpu_scaling && s.predictive_management);
}

#[test]
fn ble_defaults_and_compression_passthrough() {
    let c = BleScanConfig::default();
    assert_eq!((c.active_duration_ms, c.idle_duration_ms, c.rssi_threshold), (1000, 4000, -70));
    let m = MessageCompressor::new(true, CompressionAlgorithm::Lz4, 64);
    assert_eq!(m.compress(b"abc").unwrap(), b"abc".to_vec());
    assert_eq!(m.decompress(b"abc").unwrap(), b"abc".to_vec());
}

#[test]
fn security_levels_and_recommendations() {
    assert_eq!(security_level_for(true, true, true), SecurityLevel::Maximum);
    assert_eq!(security_level_for(true, true, false), SecurityLevel::High);
    assert_eq!(security_level_for(true, false, true), SecurityLevel::Medium);
    assert_eq!(security_level_for(false, true, true), SecurityLevel::Low);
    let mut pm = PermissionManager::new(vec![Permission::Bluetooth], vec![Permission::Camera]);
    let mut summary = pm.check_all_permissions().unwrap();
    summary.denied_optional.push(Permission::Camera);
    let recs = get_security_recommendations(&summary, false, true);
    assert_eq!(
        recs,
        vec![
            "Enable biometric authentication for enhanced security".to_string(),
            "Consider granting optional permissions for better user experience".to_string(),
        ]
    );
    let status = get_security_status(&summary, true, false);
    assert_eq!(status.security_level, SecurityLevel::High);
    assert!(status.can_create_wallets);
    assert_eq!(status.recommended_actions.len(), 2);
}

#[test]
fn security_gates() {
    let mut pm = PermissionManager::new(
        PermissionManager::get_bitcraps_required_permissions(),
        PermissionManager::get_bitcraps_optional_permissions(),
    );
    let s = check_and_request_permissions(&mut pm).unwrap();
    assert!(s.can_continue);
    assert!(ensure_initialized(true).is_ok());
    match ensure_initialized(false) {
        Err(Error::InvalidState(m)) => assert_eq!(m, "Mobile security manager not initialized"),
        other => panic!("unexpected {:?}", other),
    }
    let mut storage = PlatformStorage::Memory(MemorySecureStorage::new());
    storage.store("keep", b"1").unwrap();
    verify_secure_storage(&mut storage).unwrap();
    assert_eq!(storage.list_keys().unwrap(), vec!["keep".to_string()]);
    let mut sealed = PlatformStorage::Android(AndroidSecureStorage::new().unwrap());
    verify_secure_storage(&mut sealed).unwrap();
    assert!(sealed.list_keys().unwrap().is_empty());
    let config = MobileSecurityConfig::default();
    assert_eq!(config.key_rotation_period, Some(86400 * 30));
    assert_eq!(config.security_policy.auto_lock_timeout, Some(300));
}

#[test]
fn xor_cipher_roundtrip() {
    let data = b"sensitive_test_data";
    let key = b"key";
    let enc = aes_gcm_encrypt(data, key).unwrap();
    assert_ne!(enc, data.to_vec());
    assert_eq!(enc[0], b's' ^ b'k');
    assert_eq!(enc[3], b's' ^ b'k');
    let dec = aes_gcm_decrypt(&enc, key).unwrap();
    assert_eq!(dec, data.to_vec());
}

#[test]
fn game_config_validation() {
    let mut c = GameConfig { min_bet: 10, max_bet: 5, player_limit: 1, timeout_seconds: 0, allow_spectators: false };
    match validate_game_config(&c) {
        Err(BitCrapsError::InvalidInput { reason }) => assert_eq!(reason, "Invalid bet range: min_bet > max_bet"),
        other => panic!("unexpected {:?}", other),
    }
    c.max_bet = 100;
    match validate_game_config(&c) {
        Err(BitCrapsError::GameError { reason }) => assert_eq!(reason, "Invalid player limit: must be at least 2"),
        other => panic!("unexpected {:?}", other),
    }
    c.player_limit = 4;
    match validate_game_config(&c) {
        Err(BitCrapsError::GameError { reason }) => assert_eq!(reason, "Invalid timeout: must be greater than 0"),
        other => panic!("unexpected {:?}", other),
    }
    c.timeout_seconds = 30;
    assert!(validate_game_config(&c).is_ok());
}

#[test]
fn craps_round_transitions() {
    assert_eq!(next_game_state(GameState::ComeOut, 3, 4), GameState::Resolved);
    assert_eq!(next_game_state(GameState::ComeOut, 1, 1), GameState::Resolved);
    assert_eq!(next_game_state(GameState::ComeOut, 2, 2), GameState::Point { point: 4 });
    assert_eq!(next_game_state(GameState::Point { point: 4 }, 1, 3), GameState::Resolved);
    assert_eq!(next_game_state(GameState::Point { point: 4 }, 6, 1), GameState::Resolved);
    assert_eq!(next_game_state(GameState::Point { point: 4 }, 5, 5), GameState::Point { point: 4 });
    assert_eq!(next_game_state(GameState::Waiting, 3, 4), GameState::Waiting);
}

#[test]
fn node_game_lifecycle() {
    let mut node = BitCrapsNode::new(vec![0xab, 0xcd, 0x01, 0x02, 0x03], PowerMode::Balanced, None);
    node.start_discovery().unwrap();
    assert_eq!(node.get_status().state, NodeState::Discovering);
    let peers = node.get_discovered_peers(&vec![vec![0x01, 0xff], vec![0x10]]).unwrap();
    assert_eq!(peers, vec!["01ff".to_string(), "10".to_string()]);
    assert_eq!(node.status.active_connections, 2);
    let bad = GameConfig { min_bet: 1, max_bet: 10, player_limit: 1, timeout_seconds: 5, allow_spectators: true };
    assert!(node.create_game(bad).is_err());
    let good = GameConfig { min_bet: 1, max_bet: 10, player_limit: 4, timeout_seconds: 5, allow_spectators: true };
    let mut game = node.create_game(good).unwrap();
    assert_eq!(game.get_state(), GameState::Waiting);
    assert_eq!(node.status.current_game_id, Some(game.get_game_id()));
    assert!(game.place_bet(&mut node, BetType::Pass, 0).is_err());
    game.place_bet(&mut node, BetType::Pass, 50).unwrap();
    game.state = GameState::ComeOut;
    game.apply_roll(&mut node, 2, 2, 123).unwrap();
    assert_eq!(game.get_state(), GameState::Point { point: 4 });
    let roll = game.get_last_roll().unwrap();
    assert_eq!(roll.roller_peer_id, "abcd010203");
    assert_eq!(game.get_game_history().len(), 2);
    game.roll_dice(&mut node).unwrap();
    let history = game.get_game_history();
    assert_eq!(history.len(), 3);
    assert!(matches!(history[2], GameEvent::DiceRolled { .. }));
    let events = node.drain_events();
    assert!(matches!(events[0], GameEvent::NetworkStateChanged { .. }));
    assert!(matches!(events[1], GameEvent::GameCreated { .. }));
    assert!(matches!(events[2], GameEvent::BetPlaced { amount: 50, .. }));
    assert_eq!(events.len(), 5);
    assert!(node.poll_event().is_none());
    node.leave_game().unwrap();
    assert_eq!(node.status.current_game_id, None);
    match node.poll_event() {
        Some(GameEvent::GameLeft { peer_id, .. }) => assert_eq!(peer_id, "abcd010203"),
        other => panic!("unexpected {:?}", other),
    }
    assert!(game.roll_dice(&mut node).is_err());
}

#[test]
fn join_game_checks_uuid() {
    let mut node = BitCrapsNode::new(vec![1, 2, 3, 4], PowerMode::HighPerformance, None);
    match node.join_game("not-a-uuid".to_string()) {
        Err(BitCrapsError::InvalidInput { reason }) => assert_eq!(reason, "Invalid game ID format"),
        _ => panic!("expected an error"),
    }
    let g = node.join_game("550e8400-e29b-41d4-a716-446655440000".to_string()).unwrap();
    assert_eq!(g.game_id, "550e8400-e29b-41d4-a716-446655440000");
    assert_eq!(node.get_peer_id(), Some("local_peer".to_string()));
    node.set_power_mode(PowerMode::BatterySaver).unwrap();
    assert_eq!(node.power_manager.scan_interval, 2000);
    let info = peer_info(&[0xde, 0xad, 0xbe, 0xef, 0x01], Some(150), 9);
    assert_eq!(info.peer_id, "deadbeef01");
    assert_eq!(info.display_name, Some("Player_deadbeef".to_string()));
    assert_eq!(info.signal_strength, 75);
    assert_eq!(peer_info(&[0, 0, 0, 0], None, 0).signal_strength, 50);
}

#[test]
fn power_manager_records_only_real_transitions() {
    let mut pm = bitcraps::mobile::power_manager::PowerManager::new();
    assert_eq!(pm.get_power_state(), PowerState::Active);
    assert!(pm.set_power_state_at(PowerState::Active, 5).is_none());
    assert_eq!(pm.state_transitions(), 0);
    let change = pm.set_power_state_at(PowerState::PowerSaver, 10).unwrap();
    assert_eq!(change.old_state, PowerState::Active);
    assert_eq!(change.new_state, PowerState::PowerSaver);
    assert_eq!(change.timestamp, 10);
    assert_eq!(pm.state_history(), vec![(10, PowerState::PowerSaver)]);
    for i in 0..150u64 {
        let s = if i % 2 == 0 { PowerState::Standby } else { PowerState::Charging };
        pm.set_power_state_at(s, 100 + i);
    }
    assert_eq!(pm.state_transitions(), 151);
    let h = pm.state_history();
    assert_eq!(h.len(), 100);
    assert_eq!(h[99], (249, PowerState::Charging));
    assert_eq!(h[0], (150, PowerState::Standby));
}

#[test]
fn test_mobile_security_manager_creation() {
    let config = MobileSecurityConfig::default();
    let manager = MobileSecurityManager::new(config, false, true);

    // May fail on non-mobile platforms but should not panic
    if manager.is_ok() {
        let mut manager = manager.unwrap();
        let status = manager.get_security_status();
        assert!(status.is_ok());
        assert_eq!(status.unwrap().security_level, SecurityLevel::Medium);
        assert!(manager.ensure_initialized().is_ok());
    }
}

#[test]
fn security_manager_requires_configured_biometrics_when_the_policy_does() {
    let mut config = MobileSecurityConfig::default();
    config.security_policy.require_biometric_auth = true;
    match MobileSecurityManager::new(config, false, false) {
        Err(Error::Security(m)) => assert_eq!(m, "Biometric authentication required but not configured"),
        _ => panic!("expected a security error"),
    }
    let mut config = MobileSecurityConfig::default();
    config.security_policy.require_biometric_auth = true;
    let mut m = MobileSecurityManager::new(config, true, true).unwrap();
    assert_eq!(
        m.get_security_status().unwrap().security_level,
        SecurityLevel::Maximum
    );
}

#[test]
fn secure_wallet_creation_and_unlock() {
    let mut m = MobileSecurityManager::new(MobileSecurityConfig::default(), true, true).unwrap();
    assert!(!m.wallet_creation_needs_auth());
    let w = m.create_secure_wallet_at("w1", Some("sig-w1".to_string()), 1_000).unwrap();
    assert_eq!(w.wallet_id, "w1");
    assert_eq!(w.metadata.master_key_id, "wallet_master_w1");
    assert_eq!((w.metadata.created_at, w.metadata.last_used, w.metadata.version), (1_000, 1_000, 1));
    assert!(w.metadata.biometric_protected && w.metadata.hardware_backed);
    assert_eq!(w.signing_key.as_deref(), Some("sig-w1"));
    assert_eq!(w.key_hierarchy.master_key_id, "wallet_master_w1");
    assert!(m.wallet_unlock_needs_auth(&w.metadata));

    match m.load_wallet_metadata("w1") {
        Err(Error::NotFound(msg)) => assert_eq!(msg, "Wallet 'w1' not found"),
        _ => panic!("expected not found"),
    }
    m.store_wallet_records("w1", b"credentials", b"metadata-bytes").unwrap();
    assert_eq!(m.load_wallet_metadata("w1").unwrap(), b"metadata-bytes".to_vec());

    let unlocked = m.unlock_secure_wallet_at("w1", w.metadata, Some("sig-w1".to_string()), 2_000).unwrap();
    assert_eq!((unlocked.metadata.created_at, unlocked.metadata.last_used), (1_000, 2_000));
    assert_eq!(unlocked.signing_key.as_deref(), Some("sig-w1"));
}

#[test]
fn wallet_without_biometrics_keeps_no_signing_key() {
    let m = MobileSecurityManager::new(MobileSecurityConfig::default(), false, false).unwrap();
    let w = m.create_secure_wallet_at("w2", Some("ignored".to_string()), 5).unwrap();
    assert!(w.signing_key.is_none());
    assert!(!w.metadata.biometric_protected);
    assert!(!w.metadata.hardware_backed);
    assert!(!m.wallet_unlock_needs_auth(&w.metadata));
}

#[test]
fn sensitive_data_roundtrip() {
    let m = MobileSecurityManager::new(MobileSecurityConfig::default(), false, true).unwrap();
    let key = [7u8; 32];
    let e = m.encrypt_sensitive_data_at(b"secret data", "ctx", &key, 42).unwrap();
    assert_eq!(e.algorithm, "AES-256-GCM");
    assert_eq!(e.context, "ctx");
    assert_eq!(e.created_at, 42);
    assert_ne!(e.data, b"secret data".to_vec());
    assert_eq!(e.data[0], b's' ^ 7);
    assert_eq!(m.decrypt_sensitive_data_with(&e, &key).unwrap(), b"secret data".to_vec());
}

#[test]
fn test_secure_wallet_operations() {
    let mut config = MobileSecurityConfig::default();
    config.require_biometric_auth = false;
    if let Ok(mut manager) = MobileSecurityManager::new(config, false, false) {
        let wallet_id = "test_wallet";
        let wallet = manager.create_secure_wallet_at(wallet_id, None, 1_700_000_000);
        if wallet.is_ok() {
            let created_wallet = wallet.unwrap();
            assert_eq!(created_wallet.wallet_id, wallet_id);
            manager.store_wallet_records(wallet_id, b"credentials", b"metadata").unwrap();
            assert!(manager.load_wallet_metadata(wallet_id).is_ok());
            let unlocked = manager.unlock_secure_wallet_at(wallet_id, created_wallet.metadata, None, 1_700_000_100);
            assert!(unlocked.is_ok());
        }
    }
}

#[test]
fn test_data_encryption() {
    let mut config = MobileSecurityConfig::default();
    config.require_biometric_auth = false;
    if let Ok(manager) = MobileSecurityManager::new(config, false, false) {
        let test_data = b"sensitive_test_data";
        let context = "test_encryption";
        let key = [0x5Au8; 32];
        let encrypted = manager.encrypt_sensitive_data_at(test_data, context, &key, 1_700_000_000);
        if encrypted.is_ok() {
            let encrypted_data = encrypted.unwrap();
            assert_eq!(encrypted_data.context, context);
            assert_ne!(encrypted_data.data, test_data.to_vec());
            let decrypted = manager.decrypt_sensitive_data_with(&encrypted_data, &key);
            if decrypted.is_ok() {
                assert_eq!(decrypted.unwrap(), test_data.to_vec());
            }
        }
    }
}
