use bitcraps::mobile::platform_adaptations::PlatformType;
use bitcraps::mobile::secure_storage::PlatformStorage;
use bitcraps::error::Error;
use bitcraps::mobile::secure_storage::{
    AndroidSecureStorage, IOSSecureStorage, MemorySecureStorage, SecureStorage, SecureStorageManager,
};

#[test]
fn test_memory_secure_storage() {
    let mut storage = MemorySecureStorage::new();

    // Test store and retrieve
    let key = "test_key";
    let value = b"test_value";
    storage.store(key, value).unwrap();

    let retrieved = storage.retrieve(key).unwrap();
    assert_eq!(retrieved, Some(value.to_vec()));

    // Test exists
    assert!(storage.key_exists(key).unwrap());
    assert!(!storage.key_exists("nonexistent").unwrap());

    // Test delete
    storage.delete(key).unwrap();
    assert!(!storage.key_exists(key).unwrap());
}

#[test]
fn test_secure_storage_manager() {
    let mut manager = SecureStorageManager::new().unwrap();

    // Test private key storage
    let key_id = "user123";
    let private_key = b"private_key_bytes";
    manager.store_private_key(key_id, private_key).unwrap();

    let retrieved_key = manager.retrieve_private_key(key_id).unwrap();
    assert_eq!(retrieved_key, Some(private_key.to_vec()));

    // Test session token storage
    let session_id = "session456";
    let token = "auth_token_string";
    manager.store_session_token(session_id, token).unwrap();

    let retrieved_token = manager.retrieve_session_token(session_id).unwrap();
    assert_eq!(retrieved_token, Some(token.to_string()));
}

#[test]
fn store_replaces_and_list_keys_names_each_key_once() {
    let mut storage = MemorySecureStorage::default();
    storage.store("a", b"1").unwrap();
    storage.store("b", b"2").unwrap();
    storage.store("a", b"3").unwrap();
    assert_eq!(storage.retrieve("a").unwrap(), Some(b"3".to_vec()));
    let mut keys = storage.list_keys().unwrap();
    keys.sort();
    assert_eq!(keys, vec!["a".to_string(), "b".to_string()]);
    storage.clear_all().unwrap();
    assert!(storage.list_keys().unwrap().is_empty());
    assert_eq!(storage.retrieve("b").unwrap(), None);
}

#[test]
fn delete_user_data_removes_key_and_credentials_only() {
    let mut manager = SecureStorageManager::new().unwrap();
    manager.store_private_key("u1", b"k").unwrap();
    manager.store_user_credentials("u1", b"creds").unwrap();
    manager.store_session_token("u1", "tok").unwrap();
    manager.store_game_checkpoint("g1", b"cp").unwrap();
    manager.delete_user_data("u1").unwrap();
    assert_eq!(manager.retrieve_private_key("u1").unwrap(), None);
    assert_eq!(manager.retrieve_user_credentials("u1").unwrap(), None);
    assert_eq!(manager.retrieve_session_token("u1").unwrap(), Some("tok".to_string()));
    assert_eq!(manager.retrieve_game_checkpoint("g1").unwrap(), Some(b"cp".to_vec()));
    // deleting again is fine
    manager.delete_user_data("u1").unwrap();
}

#[test]
fn session_token_that_is_not_utf8_is_invalid_data() {
    let mut manager = SecureStorageManager::new().unwrap();
    manager.storage.store("session_token_bad", &[0xff, 0xfe]).unwrap();
    match manager.retrieve_session_token("bad") {
        Err(Error::InvalidData(m)) => assert!(m.starts_with("Invalid session token format: ")),
        other => panic!("unexpected {:?}", other),
    }
    assert_eq!(manager.retrieve_session_token("missing").unwrap(), None);
}

#[test]
fn android_storage_encrypts_and_decrypts() {
    let storage = AndroidSecureStorage::new().unwrap();
    assert_eq!(storage.keystore_alias, "bitcraps_secure_storage");
    let bio = AndroidSecureStorage::new_with_biometric().unwrap();
    assert_eq!(bio.keystore_alias, "bitcraps_biometric_storage");
    let key = b"test_key_for_development_only";
    let sealed = storage.encrypt_value(b"secret value", key).unwrap();
    // 12-byte nonce, the value and a 16-byte tag
    assert_eq!(sealed.len(), 12 + 12 + 16);
    assert_ne!(&sealed[12..24], b"secret value");
    let opened = storage.decrypt_value(&sealed, key).unwrap();
    assert_eq!(opened, b"secret value".to_vec());
    // a long key is cut to 32 bytes
    let long_key = [7u8; 40];
    let sealed2 = storage.encrypt_value(b"x", &long_key).unwrap();
    assert_eq!(storage.decrypt_value(&sealed2, &long_key).unwrap(), b"x".to_vec());
    // tampering is detected
    let mut bad = sealed.clone();
    bad[20] ^= 1;
    assert!(matches!(storage.decrypt_value(&bad, key), Err(Error::Crypto(_))));
}

#[test]
fn android_storage_reads_back_what_it_stored() {
    let mut storage = AndroidSecureStorage::new().unwrap();
    assert_eq!(storage.retrieve("k").unwrap(), None);
    assert!(!storage.key_exists("k").unwrap());
    storage.store("k", b"v").unwrap();
    assert_eq!(storage.retrieve("k").unwrap(), Some(b"v".to_vec()));
    assert!(storage.key_exists("k").unwrap());
    // what the preferences hold is sealed, not the value itself
    let sealed = storage.preferences.retrieve("k").unwrap().unwrap();
    assert_eq!(sealed.len(), 12 + 1 + 16);
    storage.store("k", b"w").unwrap();
    storage.store("j", b"x").unwrap();
    assert_eq!(storage.retrieve("k").unwrap(), Some(b"w".to_vec()));
    let mut keys = storage.list_keys().unwrap();
    keys.sort();
    assert_eq!(keys, vec!["j".to_string(), "k".to_string()]);
    storage.delete("k").unwrap();
    assert_eq!(storage.retrieve("k").unwrap(), None);
    storage.clear_all().unwrap();
    assert!(storage.list_keys().unwrap().is_empty());
    let short = storage.decrypt_value(&[1, 2, 3], b"k");
    assert!(matches!(short, Err(Error::Crypto(_))));
}

#[test]
fn ios_storage_reads_back_what_it_stored() {
    let mut storage = IOSSecureStorage::new().unwrap();
    assert_eq!(storage.service_name, "com.bitcraps.secure_storage");
    assert_eq!(storage.retrieve("k").unwrap(), None);
    storage.store("k", b"v").unwrap();
    assert_eq!(storage.retrieve("k").unwrap(), Some(b"v".to_vec()));
    assert!(storage.key_exists("k").unwrap());
    assert_eq!(storage.list_keys().unwrap(), vec!["k".to_string()]);
    storage.delete("k").unwrap();
    assert!(!storage.key_exists("k").unwrap());
    storage.store("a", b"1").unwrap();
    storage.clear_all().unwrap();
    assert!(storage.list_keys().unwrap().is_empty());
}

#[test]
fn manager_keeps_entries_in_the_storage_of_its_platform() {
    for platform in [PlatformType::Android, PlatformType::Ios, PlatformType::Desktop] {
        let mut manager = SecureStorageManager::for_platform(platform).unwrap();
        match (&manager.storage, platform) {
            (PlatformStorage::Android(_), PlatformType::Android) => {}
            (PlatformStorage::Ios(_), PlatformType::Ios) => {}
            (PlatformStorage::Memory(_), PlatformType::Desktop) => {}
            _ => panic!("wrong storage for {:?}", platform),
        }
        manager.store_private_key("user123", b"private_key_bytes").unwrap();
        manager.store_session_token("s1", "token").unwrap();
        assert_eq!(manager.retrieve_private_key("user123").unwrap(), Some(b"private_key_bytes".to_vec()));
        assert_eq!(manager.retrieve_session_token("s1").unwrap(), Some("token".to_string()));
        assert_eq!(manager.retrieve_game_checkpoint("g").unwrap(), None);
        manager.delete_user_data("user123").unwrap();
        assert_eq!(manager.retrieve_private_key("user123").unwrap(), None);
    }
    // On Android the value is kept sealed, not as given.
    let mut manager = SecureStorageManager::for_platform(PlatformType::Android).unwrap();
    manager.store_user_credentials("u", b"creds").unwrap();
    if let PlatformStorage::Android(s) = &manager.storage {
        let kept = s.preferences.retrieve("user_credentials_u").unwrap().unwrap();
        assert_eq!(kept.len(), 12 + 5 + 16);
    }
}
