use breez_nostr::storage::{PluginStorage, PluginStorageError};

const KEY: [u8; 32] = [7u8; 32];

fn storage() -> PluginStorage {
    PluginStorage::new(&KEY, "breez-nostr".to_string()).unwrap()
}

#[test]
fn new_refuses_empty_plugin_id() {
    match PluginStorage::new(&KEY, String::new()) {
        Err(PluginStorageError::Generic { err }) => {
            assert_eq!(err, "Plugin ID cannot be an empty string!")
        }
        _ => panic!("an empty plugin id must be refused"),
    }
}

#[test]
fn new_keeps_plugin_id() {
    assert_eq!(storage().plugin_id(), "breez-nostr");
}

#[test]
fn scoped_key_prefixes_plugin_id() {
    assert_eq!(storage().scoped_key("nostr_zaps"), "breez-nostr-nostr_zaps");
    assert_eq!(storage().scoped_key(""), "breez-nostr-");
}

#[test]
fn encrypt_then_decrypt_gives_value_back() {
    let s = storage();
    for value in ["", "hello", "{\"a\":1}", "ünïcödé ⚡"] {
        let sealed = s.encrypt(value).unwrap();
        assert_eq!(s.decrypt(&sealed).unwrap(), value);
    }
}

#[test]
fn sealed_text_is_hex_of_nonce_and_ciphertext() {
    let s = storage();
    let nonce = [0u8; 12];
    let sealed = s.encrypt_with_nonce("hello", &nonce).unwrap();
    // 12 nonce bytes, 5 plaintext bytes, 16 tag bytes, two hex digits each
    assert_eq!(sealed.len(), 2 * (12 + 5 + 16));
    assert!(sealed.starts_with("000000000000000000000000"));
    assert!(sealed.chars().all(|c| c.is_ascii_digit() || ('a'..='f').contains(&c)));
    assert_eq!(s.encrypt_with_nonce("hello", &nonce).unwrap(), sealed);
    assert_ne!(s.encrypt_with_nonce("hellp", &nonce).unwrap(), sealed);
}

#[test]
fn fresh_nonces_differ() {
    let s = storage();
    assert_ne!(s.encrypt("same").unwrap(), s.encrypt("same").unwrap());
}

#[test]
fn decrypt_refuses_text_that_is_no_hex() {
    let s = storage();
    let bad = "zz".repeat(40);
    assert!(matches!(s.decrypt(&bad), Err(PluginStorageError::Encryption { .. })));
    let odd = "0".repeat(41);
    assert!(matches!(s.decrypt(&odd), Err(PluginStorageError::Encryption { .. })));
}

#[test]
fn decrypt_refuses_other_key() {
    let sealed = storage().encrypt("secret").unwrap();
    let other = PluginStorage::new(&[9u8; 32], "breez-nostr".to_string()).unwrap();
    assert!(matches!(other.decrypt(&sealed), Err(PluginStorageError::Encryption { .. })));
}

#[test]
fn decrypt_refuses_tampered_text() {
    let s = storage();
    let mut sealed = s.encrypt("secret").unwrap();
    let last = sealed.pop().unwrap();
    sealed.push(if last == '0' { '1' } else { '0' });
    assert!(matches!(s.decrypt(&sealed), Err(PluginStorageError::Encryption { .. })));
}

#[test]
fn seal_item_scopes_and_seals() {
    let s = storage();
    let (key, sealed) = s.seal_item("nostr_seckey", "abc").unwrap();
    assert_eq!(key, "breez-nostr-nostr_seckey");
    assert_eq!(s.open_item(Some(sealed)).unwrap(), Some("abc".to_string()));
}

#[test]
fn safe_write_over_the_stored_old_value_hands_it_back() {
    let s = storage();
    let stored = s.encrypt("old").unwrap();
    let (key, new, previous) = s.seal_item_safe("k", "new", "old", Some(stored.clone())).unwrap();
    assert_eq!(key, "breez-nostr-k");
    assert_eq!(s.decrypt(&new).unwrap(), "new");
    assert_eq!(previous, Some(stored));
}

#[test]
fn safe_write_over_a_changed_value_is_too_old() {
    let s = storage();
    let stored = s.encrypt("changed").unwrap();
    assert!(matches!(s.seal_item_safe("k", "new", "old", Some(stored)), Err(PluginStorageError::DataTooOld)));
}

#[test]
fn safe_write_over_nothing_compares_nothing() {
    let s = storage();
    let (_, new, previous) = s.seal_item_safe("k", "new", "old", None).unwrap();
    assert_eq!(s.open_item(Some(new)).unwrap(), Some("new".to_string()));
    assert_eq!(previous, None);
}

#[test]
fn safe_write_over_an_unreadable_value_is_an_encryption_error() {
    let s = storage();
    let other = PluginStorage::new(&[9u8; 32], "breez-nostr".to_string()).unwrap();
    let stored = other.encrypt("old").unwrap();
    assert!(matches!(s.seal_item_safe("k", "new", "old", Some(stored)), Err(PluginStorageError::Encryption { .. })));
}

#[test]
fn open_item_of_nothing_is_nothing() {
    assert_eq!(storage().open_item(None).unwrap(), None);
}

#[test]
fn generic_error_carries_text() {
    match PluginStorageError::generic("disk full") {
        PluginStorageError::Generic { err } => assert_eq!(err, "disk full"),
        _ => panic!("expected a generic error"),
    }
    match PluginStorageError::generic(&42) {
        PluginStorageError::Generic { err } => assert_eq!(err, "42"),
        _ => panic!("expected a generic error"),
    }
}

#[test]
fn storage_error_messages() {
    assert_eq!(
        PluginStorageError::DataTooOld.message(),
        "Could not write to storage: value has changed since last read."
    );
    assert_eq!(
        PluginStorageError::Encryption { err: "x".to_string() }.message(),
        "Could not encrypt storage data: x"
    );
    assert_eq!(
        PluginStorageError::Generic { err: "y".to_string() }.message(),
        "Plugin storage operation failed: y"
    );
}

#[test]
fn different_keys_get_different_backend_keys() {
    let s = storage();
    assert_ne!(s.scoped_key("a"), s.scoped_key("b"));
    assert_ne!(s.scoped_key("nostr_zaps"), s.scoped_key("nostr_seckey"));
}

#[test]
fn openable_texts() {
    assert!(breez_nostr::storage::openable_text("zz"));
    assert!(!breez_nostr::storage::openable_text("00"));
    assert!(breez_nostr::storage::openable_text(&"00".repeat(12)));
}
