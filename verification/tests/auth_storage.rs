use code_credentials::auth::storage::{
    compute_store_key, create_auth_storage, AuthPaths, AuthStorage, AuthStorageBackend,
    AutoAuthStorage, EphemeralAuthStorage, FileAuthStorage, KeyringAuthStorage, KEYRING_SERVICE,
};
use code_credentials::auth::AuthDotJson;
use code_credentials::config_types::AuthCredentialsStoreMode;
use code_credentials::error::StoreErrorKind;
use code_credentials::media::{Access, KeyringStore};
use code_credentials::memory::{EphemeralStore, MemoryFiles, MemoryKeyring};
use code_credentials::stores::Stores;
use code_credentials::token_data::{AuthMode, IdTokenInfo, Timestamp, TokenData};

type TestStores = Stores<AuthDotJson, MemoryKeyring<AuthDotJson>, MemoryFiles<AuthDotJson>>;

const CODE_HOME: &str = "/home/user/.code";
const AUTH_FILE: &str = "/home/user/.code/auth.json";

fn new_stores() -> TestStores {
    Stores::new(MemoryKeyring::new(), MemoryFiles::new(), EphemeralStore::new())
}

fn paths() -> AuthPaths {
    AuthPaths {
        code_home: CODE_HOME.to_string(),
        auth_file: AUTH_FILE.to_string(),
        read_file: AUTH_FILE.to_string(),
    }
}

fn api_key_auth(key: &str) -> AuthDotJson {
    AuthDotJson {
        auth_mode: Some(AuthMode::ApiKey),
        openai_api_key: Some(key.to_string()),
        tokens: None,
        last_refresh: Some(Timestamp { secs: 1_700_000_000, nanos: 5 }),
    }
}

fn id_token_with_prefix(prefix: &str) -> IdTokenInfo {
    IdTokenInfo {
        email: Some(format!("{prefix}@example.com")),
        chatgpt_plan_type: None,
        raw_jwt: format!("{prefix}.header.payload"),
    }
}

fn auth_with_prefix(prefix: &str) -> AuthDotJson {
    AuthDotJson {
        auth_mode: Some(AuthMode::ApiKey),
        openai_api_key: Some(format!("{prefix}-api-key")),
        tokens: Some(TokenData {
            id_token: id_token_with_prefix(prefix),
            access_token: format!("{prefix}-access"),
            refresh_token: format!("{prefix}-refresh"),
            account_id: Some(format!("{prefix}-account-id")),
        }),
        last_refresh: None,
    }
}

#[test]
fn file_storage_load_returns_auth_dot_json() {
    let mut stores = new_stores();
    let storage = FileAuthStorage::new(paths());
    let auth_dot_json = api_key_auth("test-key");

    storage.save(&mut stores, &auth_dot_json).unwrap();
    let loaded = storage.load(&stores).unwrap();
    assert_eq!(Some(auth_dot_json), loaded);
}

#[test]
fn ephemeral_storage_save_load_delete_is_in_memory_only() {
    let mut stores = new_stores();
    let storage = create_auth_storage(paths(), AuthCredentialsStoreMode::Ephemeral);
    let auth_dot_json = api_key_auth("sk-ephemeral");

    storage.save(&mut stores, &auth_dot_json).unwrap();
    let loaded = storage.load(&stores).unwrap();
    assert_eq!(Some(auth_dot_json), loaded);

    let removed = storage.delete(&mut stores).unwrap();
    assert!(removed);
    let loaded = storage.load(&stores).unwrap();
    assert_eq!(None, loaded);
    assert!(!stores.files.has_file(AUTH_FILE));
}

#[test]
fn keyring_storage_load_returns_deserialized_auth() {
    let mut stores = new_stores();
    let storage = KeyringAuthStorage::new(paths());
    let expected = auth_with_prefix("load");
    let key = compute_store_key(CODE_HOME);
    stores.keyring.save(KEYRING_SERVICE, &key, &expected).unwrap();

    let loaded = storage.load(&stores).unwrap();
    assert_eq!(Some(expected), loaded);
}

#[test]
fn keyring_storage_save_persists_and_removes_fallback_file() {
    let mut stores = new_stores();
    let storage = create_auth_storage(paths(), AuthCredentialsStoreMode::Keyring);
    let key = compute_store_key(CODE_HOME);
    stores.files.plant_unreadable(AUTH_FILE, "stale");

    let expected = auth_with_prefix("save");
    storage.save(&mut stores, &expected).unwrap();

    let saved_value = stores
        .keyring
        .saved_value(KEYRING_SERVICE, &key)
        .expect("keyring entry should exist");
    assert_eq!(saved_value, expected);
    assert!(!stores.files.has_file(AUTH_FILE), "fallback auth.json should be removed");
    assert_eq!(storage.load(&stores).unwrap(), Some(expected));
}

#[test]
fn auto_storage_load_falls_back_when_keyring_errors() {
    let mut stores = new_stores();
    let key = compute_store_key(CODE_HOME);
    stores.keyring.set_error(KEYRING_SERVICE, &key, "keyring unavailable");

    let storage = AutoAuthStorage::new(paths());
    let expected = auth_with_prefix("file");
    let file_storage = FileAuthStorage::new(paths());
    file_storage.save(&mut stores, &expected).unwrap();

    let loaded = storage.load(&stores).unwrap();
    assert_eq!(Some(expected), loaded);
}

#[test]
fn auto_storage_survives_a_keyring_that_fails_on_load_and_save() {
    let mut stores = new_stores();
    let key = compute_store_key(CODE_HOME);
    stores.keyring.set_error_on(Access::Read, KEYRING_SERVICE, &key, "locked");
    stores.keyring.set_error_on(Access::Write, KEYRING_SERVICE, &key, "locked");

    let storage = create_auth_storage(paths(), AuthCredentialsStoreMode::Auto);
    let auth = AuthDotJson {
        auth_mode: Some(AuthMode::ApiKey),
        openai_api_key: Some("sk-test".to_string()),
        tokens: None,
        last_refresh: None,
    };
    storage.save(&mut stores, &auth).unwrap();
    assert!(stores.files.has_file(AUTH_FILE));
    assert_eq!(stores.keyring.saved_value(KEYRING_SERVICE, &key), None);

    assert_eq!(storage.load(&stores).unwrap(), Some(auth));
    assert_eq!(storage.delete(&mut stores), Ok(true));
    assert_eq!(storage.delete(&mut stores), Ok(false));
    assert_eq!(storage.load(&stores).unwrap(), None);
}

#[test]
fn keyring_storage_reports_a_failing_keyring() {
    let mut stores = new_stores();
    let key = compute_store_key(CODE_HOME);
    stores.keyring.set_error(KEYRING_SERVICE, &key, "no access");
    let storage = KeyringAuthStorage::new(paths());

    let error = storage.load(&stores).unwrap_err();
    assert_eq!(error.kind, StoreErrorKind::BackendUnavailable);
    assert_eq!(error.to_string(), "failed to load CLI auth from keyring: no access");

    let error = storage.save(&mut stores, &api_key_auth("k")).unwrap_err();
    assert_eq!(error.kind, StoreErrorKind::BackendUnavailable);
    assert_eq!(error.message, "failed to save CLI auth to keyring: no access");

    let error = storage.delete(&mut stores).unwrap_err();
    assert_eq!(error.message, "failed to delete auth from keyring: no access");
}

#[test]
fn keyring_storage_reports_an_entry_that_is_no_document() {
    let mut stores = new_stores();
    let key = compute_store_key(CODE_HOME);
    stores.keyring.plant_unreadable(KEYRING_SERVICE, &key, "expected value at line 1");
    let storage = KeyringAuthStorage::new(paths());
    let error = storage.load(&stores).unwrap_err();
    assert_eq!(error.kind, StoreErrorKind::Serialization);
    assert_eq!(
        error.message,
        "failed to deserialize CLI auth from keyring: expected value at line 1"
    );
}

#[test]
fn file_storage_tells_a_missing_file_from_a_broken_one() {
    let mut stores = new_stores();
    let storage = FileAuthStorage::new(paths());
    assert_eq!(storage.load(&stores), Ok(None));

    stores.files.plant_unreadable(AUTH_FILE, "trailing characters");
    let error = storage.load(&stores).unwrap_err();
    assert_eq!(error.kind, StoreErrorKind::Serialization);

    stores.files.set_error_on(Access::Read, AUTH_FILE, "permission denied");
    let error = storage.load(&stores).unwrap_err();
    assert_eq!(error.kind, StoreErrorKind::Io);
    assert_eq!(error.message, "permission denied");
}

#[test]
fn file_storage_delete_covers_the_read_file_too() {
    let mut stores = new_stores();
    let legacy = "/home/user/.codex/auth.json";
    let storage = FileAuthStorage::new(AuthPaths {
        code_home: CODE_HOME.to_string(),
        auth_file: AUTH_FILE.to_string(),
        read_file: legacy.to_string(),
    });
    stores.files.plant_unreadable(legacy, "old");
    assert_eq!(storage.delete(&mut stores), Ok(true));
    assert!(!stores.files.has_file(legacy));
    assert_eq!(storage.delete(&mut stores), Ok(false));
}

#[test]
fn ephemeral_storage_starts_empty_in_a_fresh_store() {
    let mut stores = new_stores();
    let storage = EphemeralAuthStorage::new(paths());
    storage.save(&mut stores, &api_key_auth("sk-1")).unwrap();
    assert!(!stores.files.has_file(AUTH_FILE));

    let fresh = new_stores();
    assert_eq!(storage.load(&fresh), Ok(None));
}

#[test]
fn ephemeral_storage_reports_a_poisoned_store() {
    let mut stores = new_stores();
    stores.ephemeral.mark_poisoned();
    let storage = EphemeralAuthStorage::new(paths());
    let error = storage.load(&stores).unwrap_err();
    assert_eq!(error.kind, StoreErrorKind::Lock);
    assert_eq!(error.message, "failed to lock ephemeral auth storage");
    assert_eq!(storage.save(&mut stores, &api_key_auth("k")).unwrap_err().kind, StoreErrorKind::Lock);
}

#[test]
fn create_auth_storage_selects_the_backend_of_the_mode() {
    assert!(matches!(
        create_auth_storage(paths(), AuthCredentialsStoreMode::File),
        AuthStorage::File(_)
    ));
    assert!(matches!(
        create_auth_storage(paths(), AuthCredentialsStoreMode::Keyring),
        AuthStorage::Keyring(_)
    ));
    assert!(matches!(
        create_auth_storage(paths(), AuthCredentialsStoreMode::Auto),
        AuthStorage::Auto(_)
    ));
    assert!(matches!(
        create_auth_storage(paths(), AuthCredentialsStoreMode::Ephemeral),
        AuthStorage::Ephemeral(_)
    ));
}

#[test]
fn auto_storage_delete_is_not_blocked_by_a_keyring_that_fails() {
    let mut stores = new_stores();
    let key = compute_store_key(CODE_HOME);
    stores.keyring.set_error(KEYRING_SERVICE, &key, "locked");

    let storage = create_auth_storage(paths(), AuthCredentialsStoreMode::Auto);
    let auth = api_key_auth("sk-test");
    storage.save(&mut stores, &auth).unwrap();
    assert!(stores.files.has_file(AUTH_FILE));
    assert_eq!(storage.load(&stores).unwrap(), Some(auth));

    assert_eq!(storage.delete(&mut stores), Ok(true));
    assert!(!stores.files.has_file(AUTH_FILE));
    assert_eq!(storage.delete(&mut stores), Ok(false));

    let keyring_only = create_auth_storage(paths(), AuthCredentialsStoreMode::Keyring);
    let error = keyring_only.delete(&mut stores).unwrap_err();
    assert_eq!(error.kind, StoreErrorKind::BackendUnavailable);
}

#[test]
fn auto_storage_delete_reports_a_file_that_cannot_be_removed() {
    let mut stores = new_stores();
    let storage = create_auth_storage(paths(), AuthCredentialsStoreMode::Auto);
    storage.save(&mut stores, &api_key_auth("sk-test")).unwrap();
    FileAuthStorage::new(paths()).save(&mut stores, &api_key_auth("sk-test")).unwrap();
    stores.files.set_error_on(Access::Remove, AUTH_FILE, "read-only");
    let error = storage.delete(&mut stores).unwrap_err();
    assert_eq!(error.kind, StoreErrorKind::Io);
    assert_eq!(error.message, "read-only");
}

#[test]
fn store_key_is_the_namespace_a_bar_and_sixteen_digits() {
    let key = compute_store_key(CODE_HOME);
    assert_eq!(key.len(), "cli".len() + 17);
    assert_eq!(key, "cli|92388af9d943dc76");
}
