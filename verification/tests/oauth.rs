use code_credentials::error::StoreErrorKind;
use code_credentials::media::{Access, FileStore, KeyringStore};
use code_credentials::memory::{MemoryFiles, MemoryKeyring};
use code_credentials::oauth::persist::{OAuthPersistor, PersistAction, RefreshAction};
use code_credentials::oauth::store::{
    compute_keyring_account, compute_store_key, delete_oauth_tokens,
    delete_oauth_tokens_from_keyring_and_file, has_oauth_tokens, load_oauth_tokens_at,
    load_oauth_tokens_from_keyring, load_oauth_tokens_from_keyring_with_fallback_to_file,
    read_fallback_file, save_oauth_tokens, save_oauth_tokens_at, save_oauth_tokens_to_file,
    save_oauth_tokens_with_keyring_with_fallback_to_file, FallbackFile, FallbackSlot,
    FallbackTokenEntry, OAuthHome, OAuthStores, KEYRING_SERVICE,
};
use code_credentials::oauth::{
    compute_expires_at_millis_at, expires_in_from_timestamp_at, saturate_millis,
    token_needs_refresh,
    token_needs_refresh_at, OAuthCredentialsStoreMode, OAuthTokenResponse, StoredOAuthTokens,
    TokenType, WrappedOAuthTokenResponse,
};

type TestStores = OAuthStores<MemoryKeyring<StoredOAuthTokens>, MemoryFiles<FallbackFile>>;

const CODE_HOME: &str = "/home/user/.code";
const FALLBACK: &str = "/home/user/.code/.credentials.json";
const NOW: u64 = 1_700_000_000_000;

fn new_stores() -> TestStores {
    OAuthStores::new(MemoryKeyring::new(), MemoryFiles::new())
}

fn home() -> OAuthHome {
    OAuthHome { code_home: CODE_HOME.to_string(), fallback_file: FALLBACK.to_string() }
}

fn sample_response() -> OAuthTokenResponse {
    let mut response = OAuthTokenResponse::new("access".to_string(), TokenType::Bearer);
    response.set_refresh_token(Some("refresh".to_string()));
    response.set_scopes(Some(vec!["scope".to_string()]));
    response
}

fn sample_tokens() -> StoredOAuthTokens {
    StoredOAuthTokens {
        server_name: "server".to_string(),
        url: "https://example.com/mcp".to_string(),
        client_id: "client".to_string(),
        token_response: WrappedOAuthTokenResponse(sample_response()),
        expires_at: None,
    }
}

fn assert_tokens_match_without_expiry(loaded: &StoredOAuthTokens, expected: &StoredOAuthTokens) {
    assert_eq!(loaded.server_name, expected.server_name);
    assert_eq!(loaded.url, expected.url);
    assert_eq!(loaded.client_id, expected.client_id);
    assert_eq!(loaded.token_response.0.access_token, expected.token_response.0.access_token);
    assert_eq!(loaded.token_response.0.refresh_token, expected.token_response.0.refresh_token);
}

#[test]
fn load_oauth_tokens_reads_from_keyring_when_available() {
    let mut stores = new_stores();
    let tokens = sample_tokens();
    let expected = tokens.clone();
    let key = compute_keyring_account(CODE_HOME, &tokens.server_name, &tokens.url).unwrap();
    stores.keyring.save(KEYRING_SERVICE, &key, &tokens).unwrap();

    let loaded =
        load_oauth_tokens_from_keyring(&stores.keyring, &home(), &tokens.server_name, &tokens.url, NOW)
            .unwrap()
            .expect("tokens should load from keyring");
    assert_tokens_match_without_expiry(&loaded, &expected);
}

#[test]
fn load_oauth_tokens_falls_back_when_missing_in_keyring() {
    let mut stores = new_stores();
    let tokens = sample_tokens();
    let expected = tokens.clone();

    save_oauth_tokens_to_file(&mut stores, &home(), &tokens, NOW).unwrap();

    let loaded = load_oauth_tokens_from_keyring_with_fallback_to_file(
        &stores,
        &home(),
        &tokens.server_name,
        &tokens.url,
        NOW,
    )
    .unwrap()
    .expect("tokens should load from fallback");
    assert_tokens_match_without_expiry(&loaded, &expected);
}

#[test]
fn load_oauth_tokens_falls_back_when_keyring_errors() {
    let mut stores = new_stores();
    let tokens = sample_tokens();
    let expected = tokens.clone();
    let key = compute_keyring_account(CODE_HOME, &tokens.server_name, &tokens.url).unwrap();
    stores.keyring.set_error_on(Access::Read, KEYRING_SERVICE, &key, "error: load");

    save_oauth_tokens_to_file(&mut stores, &home(), &tokens, NOW).unwrap();

    let loaded = load_oauth_tokens_from_keyring_with_fallback_to_file(
        &stores,
        &home(),
        &tokens.server_name,
        &tokens.url,
        NOW,
    )
    .unwrap()
    .expect("tokens should load from fallback");
    assert_tokens_match_without_expiry(&loaded, &expected);
}

#[test]
fn save_oauth_tokens_prefers_keyring_when_available() {
    let mut stores = new_stores();
    let tokens = sample_tokens();
    let key = compute_keyring_account(CODE_HOME, &tokens.server_name, &tokens.url).unwrap();

    save_oauth_tokens_to_file(&mut stores, &home(), &tokens, NOW).unwrap();

    save_oauth_tokens_with_keyring_with_fallback_to_file(
        &mut stores,
        &home(),
        &tokens.server_name,
        &tokens,
        NOW,
    )
    .unwrap();

    assert!(!stores.files.has_file(FALLBACK), "fallback file should be removed");
    let stored = stores.keyring.saved_value(KEYRING_SERVICE, &key).expect("value saved to keyring");
    assert_eq!(stored, tokens);
}

#[test]
fn save_oauth_tokens_writes_fallback_when_keyring_fails() {
    let mut stores = new_stores();
    let tokens = sample_tokens();
    let key = compute_keyring_account(CODE_HOME, &tokens.server_name, &tokens.url).unwrap();
    stores.keyring.set_error_on(Access::Write, KEYRING_SERVICE, &key, "error: save");

    save_oauth_tokens_with_keyring_with_fallback_to_file(
        &mut stores,
        &home(),
        &tokens.server_name,
        &tokens,
        NOW,
    )
    .unwrap();

    assert!(stores.files.has_file(FALLBACK), "fallback file should be created");
    let saved = read_fallback_file(&stores.files, FALLBACK)
        .unwrap()
        .expect("fallback file should load");
    let file_key = compute_store_key(&tokens.server_name, &tokens.url).unwrap();
    let entry = saved.get(&file_key).expect("entry for key");
    assert_eq!(saved.slots().len(), 1);
    assert_eq!(saved.slots()[0].key, file_key);
    assert_eq!(entry.server_name, tokens.server_name);
    assert_eq!(entry.server_url, tokens.url);
    assert_eq!(entry.client_id, tokens.client_id);
    assert_eq!(entry.access_token, tokens.token_response.0.access_token);
    assert!(stores.keyring.saved_value(KEYRING_SERVICE, &key).is_none());
}

#[test]
fn delete_oauth_tokens_removes_all_storage() {
    let mut stores = new_stores();
    let tokens = sample_tokens();
    let keyring_key = compute_keyring_account(CODE_HOME, &tokens.server_name, &tokens.url).unwrap();
    stores.keyring.save(KEYRING_SERVICE, &keyring_key, &tokens).unwrap();
    save_oauth_tokens_to_file(&mut stores, &home(), &tokens, NOW).unwrap();

    let removed = delete_oauth_tokens_from_keyring_and_file(
        &mut stores,
        &home(),
        OAuthCredentialsStoreMode::Auto,
        &tokens.server_name,
        &tokens.url,
    )
    .unwrap();
    assert!(removed);
    assert!(!stores.files.has_file(FALLBACK));
    assert!(stores.keyring.saved_value(KEYRING_SERVICE, &keyring_key).is_none());
}

#[test]
fn store_key_is_the_server_name_and_a_digest_prefix_of_the_descriptor() {
    // SHA-256 of {"headers":{},"type":"http","url":"https://example.com/mcp"}
    let key = compute_store_key("server", "https://example.com/mcp").unwrap();
    assert_eq!(key, "server|6fe6427c8c9125c8");
    let other = compute_store_key("server", "https://example.com/other").unwrap();
    assert_ne!(key, other);
    let account = compute_keyring_account(CODE_HOME, "server", "https://example.com/mcp").unwrap();
    assert_eq!(account, "mcp-oauth|92388af9d943dc76|server|6fe6427c8c9125c8");
}

#[test]
fn expiry_is_reckoned_in_whole_seconds() {
    assert_eq!(expires_in_from_timestamp_at(NOW + 60_000, NOW), Some(60));
    assert_eq!(expires_in_from_timestamp_at(NOW + 60_000, NOW + 1), Some(59));
    assert_eq!(expires_in_from_timestamp_at(NOW + 60_000, NOW + 59_001), Some(0));
    assert_eq!(expires_in_from_timestamp_at(NOW + 60_000, NOW + 60_000), None);
    assert_eq!(expires_in_from_timestamp_at(NOW, NOW + 1), None);

    let mut response = sample_response();
    assert_eq!(compute_expires_at_millis_at(&response, NOW), None);
    response.set_expires_in(Some(3600));
    assert_eq!(compute_expires_at_millis_at(&response, NOW), Some(NOW + 3_600_000));
    response.set_expires_in(Some(u64::MAX / 1000));
    assert_eq!(compute_expires_at_millis_at(&response, NOW), Some(u64::MAX));
    response.set_expires_in(Some(u64::MAX));
    assert_eq!(compute_expires_at_millis_at(&response, NOW), None);
}

#[test]
fn refresh_is_due_from_thirty_seconds_before_expiry() {
    assert!(!token_needs_refresh_at(None, NOW));
    assert!(!token_needs_refresh(None));
    assert!(!token_needs_refresh_at(Some(NOW + 30_001), NOW));
    assert!(token_needs_refresh_at(Some(NOW + 30_000), NOW));
    assert!(token_needs_refresh_at(Some(NOW), NOW));
    assert!(token_needs_refresh_at(Some(NOW - 1), NOW));
    assert!(token_needs_refresh_at(Some(u64::MAX), u64::MAX - 5));
    assert!(token_needs_refresh(Some(0)));
    assert!(!token_needs_refresh(Some(u64::MAX)));
}

#[test]
fn stored_expiry_gives_a_lifetime_that_runs_down() {
    let mut stores = new_stores();
    let mut tokens = sample_tokens();
    tokens.expires_at = Some(NOW + 60_000);
    for mode in [OAuthCredentialsStoreMode::File, OAuthCredentialsStoreMode::Keyring] {
        save_oauth_tokens_at(&mut stores, &home(), "server", &tokens, mode, NOW).unwrap();
        let at = |now: u64| {
            load_oauth_tokens_at(&stores, &home(), "server", &tokens.url, mode, now)
                .unwrap()
                .expect("stored")
        };
        assert_eq!(at(NOW).token_response.0.expires_in, Some(60));
        assert_eq!(at(NOW + 10_500).token_response.0.expires_in, Some(49));
        assert_eq!(at(NOW + 60_000).token_response.0.expires_in, None);
        assert_eq!(at(NOW + 60_000).expires_at, Some(NOW + 60_000));
    }
}

#[test]
fn file_entry_takes_its_expiry_from_the_declared_lifetime() {
    let mut stores = new_stores();
    let mut tokens = sample_tokens();
    tokens.token_response.0.set_expires_in(Some(120));
    save_oauth_tokens_at(&mut stores, &home(), "server", &tokens, OAuthCredentialsStoreMode::File, NOW)
        .unwrap();
    let loaded = load_oauth_tokens_at(
        &stores,
        &home(),
        "server",
        &tokens.url,
        OAuthCredentialsStoreMode::File,
        NOW + 20_000,
    )
    .unwrap()
    .unwrap();
    assert_eq!(loaded.expires_at, Some(NOW + 120_000));
    assert_eq!(loaded.token_response.0.expires_in, Some(100));
    assert_eq!(loaded.token_response.0.scopes, Some(vec!["scope".to_string()]));
    assert_eq!(loaded.token_response.0.token_type, TokenType::Bearer);
}

#[test]
fn credentials_file_is_removed_with_its_last_entry() {
    let mut stores = new_stores();
    let first = sample_tokens();
    let mut second = sample_tokens();
    second.server_name = "other".to_string();
    second.url = "https://other.example/mcp".to_string();
    let file = OAuthCredentialsStoreMode::File;
    save_oauth_tokens(&mut stores, &home(), "server", &first, file).unwrap();
    save_oauth_tokens(&mut stores, &home(), "other", &second, file).unwrap();
    assert_eq!(stores.files.contents(FALLBACK).unwrap().len(), 2);
    save_oauth_tokens(&mut stores, &home(), "server", &first, file).unwrap();
    assert_eq!(stores.files.contents(FALLBACK).unwrap().len(), 2);

    assert_eq!(delete_oauth_tokens(&mut stores, &home(), "server", &first.url, file), Ok(true));
    assert!(stores.files.has_file(FALLBACK));
    assert_eq!(has_oauth_tokens(&stores, &home(), "server", &first.url, file), Ok(false));
    assert_eq!(has_oauth_tokens(&stores, &home(), "other", &second.url, file), Ok(true));
    assert_eq!(delete_oauth_tokens(&mut stores, &home(), "server", &first.url, file), Ok(false));
    assert_eq!(delete_oauth_tokens(&mut stores, &home(), "other", &second.url, file), Ok(true));
    assert!(!stores.files.has_file(FALLBACK));
}

#[test]
fn keyring_mode_reports_a_failing_keyring() {
    let mut stores = new_stores();
    let tokens = sample_tokens();
    let key = compute_keyring_account(CODE_HOME, "server", &tokens.url).unwrap();
    stores.keyring.set_error(KEYRING_SERVICE, &key, "locked");
    let keyring = OAuthCredentialsStoreMode::Keyring;

    let error = save_oauth_tokens(&mut stores, &home(), "server", &tokens, keyring).unwrap_err();
    assert_eq!(error.kind, StoreErrorKind::BackendUnavailable);
    assert_eq!(error.message, "failed to write OAuth tokens to keyring: locked");
    assert!(!stores.files.has_file(FALLBACK));

    let error =
        load_oauth_tokens_at(&stores, &home(), "server", &tokens.url, keyring, NOW).unwrap_err();
    assert_eq!(error.message, "failed to read OAuth tokens from keyring: locked");

    let error = delete_oauth_tokens(&mut stores, &home(), "server", &tokens.url, keyring).unwrap_err();
    assert_eq!(error.message, "failed to delete OAuth tokens from keyring: locked");
    assert_eq!(
        delete_oauth_tokens(&mut stores, &home(), "server", &tokens.url, OAuthCredentialsStoreMode::Auto),
        Ok(false)
    );
    assert_eq!(
        delete_oauth_tokens(&mut stores, &home(), "server", &tokens.url, OAuthCredentialsStoreMode::File),
        Ok(false)
    );
}

#[test]
fn broken_credentials_file_is_an_error() {
    let mut stores = new_stores();
    stores.files.plant_unreadable(FALLBACK, "expected value");
    let error = load_oauth_tokens_at(
        &stores,
        &home(),
        "server",
        "https://example.com/mcp",
        OAuthCredentialsStoreMode::File,
        NOW,
    )
    .unwrap_err();
    assert_eq!(error.kind, StoreErrorKind::Serialization);
    assert_eq!(
        error.message,
        format!("failed to parse credentials file at {FALLBACK}: expected value")
    );
    assert!(stores.files.write(FALLBACK, &FallbackFile::default()).is_ok());
}

#[test]
fn persistor_saves_only_what_changed() {
    let mut stores = new_stores();
    let mode = OAuthCredentialsStoreMode::File;
    let mut persistor = OAuthPersistor::new(
        home(),
        "server".to_string(),
        "https://example.com/mcp".to_string(),
        mode,
        None,
    );
    assert_eq!(persistor.persist_decision("client".to_string(), None, NOW), PersistAction::Nothing);

    let mut response = sample_response();
    response.set_expires_in(Some(3600));
    persistor
        .persist_if_needed_at(&mut stores, "client".to_string(), Some(response.clone()), NOW)
        .unwrap();
    let stored = persistor.last_credentials().expect("stored");
    assert_eq!(stored.expires_at, Some(NOW + 3_600_000));
    assert_eq!(stored.client_id, "client");
    assert!(stores.files.has_file(FALLBACK));

    // The same answer later keeps the time of expiry and writes nothing.
    assert_eq!(
        persistor.persist_decision("client".to_string(), Some(response.clone()), NOW + 5_000),
        PersistAction::Nothing
    );
    stores.files.set_error_on(Access::Write, FALLBACK, "read-only");
    persistor
        .persist_if_needed_at(&mut stores, "client".to_string(), Some(response.clone()), NOW + 5_000)
        .unwrap();
    assert_eq!(persistor.last_expires_at(), Some(NOW + 3_600_000));

    // A changed answer is saved; a failing save is reported and forgotten.
    let mut renewed = response.clone();
    renewed.access_token = "access-2".to_string();
    let error = persistor
        .persist_if_needed_at(&mut stores, "client".to_string(), Some(renewed), NOW + 6_000)
        .unwrap_err();
    assert_eq!(error.kind, StoreErrorKind::Io);
    assert_eq!(persistor.last_credentials(), Some(stored));
}

#[test]
fn persistor_deletes_when_the_manager_holds_nothing() {
    let mut stores = new_stores();
    let mode = OAuthCredentialsStoreMode::Auto;
    let tokens = sample_tokens();
    save_oauth_tokens_at(&mut stores, &home(), "server", &tokens, mode, NOW).unwrap();
    let mut persistor = OAuthPersistor::new(
        home(),
        "server".to_string(),
        tokens.url.clone(),
        mode,
        Some(tokens.clone()),
    );
    assert_eq!(persistor.persist_decision("client".to_string(), None, NOW), PersistAction::Delete);
    persistor.persist_if_needed_at(&mut stores, "client".to_string(), None, NOW).unwrap();
    assert_eq!(persistor.last_credentials(), None);
    assert_eq!(has_oauth_tokens(&stores, &home(), "server", &tokens.url, mode), Ok(false));
    assert_eq!(persistor.persist_decision("client".to_string(), None, NOW), PersistAction::Nothing);
}

#[test]
fn persistor_refreshes_once_within_the_lead() {
    let mut stores = new_stores();
    let mode = OAuthCredentialsStoreMode::File;
    let mut tokens = sample_tokens();
    tokens.expires_at = Some(NOW + 60_000);
    let mut persistor =
        OAuthPersistor::new(home(), "server".to_string(), tokens.url.clone(), mode, Some(tokens));
    assert_eq!(persistor.refresh_if_needed_at(NOW), RefreshAction::Nothing);
    assert_eq!(persistor.refresh_if_needed_at(NOW + 29_999), RefreshAction::Nothing);
    assert_eq!(persistor.refresh_if_needed_at(NOW + 30_000), RefreshAction::Refresh);
    assert_eq!(persistor.refresh_if_needed_at(NOW + 90_000), RefreshAction::Refresh);

    let mut renewed = sample_response();
    renewed.access_token = "access-2".to_string();
    renewed.set_expires_in(Some(3600));
    persistor
        .persist_if_needed_at(&mut stores, "client".to_string(), Some(renewed), NOW + 30_000)
        .unwrap();
    assert_eq!(persistor.refresh_if_needed_at(NOW + 30_000), RefreshAction::Nothing);

    let error = persistor.refresh_failed("timeout");
    assert_eq!(error.message, "failed to refresh OAuth tokens for server server: timeout");

    let without_expiry =
        OAuthPersistor::new(home(), "server".to_string(), "u".to_string(), mode, Some(sample_tokens()));
    assert_eq!(without_expiry.refresh_if_needed_at(u64::MAX), RefreshAction::Nothing);
    assert_eq!(without_expiry.refresh_if_needed(), RefreshAction::Nothing);
}

#[test]
fn store_mode_defaults_to_auto() {
    assert_eq!(OAuthCredentialsStoreMode::default(), OAuthCredentialsStoreMode::Auto);
}

#[test]
fn clock_readings_beyond_the_largest_time_are_held_at_it() {
    assert_eq!(saturate_millis(0), 0);
    assert_eq!(saturate_millis(1_700_000_000_123), 1_700_000_000_123);
    assert_eq!(saturate_millis(u64::MAX as u128), u64::MAX);
    assert_eq!(saturate_millis(u64::MAX as u128 + 1), u64::MAX);
    assert_eq!(saturate_millis(u128::MAX), u64::MAX);
}

#[test]
fn auto_mode_deletes_the_file_entry_though_the_keyring_fails() {
    let mut stores = new_stores();
    let tokens = sample_tokens();
    let auto = OAuthCredentialsStoreMode::Auto;
    let key = compute_keyring_account(CODE_HOME, "server", &tokens.url).unwrap();
    stores.keyring.set_error(KEYRING_SERVICE, &key, "locked");
    save_oauth_tokens(&mut stores, &home(), "server", &tokens, auto).unwrap();
    assert!(stores.files.has_file(FALLBACK));

    assert_eq!(delete_oauth_tokens(&mut stores, &home(), "server", &tokens.url, auto), Ok(true));
    assert!(!stores.files.has_file(FALLBACK));
    assert_eq!(delete_oauth_tokens(&mut stores, &home(), "server", &tokens.url, auto), Ok(false));
}

fn entry_for(server: &str, token: &str) -> FallbackTokenEntry {
    FallbackTokenEntry {
        server_name: server.to_string(),
        server_url: "https://example.com/mcp".to_string(),
        client_id: "client".to_string(),
        access_token: token.to_string(),
        expires_at: None,
        refresh_token: None,
        scopes: vec![],
    }
}

#[test]
fn credentials_file_holds_one_entry_for_each_key() {
    let slots = vec![
        FallbackSlot { key: "a".to_string(), entry: entry_for("a", "first") },
        FallbackSlot { key: "b".to_string(), entry: entry_for("b", "other") },
        FallbackSlot { key: "a".to_string(), entry: entry_for("a", "second") },
    ];
    let mut file = FallbackFile::from_slots(&slots);
    assert_eq!(file.len(), 2);
    assert_eq!(file.slots()[0].key, "a");
    assert_eq!(file.get("a").unwrap().access_token, "second");
    assert_eq!(file.get("b").unwrap().access_token, "other");
    assert_eq!(file.get("c"), None);

    file.insert("b".to_string(), entry_for("b", "third"));
    assert_eq!(file.len(), 2);
    assert_eq!(file.get("b").unwrap().access_token, "third");
    assert!(file.remove("a"));
    assert!(!file.remove("a"));
    assert!(!file.is_empty());
    assert!(file.remove("b"));
    assert!(file.is_empty());
    assert_eq!(file, FallbackFile::default());
}
