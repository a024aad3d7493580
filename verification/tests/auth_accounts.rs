use code_credentials::auth_accounts::paths::{
    account_store_paths, clean_config_values, configured_account_store_paths,
};
use code_credentials::auth_accounts::storage::{
    accounts_storage_with_mode, accounts_store_key, write_accounts_file, AccountStorePaths,
    AccountsLocation, AccountsStorage, AccountsStorageBackend, KEYRING_SERVICE,
};
use code_credentials::auth_accounts::{
    find_account, get_active_account_id, list_accounts, match_api_key_account,
    match_chatgpt_account, migrate_accounts_store_mode, new_api_key_account, new_chatgpt_account,
    normalize_email, remove_account, set_active_account_id, set_active_account_id_at,
    upsert_account, upsert_api_key_account, upsert_chatgpt_account, upsert_record, AccountsFile,
    StoredAccount,
};
use code_credentials::config_types::AuthCredentialsStoreMode;
use code_credentials::error::StoreErrorKind;
use code_credentials::media::Access;
use code_credentials::memory::{EphemeralStore, MemoryFiles, MemoryKeyring};
use code_credentials::stores::Stores;
use code_credentials::token_data::{AuthMode, IdTokenInfo, Timestamp, TokenData};

type TestStores = Stores<AccountsFile, MemoryKeyring<AccountsFile>, MemoryFiles<AccountsFile>>;

const CODE_HOME: &str = "/home/user/.code";
const ACCOUNTS_FILE: &str = "/home/user/.code/auth_accounts.json";

fn new_stores() -> TestStores {
    Stores::new(MemoryKeyring::new(), MemoryFiles::new(), EphemeralStore::new())
}

fn location() -> AccountsLocation {
    AccountsLocation {
        code_home: CODE_HOME.to_string(),
        paths: AccountStorePaths {
            read_paths: vec![ACCOUNTS_FILE.to_string()],
            write_path: ACCOUNTS_FILE.to_string(),
        },
        legacy_path: ACCOUNTS_FILE.to_string(),
    }
}

fn file_storage() -> AccountsStorage {
    accounts_storage_with_mode(location(), AuthCredentialsStoreMode::File)
}

fn now() -> Timestamp {
    Timestamp { secs: 1_700_000_000, nanos: 42 }
}

fn make_chatgpt_tokens(account_id: Option<&str>, email: Option<&str>) -> TokenData {
    TokenData {
        id_token: IdTokenInfo {
            email: email.map(std::string::ToString::to_string),
            chatgpt_plan_type: None,
            raw_jwt: format!("header.{}.sig", account_id.unwrap_or("acct")),
        },
        access_token: "access".to_string(),
        refresh_token: "refresh".to_string(),
        account_id: account_id.map(std::string::ToString::to_string),
    }
}

fn write_accounts_store(stores: &mut TestStores, path: &str, accounts: Vec<StoredAccount>) {
    let data = AccountsFile {
        version: 1,
        active_account_id: accounts.first().map(|account| account.id.clone()),
        accounts,
    };
    write_accounts_file(&mut stores.files, path, &data).expect("write accounts store");
}

#[test]
fn uses_configured_account_store_paths() {
    let mut stores = new_stores();
    let custom_store = "/home/user/.code/custom/accounts_store.json";
    let existing = StoredAccount {
        id: "existing-account".to_string(),
        mode: AuthMode::ApiKey,
        label: Some("existing".to_string()),
        openai_api_key: Some("sk-existing".to_string()),
        tokens: None,
        last_refresh: None,
        created_at: Some(now()),
        last_used_at: Some(now()),
    };
    write_accounts_store(&mut stores, custom_store, vec![existing.clone()]);

    let configured = configured_account_store_paths(
        vec![custom_store.to_string()],
        Some(custom_store.to_string()),
        ACCOUNTS_FILE.to_string(),
    );
    let paths = account_store_paths(
        ACCOUNTS_FILE.to_string(),
        ACCOUNTS_FILE.to_string(),
        configured,
    );
    let storage = accounts_storage_with_mode(
        AccountsLocation {
            code_home: CODE_HOME.to_string(),
            paths,
            legacy_path: ACCOUNTS_FILE.to_string(),
        },
        AuthCredentialsStoreMode::File,
    );

    let loaded = list_accounts(&storage, &stores).expect("list configured accounts");
    assert_eq!(loaded.len(), 1);
    assert_eq!(loaded[0].id, existing.id);

    upsert_api_key_account(&storage, &mut stores, "sk-new".to_string(), None, false)
        .expect("upsert to configured path");

    let custom_contents = stores.files.contents(custom_store).expect("read configured store");
    assert!(
        custom_contents
            .accounts
            .iter()
            .any(|account| account.openai_api_key.as_deref() == Some("sk-new")),
        "new account should be written to configured path"
    );
    assert!(
        !stores.files.has_file(ACCOUNTS_FILE),
        "default account store should remain unused when write_path is configured"
    );
}

#[test]
fn upsert_api_key_creates_and_updates() {
    let mut stores = new_stores();
    let storage = file_storage();
    let api_key = "sk-test".to_string();
    let stored = upsert_api_key_account(&storage, &mut stores, api_key.clone(), None, true)
        .expect("upsert api key");

    assert_eq!(stored.mode, AuthMode::ApiKey);
    assert_eq!(stored.openai_api_key.as_deref(), Some("sk-test"));

    let again = upsert_api_key_account(&storage, &mut stores, api_key, None, false)
        .expect("upsert same key");
    assert_eq!(stored.id, again.id);

    let accounts = list_accounts(&storage, &stores).expect("list accounts");
    assert_eq!(accounts.len(), 1);
    assert_eq!(accounts[0].id, stored.id);
}

#[test]
fn upsert_chatgpt_dedupes_by_account_id() {
    let mut stores = new_stores();
    let storage = file_storage();
    let tokens = make_chatgpt_tokens(Some("acct-1"), Some("user@example.com"));
    let stored = upsert_chatgpt_account(&storage, &mut stores, tokens, now(), None, true)
        .expect("insert chatgpt");

    let tokens_updated = make_chatgpt_tokens(Some("acct-1"), Some("user@example.com"));
    let again = upsert_chatgpt_account(&storage, &mut stores, tokens_updated, now(), None, false)
        .expect("update chatgpt");

    assert_eq!(stored.id, again.id);
    let accounts = list_accounts(&storage, &stores).expect("list accounts");
    assert_eq!(accounts.len(), 1);
    assert_eq!(accounts[0].id, stored.id);
}

#[test]
fn chatgpt_accounts_with_same_email_but_different_ids_are_distinct() {
    let mut stores = new_stores();
    let storage = file_storage();

    let personal = make_chatgpt_tokens(Some("acct-personal"), Some("user@example.com"));
    let personal_id = upsert_chatgpt_account(&storage, &mut stores, personal, now(), None, true)
        .expect("insert personal account")
        .id;

    let team = make_chatgpt_tokens(Some("acct-team"), Some("user@example.com"));
    let team_id = upsert_chatgpt_account(&storage, &mut stores, team, now(), None, false)
        .expect("insert team account")
        .id;

    assert_ne!(personal_id, team_id, "accounts with different IDs should not be merged");

    let accounts = list_accounts(&storage, &stores).expect("list accounts");
    assert_eq!(accounts.len(), 2, "both accounts should remain listed");
}

#[test]
fn remove_account_clears_active() {
    let mut stores = new_stores();
    let storage = file_storage();
    let tokens = make_chatgpt_tokens(Some("acct-remove"), Some("user@example.com"));
    let stored = upsert_chatgpt_account(&storage, &mut stores, tokens, now(), None, true)
        .expect("insert chatgpt");

    let active_before = get_active_account_id(&storage, &stores).expect("active id");
    assert_eq!(active_before.as_deref(), Some(stored.id.as_str()));

    let removed = remove_account(&storage, &mut stores, &stored.id).expect("remove");
    assert!(removed.is_some());

    let active_after = get_active_account_id(&storage, &stores).expect("active id");
    assert!(active_after.is_none());
}

#[test]
fn chatgpt_emails_agree_without_regard_to_case_and_blanks() {
    let mut stores = new_stores();
    let storage = file_storage();
    let first = make_chatgpt_tokens(Some("acct-1"), Some("User@Example.com"));
    let stored = upsert_chatgpt_account(&storage, &mut stores, first, now(), None, false).unwrap();
    let second = make_chatgpt_tokens(Some("acct-1"), Some("  user@example.COM "));
    let again = upsert_chatgpt_account(&storage, &mut stores, second, now(), None, false).unwrap();
    assert_eq!(stored.id, again.id);
    assert_eq!(list_accounts(&storage, &stores).unwrap().len(), 1);

    let other = make_chatgpt_tokens(Some("acct-1"), Some("other@example.com"));
    let third = upsert_chatgpt_account(&storage, &mut stores, other, now(), None, false).unwrap();
    assert_ne!(third.id, stored.id);
    assert_eq!(list_accounts(&storage, &stores).unwrap().len(), 2);
}

#[test]
fn chatgpt_sign_in_without_email_or_account_id_is_never_merged() {
    let mut stores = new_stores();
    let storage = file_storage();
    let no_email = make_chatgpt_tokens(Some("acct-1"), None);
    let a = upsert_chatgpt_account(&storage, &mut stores, no_email, now(), None, false).unwrap();
    let no_email = make_chatgpt_tokens(Some("acct-1"), None);
    let b = upsert_chatgpt_account(&storage, &mut stores, no_email, now(), None, false).unwrap();
    assert_ne!(a.id, b.id);
    let no_id = make_chatgpt_tokens(None, Some("user@example.com"));
    let c = upsert_chatgpt_account(&storage, &mut stores, no_id, now(), None, false).unwrap();
    let no_id = make_chatgpt_tokens(None, Some("user@example.com"));
    let d = upsert_chatgpt_account(&storage, &mut stores, no_id, now(), None, false).unwrap();
    assert_ne!(c.id, d.id);
    assert_eq!(list_accounts(&storage, &stores).unwrap().len(), 4);
}

#[test]
fn a_different_api_key_creates_a_second_account() {
    let mut stores = new_stores();
    let storage = file_storage();
    let a = upsert_api_key_account(&storage, &mut stores, "sk-a".to_string(), None, false).unwrap();
    let b = upsert_api_key_account(&storage, &mut stores, "sk-b".to_string(), None, false).unwrap();
    assert_ne!(a.id, b.id);
    let accounts = list_accounts(&storage, &stores).unwrap();
    assert_eq!(accounts.len(), 2);
    assert_eq!(accounts[0].id, a.id);
    assert_eq!(accounts[1].id, b.id);
}

#[test]
fn first_use_stamps_creation_and_last_use_alike() {
    let mut stores = new_stores();
    let storage = file_storage();
    let at = Timestamp { secs: 10, nanos: 7 };
    let record = new_api_key_account("id-1".to_string(), "sk-test".to_string(), None);
    let stored = upsert_record(&storage, &mut stores, record, true, at).unwrap();
    assert_eq!(stored.id, "id-1");
    assert_eq!(stored.created_at, Some(at));
    assert_eq!(stored.last_used_at, Some(at));
    assert_eq!(get_active_account_id(&storage, &stores).unwrap().as_deref(), Some("id-1"));
    assert_eq!(list_accounts(&storage, &stores).unwrap(), vec![stored]);
}

#[test]
fn merge_overwrites_only_what_the_sign_in_brings() {
    let mut stores = new_stores();
    let storage = file_storage();
    let created = Timestamp { secs: 10, nanos: 0 };
    let later = Timestamp { secs: 20, nanos: 0 };
    let first = new_api_key_account(
        "id-1".to_string(),
        "sk-test".to_string(),
        Some("work".to_string()),
    );
    upsert_record(&storage, &mut stores, first, true, created).unwrap();

    let second = new_api_key_account("id-2".to_string(), "sk-test".to_string(), None);
    let merged = upsert_record(&storage, &mut stores, second, false, later).unwrap();
    assert_eq!(merged.id, "id-1");
    assert_eq!(merged.label.as_deref(), Some("work"));
    assert_eq!(merged.created_at, Some(created));
    assert_eq!(merged.last_used_at, Some(created));

    let third = new_api_key_account(
        "id-3".to_string(),
        "sk-test".to_string(),
        Some("home".to_string()),
    );
    let merged = upsert_record(&storage, &mut stores, third, true, later).unwrap();
    assert_eq!(merged.id, "id-1");
    assert_eq!(merged.label.as_deref(), Some("home"));
    assert_eq!(merged.created_at, Some(created));
    assert_eq!(merged.last_used_at, Some(later));
}

#[test]
fn upsert_account_appends_in_order_and_merges_in_place() {
    let data = AccountsFile::default();
    assert_eq!(data.version, 1);
    let at = Timestamp { secs: 1, nanos: 0 };
    let (data, a) = upsert_account(
        data,
        new_api_key_account("a".to_string(), "sk-a".to_string(), None),
        at,
    );
    let tokens = make_chatgpt_tokens(Some("acct"), Some("u@example.com"));
    let (data, b) = upsert_account(
        data,
        new_chatgpt_account("b".to_string(), tokens, at, None),
        at,
    );
    assert_eq!(a.created_at, Some(at));
    assert_eq!(a.last_used_at, None);
    assert_eq!(b.mode, AuthMode::ChatGPT);
    assert_eq!(b.last_refresh, Some(at));
    let (data, again) = upsert_account(
        data,
        new_api_key_account("c".to_string(), "sk-a".to_string(), Some("l".to_string())),
        Timestamp { secs: 2, nanos: 0 },
    );
    assert_eq!(again.id, "a");
    let ids: Vec<&str> = data.accounts.iter().map(|account| account.id.as_str()).collect();
    assert_eq!(ids, vec!["a", "b"]);
    assert_eq!(data.accounts[0], again);
}

#[test]
fn matching_rules_follow_the_mode() {
    let tokens = make_chatgpt_tokens(Some("acct"), Some("u@example.com"));
    let chatgpt = new_chatgpt_account(
        "b".to_string(),
        make_chatgpt_tokens(Some("acct"), Some("U@example.com")),
        now(),
        None,
    );
    let api = new_api_key_account("a".to_string(), "sk-a".to_string(), None);
    assert!(match_chatgpt_account(&chatgpt, &tokens));
    assert!(!match_chatgpt_account(&api, &tokens));
    assert!(match_api_key_account(&api, "sk-a"));
    assert!(!match_api_key_account(&api, "sk-A"));
    assert!(!match_api_key_account(&chatgpt, "sk-a"));
    assert_eq!(normalize_email("  Some.One@Example.COM\t"), "some.one@example.com");
}

#[test]
fn set_active_stores_a_stale_id_without_complaint() {
    let mut stores = new_stores();
    let storage = file_storage();
    let a = upsert_api_key_account(&storage, &mut stores, "sk-a".to_string(), None, false).unwrap();
    assert_eq!(a.last_used_at, None);

    let updated =
        set_active_account_id(&storage, &mut stores, Some("no-such-account".to_string())).unwrap();
    assert_eq!(updated, None);
    assert_eq!(
        get_active_account_id(&storage, &stores).unwrap().as_deref(),
        Some("no-such-account")
    );

    let at = Timestamp { secs: 99, nanos: 1 };
    let updated = set_active_account_id_at(&storage, &mut stores, Some(a.id.clone()), at)
        .unwrap()
        .expect("account exists");
    assert_eq!(updated.id, a.id);
    assert_eq!(updated.last_used_at, Some(at));
    assert_eq!(updated.created_at, a.created_at);
    assert_eq!(find_account(&storage, &stores, &a.id).unwrap(), Some(updated));

    assert_eq!(set_active_account_id(&storage, &mut stores, None).unwrap(), None);
    assert_eq!(get_active_account_id(&storage, &stores).unwrap(), None);
}

#[test]
fn remove_account_leaves_another_active_id_alone_and_is_idempotent() {
    let mut stores = new_stores();
    let storage = file_storage();
    let a = upsert_api_key_account(&storage, &mut stores, "sk-a".to_string(), None, true).unwrap();
    let b = upsert_api_key_account(&storage, &mut stores, "sk-b".to_string(), None, false).unwrap();

    let removed = remove_account(&storage, &mut stores, &b.id).unwrap();
    assert_eq!(removed.map(|account| account.id), Some(b.id.clone()));
    assert_eq!(get_active_account_id(&storage, &stores).unwrap(), Some(a.id.clone()));

    assert_eq!(remove_account(&storage, &mut stores, &b.id).unwrap(), None);
    assert_eq!(list_accounts(&storage, &stores).unwrap().len(), 1);
    assert_eq!(find_account(&storage, &stores, &b.id).unwrap(), None);
}

#[test]
fn remove_account_persists_even_when_nothing_matched() {
    let mut stores = new_stores();
    let storage = file_storage();
    assert!(!stores.files.has_file(ACCOUNTS_FILE));
    assert_eq!(remove_account(&storage, &mut stores, "ghost").unwrap(), None);
    assert!(stores.files.has_file(ACCOUNTS_FILE));
    assert_eq!(stores.files.contents(ACCOUNTS_FILE), Some(AccountsFile::default()));
}

#[test]
fn load_reads_the_first_file_that_is_there() {
    let mut stores = new_stores();
    let second = "/etc/code/auth_accounts.json";
    let storage = accounts_storage_with_mode(
        AccountsLocation {
            code_home: CODE_HOME.to_string(),
            paths: AccountStorePaths {
                read_paths: vec![ACCOUNTS_FILE.to_string(), second.to_string()],
                write_path: ACCOUNTS_FILE.to_string(),
            },
            legacy_path: ACCOUNTS_FILE.to_string(),
        },
        AuthCredentialsStoreMode::File,
    );
    assert_eq!(list_accounts(&storage, &stores).unwrap(), vec![]);

    let account = new_api_key_account("in-second".to_string(), "sk-2".to_string(), None);
    write_accounts_store(&mut stores, second, vec![account]);
    assert_eq!(list_accounts(&storage, &stores).unwrap()[0].id, "in-second");

    let account = new_api_key_account("in-first".to_string(), "sk-1".to_string(), None);
    write_accounts_store(&mut stores, ACCOUNTS_FILE, vec![account]);
    assert_eq!(list_accounts(&storage, &stores).unwrap()[0].id, "in-first");

    stores.files.plant_unreadable(ACCOUNTS_FILE, "broken");
    let error = list_accounts(&storage, &stores).unwrap_err();
    assert_eq!(error.kind, StoreErrorKind::Serialization);
}

#[test]
fn keyring_backend_keeps_the_registry_and_removes_the_file() {
    let mut stores = new_stores();
    let file = file_storage();
    upsert_api_key_account(&file, &mut stores, "sk-a".to_string(), None, true).unwrap();
    assert!(stores.files.has_file(ACCOUNTS_FILE));

    migrate_accounts_store_mode(
        &location(),
        &mut stores,
        AuthCredentialsStoreMode::File,
        AuthCredentialsStoreMode::Keyring,
    )
    .unwrap();
    assert!(!stores.files.has_file(ACCOUNTS_FILE));
    let key = accounts_store_key(CODE_HOME);
    let held = stores.keyring.saved_value(KEYRING_SERVICE, &key).expect("registry in keyring");
    assert_eq!(held.accounts.len(), 1);

    let keyring = accounts_storage_with_mode(location(), AuthCredentialsStoreMode::Keyring);
    assert_eq!(list_accounts(&keyring, &stores).unwrap(), held.accounts);
    assert_eq!(get_active_account_id(&keyring, &stores).unwrap(), held.active_account_id);
}

#[test]
fn migration_between_equal_modes_does_nothing() {
    let mut stores = new_stores();
    stores.keyring.set_error(KEYRING_SERVICE, &accounts_store_key(CODE_HOME), "down");
    assert_eq!(
        migrate_accounts_store_mode(
            &location(),
            &mut stores,
            AuthCredentialsStoreMode::Keyring,
            AuthCredentialsStoreMode::Keyring,
        ),
        Ok(())
    );
    let error = migrate_accounts_store_mode(
        &location(),
        &mut stores,
        AuthCredentialsStoreMode::Keyring,
        AuthCredentialsStoreMode::File,
    )
    .unwrap_err();
    assert_eq!(error.kind, StoreErrorKind::BackendUnavailable);
    assert_eq!(error.message, "failed to load accounts from keyring: down");
}

#[test]
fn auto_backend_falls_back_to_the_file_when_the_keyring_fails() {
    let mut stores = new_stores();
    let key = accounts_store_key(CODE_HOME);
    stores.keyring.set_error_on(Access::Read, KEYRING_SERVICE, &key, "down");
    stores.keyring.set_error_on(Access::Write, KEYRING_SERVICE, &key, "down");
    let auto = accounts_storage_with_mode(location(), AuthCredentialsStoreMode::Auto);
    let stored = upsert_api_key_account(&auto, &mut stores, "sk-a".to_string(), None, true).unwrap();
    assert!(stores.files.has_file(ACCOUNTS_FILE));
    assert_eq!(list_accounts(&auto, &stores).unwrap(), vec![stored]);

    stores.keyring.clear_error(KEYRING_SERVICE, &key);
    upsert_api_key_account(&auto, &mut stores, "sk-b".to_string(), None, false).unwrap();
    assert!(!stores.files.has_file(ACCOUNTS_FILE));
    assert_eq!(list_accounts(&auto, &stores).unwrap().len(), 2);
}

#[test]
fn ephemeral_backend_keeps_the_registry_off_disk() {
    let mut stores = new_stores();
    let ephemeral = accounts_storage_with_mode(location(), AuthCredentialsStoreMode::Ephemeral);
    let stored =
        upsert_api_key_account(&ephemeral, &mut stores, "sk-a".to_string(), None, true).unwrap();
    assert!(!stores.files.has_file(ACCOUNTS_FILE));
    assert_eq!(list_accounts(&ephemeral, &stores).unwrap(), vec![stored]);
    assert_eq!(ephemeral.load(&new_stores()).unwrap(), AccountsFile::default());

    stores.ephemeral.mark_poisoned();
    let error = list_accounts(&ephemeral, &stores).unwrap_err();
    assert_eq!(error.kind, StoreErrorKind::Lock);
    assert_eq!(error.message, "failed to lock ephemeral accounts storage");
}

#[test]
fn default_paths_read_the_write_file_first() {
    let paths = account_store_paths("/r/auth_accounts.json".to_string(), "/legacy/a.json".to_string(), None);
    assert_eq!(paths.write_path, "/r/auth_accounts.json");
    assert_eq!(paths.read_paths, vec!["/r/auth_accounts.json", "/legacy/a.json"]);

    let same = account_store_paths("/r/a.json".to_string(), "/r/a.json".to_string(), None);
    assert_eq!(same.read_paths, vec!["/r/a.json"]);
}

#[test]
fn configured_paths_are_completed_and_deduplicated() {
    assert_eq!(configured_account_store_paths(vec![], None, "/r/a.json".to_string()), None);

    let only_read = configured_account_store_paths(
        vec!["/x/1.json".to_string(), "/x/2.json".to_string(), "/x/1.json".to_string()],
        None,
        "/r/a.json".to_string(),
    );
    let paths = account_store_paths("/r/a.json".to_string(), "/l/a.json".to_string(), only_read);
    assert_eq!(paths.write_path, "/r/a.json");
    assert_eq!(paths.read_paths, vec!["/r/a.json", "/x/1.json", "/x/2.json"]);

    let only_write =
        configured_account_store_paths(vec![], Some("/w/a.json".to_string()), "/r/a.json".to_string());
    let paths = account_store_paths("/r/a.json".to_string(), "/l/a.json".to_string(), only_write);
    assert_eq!(paths.write_path, "/w/a.json");
    assert_eq!(paths.read_paths, vec!["/w/a.json", "/l/a.json"]);

    let write_among_reads = configured_account_store_paths(
        vec!["/x/1.json".to_string(), "/w/a.json".to_string()],
        Some("/w/a.json".to_string()),
        "/r/a.json".to_string(),
    );
    let paths =
        account_store_paths("/r/a.json".to_string(), "/l/a.json".to_string(), write_among_reads);
    assert_eq!(paths.read_paths, vec!["/x/1.json", "/w/a.json"]);
}

#[test]
fn config_values_are_trimmed_and_empty_ones_dropped() {
    let raw = vec![" a.json ".to_string(), "   ".to_string(), String::new(), "b\u{3000}".to_string()];
    assert_eq!(clean_config_values(&raw), vec!["a.json", "b"]);
}
