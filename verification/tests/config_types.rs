use code_credentials::config_types::{
    auth_credentials_store_mode, configured_auth_credentials_store_mode, AuthCredentialsStoreMode,
};

#[test]
fn store_mode_is_read_without_regard_to_case_and_blanks() {
    assert_eq!(
        configured_auth_credentials_store_mode(Some(" KeyRing \n")),
        Some(AuthCredentialsStoreMode::Keyring)
    );
    assert_eq!(
        configured_auth_credentials_store_mode(Some("file")),
        Some(AuthCredentialsStoreMode::File)
    );
    assert_eq!(
        configured_auth_credentials_store_mode(Some("AUTO")),
        Some(AuthCredentialsStoreMode::Auto)
    );
    assert_eq!(
        configured_auth_credentials_store_mode(Some("Ephemeral")),
        Some(AuthCredentialsStoreMode::Ephemeral)
    );
}

#[test]
fn unknown_or_missing_store_mode_gives_the_default() {
    assert_eq!(configured_auth_credentials_store_mode(Some("vault")), None);
    assert_eq!(configured_auth_credentials_store_mode(Some("   ")), None);
    assert_eq!(configured_auth_credentials_store_mode(None), None);
    assert_eq!(auth_credentials_store_mode(Some("vault")), AuthCredentialsStoreMode::File);
    assert_eq!(auth_credentials_store_mode(None), AuthCredentialsStoreMode::File);
    assert_eq!(auth_credentials_store_mode(Some("auto")), AuthCredentialsStoreMode::Auto);
    assert_eq!(AuthCredentialsStoreMode::default(), AuthCredentialsStoreMode::File);
}
