use code_credentials::keyring_keys::{canonical_or_given, store_key_for_code_home};

#[test]
fn store_key_has_prefix_bar_and_sixteen_hex_digits() {
    let key = store_key_for_code_home("cli", "/tmp/code-home");
    assert!(key.starts_with("cli|"));
    let hex = &key["cli|".len()..];
    assert_eq!(hex.len(), 16);
    assert!(hex.chars().all(|c| c.is_ascii_digit() || ('a'..='f').contains(&c)));
}

#[test]
fn store_key_of_the_empty_root_is_the_known_digest() {
    // SHA-256 of the empty input begins e3b0c44298fc1c14.
    assert_eq!(store_key_for_code_home("mcp-oauth", ""), "mcp-oauth|e3b0c44298fc1c14");
}

#[test]
fn store_key_depends_on_namespace_and_root() {
    let key = store_key_for_code_home("cli", "/home/user/.code");
    assert_eq!(key, "cli|92388af9d943dc76");
    assert_eq!(key, store_key_for_code_home("cli", "/home/user/.code"));
    assert_eq!(store_key_for_code_home("cli-accounts", "/home/user/.code"), "cli-accounts|92388af9d943dc76");
    assert_ne!(key, store_key_for_code_home("cli", "/home/user/.code/"));
}

#[test]
fn unresolved_root_is_used_as_given() {
    assert_eq!(canonical_or_given(Some("/real".to_string()), "link".to_string()), "/real");
    assert_eq!(canonical_or_given(None, "link".to_string()), "link");
}
