//! The setting that selects the backend of the credential stores.

use crate::text::{same_text, to_ascii_lowercase, to_ascii_lowercase_spec, trim, trim_spec};
use vstd::prelude::*;

verus! {

/// Where credentials are kept.
#[derive(Clone, Copy, Debug, PartialEq, Eq, Structural)]
pub enum AuthCredentialsStoreMode {
    /// In a file under the root directory.
    File,
    /// In the keyring; a failing keyring is an error.
    Keyring,
    /// In the keyring where it works, else in the file.
    Auto,
    /// In memory only, for as long as the process lives.
    Ephemeral,
}

impl Default for AuthCredentialsStoreMode {
    fn default() -> (mode: Self)
        ensures
            mode == AuthCredentialsStoreMode::File,
    {
        AuthCredentialsStoreMode::File
    }
}

/// The mode that a setting's text names: the text is taken without the
/// white space at its ends and without regard to case; any other text names
/// none.
pub open spec fn named_store_mode(raw: Seq<char>) -> Option<AuthCredentialsStoreMode> {
    let name = to_ascii_lowercase_spec(trim_spec(raw));
    if name == "file"@ {
        Some(AuthCredentialsStoreMode::File)
    } else if name == "keyring"@ {
        Some(AuthCredentialsStoreMode::Keyring)
    } else if name == "auto"@ {
        Some(AuthCredentialsStoreMode::Auto)
    } else if name == "ephemeral"@ {
        Some(AuthCredentialsStoreMode::Ephemeral)
    } else {
        None
    }
}

/// The mode that the configuration asks for, if it names one. `raw` is the
/// setting's text, or nothing where the setting is missing or no text.
pub fn configured_auth_credentials_store_mode(raw: Option<&str>) -> (mode: Option<
    AuthCredentialsStoreMode,
>)
    ensures
        mode == match raw {
            Some(text) => named_store_mode(text@),
            None => None,
        },
{
    let text = match raw {
        Some(text) => text,
        None => {
            return None;
        },
    };
    let trimmed = trim(text);
    let name = to_ascii_lowercase(trimmed.as_str());
    if same_text(name.as_str(), "file") {
        Some(AuthCredentialsStoreMode::File)
    } else if same_text(name.as_str(), "keyring") {
        Some(AuthCredentialsStoreMode::Keyring)
    } else if same_text(name.as_str(), "auto") {
        Some(AuthCredentialsStoreMode::Auto)
    } else if same_text(name.as_str(), "ephemeral") {
        Some(AuthCredentialsStoreMode::Ephemeral)
    } else {
        None
    }
}

/// The mode in force: the configured one, or the file where the
/// configuration names none.
pub fn auth_credentials_store_mode(raw: Option<&str>) -> (mode: AuthCredentialsStoreMode)
    ensures
        mode == match raw {
            Some(text) => match named_store_mode(text@) {
                Some(named) => named,
                None => AuthCredentialsStoreMode::File,
            },
            None => AuthCredentialsStoreMode::File,
        },
{
    match configured_auth_credentials_store_mode(raw) {
        Some(mode) => mode,
        None => AuthCredentialsStoreMode::default(),
    }
}

} // verus!
