//! Credential and account storage for a command-line agent.
//!
//! - `keyring_keys` derives storage keys from the root directory.
//! - `media` says what a keyring and a directory of files are to the stores;
//!   `memory` holds media that live in memory.
//! - `auth` is the primary credential store, with its four backends.
//! - `auth_accounts` is the account registry: the rules by which a sign-in
//!   is merged into an account, and the backends that keep the registry.
//! - `oauth` stores the OAuth tokens of tool servers and decides when they
//!   are stored again and refreshed.
//! - `command_canonicalization` brings commands into the form in which
//!   approvals are remembered for them.
//!
//! Every operation says what it returns and what the media hold afterwards,
//! as a function of what the media held before; what holds of sequences of
//! operations is proved from that.

pub mod auth;
pub mod auth_accounts;
pub mod command_canonicalization;
pub mod config_types;
pub mod error;
pub mod keyring_keys;
pub mod media;
pub mod memory;
pub mod oauth;
pub mod search;
pub mod stores;
pub mod text;
pub mod token_data;
