//! The account registry: the accounts that were signed in, one of which
//! may be active, with the rules by which a sign-in is merged into an
//! account that is already known.

use crate::auth_accounts::storage::{
    accounts_storage_with_mode, AccountsLocation, AccountsStorageBackend, AccountsWorld,
};
use crate::config_types::AuthCredentialsStoreMode;
use crate::error::{StoreError, StoreErrorView};
use crate::media::{Document, FileStore, KeyringStore};
use crate::stores::Stores;
use crate::search::{lemma_position_is, lemma_position_none, position};
use crate::text::{to_ascii_lowercase, to_ascii_lowercase_spec, trim, trim_spec};
use crate::token_data::{AuthMode, Timestamp, TokenData, TokenDataView};
use vstd::prelude::*;

pub mod laws;
pub mod paths;
pub mod storage;

verus! {

/// One account of the registry.
#[derive(Debug, PartialEq, Eq)]
pub struct StoredAccount {
    /// The account's name in the registry; given once and never changed.
    pub id: String,
    pub mode: AuthMode,
    pub label: Option<String>,
    pub openai_api_key: Option<String>,
    pub tokens: Option<TokenData>,
    pub last_refresh: Option<Timestamp>,
    pub created_at: Option<Timestamp>,
    pub last_used_at: Option<Timestamp>,
}

pub struct StoredAccountView {
    pub id: Seq<char>,
    pub mode: AuthMode,
    pub label: Option<Seq<char>>,
    pub openai_api_key: Option<Seq<char>>,
    pub tokens: Option<TokenDataView>,
    pub last_refresh: Option<Timestamp>,
    pub created_at: Option<Timestamp>,
    pub last_used_at: Option<Timestamp>,
}

impl DeepView for StoredAccount {
    type V = StoredAccountView;

    open spec fn deep_view(&self) -> StoredAccountView {
        StoredAccountView {
            id: self.id.deep_view(),
            mode: self.mode,
            label: self.label.deep_view(),
            openai_api_key: self.openai_api_key.deep_view(),
            tokens: self.tokens.deep_view(),
            last_refresh: self.last_refresh,
            created_at: self.created_at,
            last_used_at: self.last_used_at,
        }
    }
}

impl View for StoredAccount {
    type V = StoredAccountView;

    open spec fn view(&self) -> StoredAccountView {
        self.deep_view()
    }
}

impl Clone for StoredAccount {
    fn clone(&self) -> (copy: Self)
        ensures
            copy@ == self@,
    {
        StoredAccount {
            id: self.id.clone(),
            mode: self.mode,
            label: self.label.clone(),
            openai_api_key: self.openai_api_key.clone(),
            tokens: self.tokens.clone(),
            last_refresh: self.last_refresh,
            created_at: self.created_at,
            last_used_at: self.last_used_at,
        }
    }
}

/// The registry as it is stored: the accounts in the order in which they
/// were added, and the name of the active one.
#[derive(Debug, PartialEq, Eq)]
pub struct AccountsFile {
    pub version: u32,
    pub active_account_id: Option<String>,
    pub accounts: Vec<StoredAccount>,
}

pub struct AccountsFileView {
    pub version: u32,
    pub active_account_id: Option<Seq<char>>,
    pub accounts: Seq<StoredAccountView>,
}

impl DeepView for AccountsFile {
    type V = AccountsFileView;

    open spec fn deep_view(&self) -> AccountsFileView {
        AccountsFileView {
            version: self.version,
            active_account_id: self.active_account_id.deep_view(),
            accounts: self.accounts.deep_view(),
        }
    }
}

impl View for AccountsFile {
    type V = AccountsFileView;

    open spec fn view(&self) -> AccountsFileView {
        self.deep_view()
    }
}

/// A copy of the accounts.
pub fn clone_accounts(accounts: &Vec<StoredAccount>) -> (copy: Vec<StoredAccount>)
    ensures
        copy.deep_view() == accounts.deep_view(),
{
    let mut copy: Vec<StoredAccount> = Vec::new();
    let mut i: usize = 0;
    while i < accounts.len()
        invariant
            i <= accounts@.len(),
            copy@.len() == i,
            forall|j: int| 0 <= j < i ==> (#[trigger] copy@[j])@ == accounts@[j]@,
        decreases accounts@.len() - i,
    {
        copy.push(accounts[i].clone());
        i = i + 1;
    }
    assert(copy.deep_view() =~= accounts.deep_view());
    copy
}

impl Clone for AccountsFile {
    fn clone(&self) -> (copy: Self)
        ensures
            copy@ == self@,
    {
        AccountsFile {
            version: self.version,
            active_account_id: self.active_account_id.clone(),
            accounts: clone_accounts(&self.accounts),
        }
    }
}

impl Document for AccountsFile {
    fn duplicate(&self) -> (copy: Self) {
        self.clone()
    }
}

/// The version of the stored form.
pub fn default_version() -> (version: u32)
    ensures
        version == 1,
{
    1
}

/// The registry that holds no account.
pub open spec fn empty_accounts_file() -> AccountsFileView {
    AccountsFileView { version: 1, active_account_id: None, accounts: Seq::empty() }
}

impl Default for AccountsFile {
    fn default() -> (file: Self)
        ensures
            file@ == empty_accounts_file(),
    {
        let file = AccountsFile {
            version: default_version(),
            active_account_id: None,
            accounts: Vec::new(),
        };
        assert(file@.accounts =~= Seq::empty());
        file
    }
}

impl AccountsFileView {
    /// No two accounts have the same name.
    pub open spec fn ids_unique(self) -> bool {
        forall|i: int, j: int|
            0 <= i < j < self.accounts.len() ==> (#[trigger] self.accounts[i]).id != (
            #[trigger] self.accounts[j]).id
    }

    /// Whether an account has the name.
    pub open spec fn has_id(self, id: Seq<char>) -> bool {
        exists|i: int| 0 <= i < self.accounts.len() && (#[trigger] self.accounts[i]).id == id
    }

    /// The active account: the one that the active name refers to. A name
    /// that refers to no account means that none is active.
    pub open spec fn active_account(self) -> Option<StoredAccountView> {
        match self.active_account_id {
            Some(id) => match position(self.accounts, with_id(id)) {
                Some(i) => Some(self.accounts[i]),
                None => None,
            },
            None => None,
        }
    }
}

/// The property of having the name `id`.
pub open spec fn with_id(id: Seq<char>) -> spec_fn(StoredAccountView) -> bool {
    |account: StoredAccountView| account.id == id
}

// ---------------------------------------------------------------------
// Which account a sign-in belongs to
// ---------------------------------------------------------------------

/// An e-mail address without the white space at its ends and in lower case.
pub open spec fn normalize_email_spec(email: Seq<char>) -> Seq<char> {
    to_ascii_lowercase_spec(trim_spec(email))
}

pub fn normalize_email(email: &str) -> (normalized: String)
    ensures
        normalized@ == normalize_email_spec(email@),
{
    let trimmed = trim(email);
    to_ascii_lowercase(trimmed.as_str())
}

/// Whether both are present and the same.
pub open spec fn both_equal(a: Option<Seq<char>>, b: Option<Seq<char>>) -> bool {
    match (a, b) {
        (Some(x), Some(y)) => x == y,
        _ => false,
    }
}

/// Whether both addresses are present and the same but for case and the
/// white space at their ends.
pub open spec fn emails_agree(a: Option<Seq<char>>, b: Option<Seq<char>>) -> bool {
    match (a, b) {
        (Some(x), Some(y)) => normalize_email_spec(x) == normalize_email_spec(y),
        _ => false,
    }
}

/// Whether a ChatGPT sign-in with these tokens belongs to the account: the
/// account is of the ChatGPT family, both have an account id and the ids are
/// the same, and both have an e-mail address and the addresses agree. Where
/// anything is missing the sign-in does not belong to the account.
pub open spec fn chatgpt_account_matches(existing: StoredAccountView, tokens: TokenDataView) -> bool {
    existing.mode.spec_is_chatgpt() && match existing.tokens {
        Some(held) => both_equal(held.account_id, tokens.account_id) && emails_agree(
            held.id_token.email,
            tokens.id_token.email,
        ),
        None => false,
    }
}

/// Whether a sign-in with this API key belongs to the account: the account
/// uses an API key, and it is exactly this one.
pub open spec fn api_key_account_matches(existing: StoredAccountView, api_key: Seq<char>) -> bool {
    existing.mode == AuthMode::ApiKey && existing.openai_api_key == Some(api_key)
}

/// Whether the incoming record belongs to the account, by the rule of the
/// incoming record's mode.
pub open spec fn belongs_to(existing: StoredAccountView, incoming: StoredAccountView) -> bool {
    match incoming.mode {
        AuthMode::ApiKey => match incoming.openai_api_key {
            Some(api_key) => api_key_account_matches(existing, api_key),
            None => false,
        },
        _ => match incoming.tokens {
            Some(tokens) => chatgpt_account_matches(existing, tokens),
            None => false,
        },
    }
}

/// The property of being an account that the incoming record belongs to.
pub open spec fn owner_of(incoming: StoredAccountView) -> spec_fn(StoredAccountView) -> bool {
    |existing: StoredAccountView| belongs_to(existing, incoming)
}

pub fn match_chatgpt_account(existing: &StoredAccount, tokens: &TokenData) -> (matches: bool)
    ensures
        matches == chatgpt_account_matches(existing@, tokens@),
{
    if !existing.mode.is_chatgpt() {
        return false;
    }
    let existing_tokens = match &existing.tokens {
        Some(tokens) => tokens,
        None => {
            return false;
        },
    };
    let account_id_matches = match (&existing_tokens.account_id, &tokens.account_id) {
        (Some(a), Some(b)) => *a == *b,
        _ => false,
    };
    let email_matches = match (&existing_tokens.id_token.email, &tokens.id_token.email) {
        (Some(a), Some(b)) => normalize_email(a.as_str()) == normalize_email(b.as_str()),
        _ => false,
    };
    account_id_matches && email_matches
}

pub fn match_api_key_account(existing: &StoredAccount, api_key: &str) -> (matches: bool)
    ensures
        matches == api_key_account_matches(existing@, api_key@),
{
    existing.mode == AuthMode::ApiKey && match &existing.openai_api_key {
        Some(stored) => crate::text::same_text(stored.as_str(), api_key),
        None => false,
    }
}

/// Whether the incoming record belongs to the account.
pub fn account_owns(existing: &StoredAccount, incoming: &StoredAccount) -> (owns: bool)
    ensures
        owns == belongs_to(existing@, incoming@),
{
    match incoming.mode {
        AuthMode::ApiKey => match &incoming.openai_api_key {
            Some(api_key) => match_api_key_account(existing, api_key.as_str()),
            None => false,
        },
        _ => match &incoming.tokens {
            Some(tokens) => match_chatgpt_account(existing, tokens),
            None => false,
        },
    }
}

/// The place of the first account that the incoming record belongs to.
pub fn find_owner(accounts: &Vec<StoredAccount>, incoming: &StoredAccount) -> (found: Option<usize>)
    ensures
        match found {
            Some(i) => position(accounts.deep_view(), owner_of(incoming@)) == Some(i as int),
            None => position(accounts.deep_view(), owner_of(incoming@)) is None,
        },
{
    let mut i: usize = 0;
    while i < accounts.len()
        invariant
            i <= accounts@.len(),
            forall|j: int| 0 <= j < i ==> !owner_of(incoming@)(#[trigger] accounts.deep_view()[j]),
        decreases accounts@.len() - i,
    {
        if account_owns(&accounts[i], incoming) {
            proof {
                assert(accounts.deep_view()[i as int] == accounts@[i as int]@);
                lemma_position_is(accounts.deep_view(), owner_of(incoming@), i as int);
            }
            return Some(i);
        }
        assert(accounts.deep_view()[i as int] == accounts@[i as int]@);
        i = i + 1;
    }
    proof {
        lemma_position_none(accounts.deep_view(), owner_of(incoming@));
    }
    None
}

/// The place of the first account with the name.
pub fn find_by_id(accounts: &Vec<StoredAccount>, id: &str) -> (found: Option<usize>)
    ensures
        match found {
            Some(i) => position(accounts.deep_view(), with_id(id@)) == Some(i as int),
            None => position(accounts.deep_view(), with_id(id@)) is None,
        },
{
    let mut i: usize = 0;
    while i < accounts.len()
        invariant
            i <= accounts@.len(),
            forall|j: int| 0 <= j < i ==> !with_id(id@)(#[trigger] accounts.deep_view()[j]),
        decreases accounts@.len() - i,
    {
        assert(accounts.deep_view()[i as int] == accounts@[i as int]@);
        if crate::text::same_text(accounts[i].id.as_str(), id) {
            proof {
                lemma_position_is(accounts.deep_view(), with_id(id@), i as int);
            }
            return Some(i);
        }
        i = i + 1;
    }
    proof {
        lemma_position_none(accounts.deep_view(), with_id(id@));
    }
    None
}

// ---------------------------------------------------------------------
// Merging a sign-in into the registry
// ---------------------------------------------------------------------

/// The one where it is present, else the other.
pub open spec fn or_else<T>(incoming: Option<T>, existing: Option<T>) -> Option<T> {
    if incoming is Some {
        incoming
    } else {
        existing
    }
}

/// The account with the incoming record merged into it: what the incoming
/// record has replaces what the account had, what it lacks stays. The name
/// and the time of creation never change.
pub open spec fn merged(existing: StoredAccountView, incoming: StoredAccountView) -> StoredAccountView {
    StoredAccountView {
        id: existing.id,
        mode: existing.mode,
        label: or_else(incoming.label, existing.label),
        openai_api_key: or_else(incoming.openai_api_key, existing.openai_api_key),
        tokens: or_else(incoming.tokens, existing.tokens),
        last_refresh: or_else(incoming.last_refresh, existing.last_refresh),
        created_at: existing.created_at,
        last_used_at: or_else(incoming.last_used_at, existing.last_used_at),
    }
}

/// The account with its times set: the time of creation where it had none
/// and, where it is being used, the time of last use.
pub open spec fn touched(account: StoredAccountView, used: bool, now: Timestamp) -> StoredAccountView {
    StoredAccountView {
        created_at: or_else(account.created_at, Some(now)),
        last_used_at: if used {
            Some(now)
        } else {
            account.last_used_at
        },
        ..account
    }
}

/// The registry after the incoming record was merged into the first account
/// that it belongs to or, where it belongs to none, added at the end as a
/// new account created at `now`; and that account as it then is.
pub open spec fn upserted(data: AccountsFileView, incoming: StoredAccountView, now: Timestamp) -> (
    AccountsFileView,
    StoredAccountView,
) {
    match position(data.accounts, owner_of(incoming)) {
        Some(i) => {
            let account = merged(data.accounts[i], incoming);
            (AccountsFileView { accounts: data.accounts.update(i, account), ..data }, account)
        },
        None => {
            let account = touched(incoming, false, now);
            (AccountsFileView { accounts: data.accounts.push(account), ..data }, account)
        },
    }
}

/// The registry after the name was made the active one, whatever it refers
/// to, and the account that it refers to, stamped with the time of use at
/// `now`; no account where the name refers to none.
pub open spec fn activated(data: AccountsFileView, id: Option<Seq<char>>, now: Timestamp) -> (
    AccountsFileView,
    Option<StoredAccountView>,
) {
    let named = AccountsFileView { active_account_id: id, ..data };
    match id {
        Some(id) => match position(data.accounts, with_id(id)) {
            Some(i) => {
                let account = touched(data.accounts[i], true, now);
                (
                    AccountsFileView { accounts: data.accounts.update(i, account), ..named },
                    Some(account),
                )
            },
            None => (named, None),
        },
        None => (named, None),
    }
}

/// The registry after an upsert and, where asked for, the activation of the
/// account that the upsert gave; and that account as it is in the end.
pub open spec fn upserted_and_activated(
    data: AccountsFileView,
    incoming: StoredAccountView,
    make_active: bool,
    now: Timestamp,
) -> (AccountsFileView, StoredAccountView) {
    let (next, stored) = upserted(data, incoming, now);
    if make_active {
        let (last, stamped) = activated(next, Some(stored.id), now);
        (
            last,
            match stamped {
                Some(account) => account,
                None => stored,
            },
        )
    } else {
        (next, stored)
    }
}

/// The registry without the first account of the given name, and that
/// account. The active name is cleared where it is the given name, and left
/// as it is otherwise.
pub open spec fn removed_from(data: AccountsFileView, id: Seq<char>) -> (
    AccountsFileView,
    Option<StoredAccountView>,
) {
    let active_account_id = if data.active_account_id == Some(id) {
        None
    } else {
        data.active_account_id
    };
    match position(data.accounts, with_id(id)) {
        Some(i) => (
            AccountsFileView { accounts: data.accounts.remove(i), active_account_id, ..data },
            Some(data.accounts[i]),
        ),
        None => (AccountsFileView { active_account_id, ..data }, None),
    }
}

/// Stamps the account: with the time of creation where it has none, and
/// with the time of last use where it is being used.
pub fn touch_account(account: &mut StoredAccount, used: bool, now: Timestamp)
    ensures
        final(account)@ == touched(old(account)@, used, now),
{
    if account.created_at.is_none() {
        account.created_at = Some(now);
    }
    if used {
        account.last_used_at = Some(now);
    }
}

/// Merges the incoming record into the registry: into the first account
/// that it belongs to, or as a new account at the end. Returns the registry
/// and the account as it then is.
pub fn upsert_account(data: AccountsFile, new_account: StoredAccount, now: Timestamp) -> (result: (
    AccountsFile,
    StoredAccount,
))
    ensures
        (result.0@, result.1@) == upserted(data@, new_account@, now),
{
    let mut data = data;
    let ghost before = data@;
    match find_owner(&data.accounts, &new_account) {
        Some(idx) => {
            let mut account = data.accounts[idx].clone();
            assert(account@ == before.accounts[idx as int]);
            let StoredAccount { label, last_refresh, tokens, openai_api_key, last_used_at, .. } =
                new_account;
            if label.is_some() {
                account.label = label;
            }
            if last_refresh.is_some() {
                account.last_refresh = last_refresh;
            }
            if tokens.is_some() {
                account.tokens = tokens;
            }
            if openai_api_key.is_some() {
                account.openai_api_key = openai_api_key;
            }
            if last_used_at.is_some() {
                account.last_used_at = last_used_at;
            }
            data.accounts.set(idx, account.clone());
            assert(data@.accounts =~= before.accounts.update(idx as int, account@));
            (data, account)
        },
        None => {
            let mut new_account = new_account;
            touch_account(&mut new_account, false, now);
            data.accounts.push(new_account.clone());
            assert(data@.accounts =~= before.accounts.push(new_account@));
            (data, new_account)
        },
    }
}

/// Makes the name the active one and stamps the account that it refers to.
/// The name is stored as it is given, also where no account has it.
pub fn activate(data: &mut AccountsFile, account_id: Option<String>, now: Timestamp) -> (updated:
    Option<StoredAccount>)
    ensures
        (final(data)@, updated.deep_view()) == activated(old(data)@, account_id.deep_view(), now),
{
    let ghost before = data@;
    let found = match &account_id {
        Some(id) => find_by_id(&data.accounts, id.as_str()),
        None => None,
    };
    data.active_account_id = account_id;
    match found {
        Some(idx) => {
            let mut account = data.accounts[idx].clone();
            assert(account@ == before.accounts[idx as int]);
            touch_account(&mut account, true, now);
            data.accounts.set(idx, account.clone());
            assert(data@.accounts =~= before.accounts.update(idx as int, account@));
            Some(account)
        },
        None => {
            assert(data@.accounts =~= before.accounts);
            None
        },
    }
}

/// Takes the first account of the given name out of the registry, and
/// clears the active name where it is the given one.
pub fn remove_from(data: &mut AccountsFile, account_id: &str) -> (removed: Option<StoredAccount>)
    ensures
        (final(data)@, removed.deep_view()) == removed_from(old(data)@, account_id@),
{
    let ghost before = data@;
    let removed = match find_by_id(&data.accounts, account_id) {
        Some(pos) => {
            let account = data.accounts.remove(pos);
            assert(data@.accounts =~= before.accounts.remove(pos as int));
            assert(account@ == before.accounts[pos as int]);
            Some(account)
        },
        None => {
            assert(data@.accounts =~= before.accounts);
            None
        },
    };
    let is_active = match &data.active_account_id {
        Some(active) => crate::text::same_text(active.as_str(), account_id),
        None => false,
    };
    if is_active {
        data.active_account_id = None;
    }
    removed
}

// ---------------------------------------------------------------------
// The registry's operations
// ---------------------------------------------------------------------

/// `chrono::Utc::now`: the time by the system's clock, as seconds since the
/// Unix epoch and nanoseconds within the second. Nothing is claimed of it.
/// On a machine whose clock stands before 1970 `chrono` does not return.
#[verifier::external_body]
pub(crate) fn now() -> (time: Timestamp) {
    let time = chrono::Utc::now();
    Timestamp { secs: time.timestamp(), nanos: time.timestamp_subsec_nanos() }
}

/// `uuid::Uuid::new_v4`: a random identifier, written as text. Nothing is
/// claimed of it. On a machine whose random source fails `uuid` does not
/// return.
#[verifier::external_body]
pub(crate) fn next_id() -> (id: String) {
    uuid::Uuid::new_v4().to_string()
}

/// The view of an operation's result that is an account.
pub open spec fn account_view(r: Result<StoredAccount, StoreError>) -> Result<
    StoredAccountView,
    StoreErrorView,
> {
    match r {
        Ok(account) => Ok(account@),
        Err(e) => Err(e@),
    }
}

/// The view of an operation's result that may be an account.
pub open spec fn found_view(r: Result<Option<StoredAccount>, StoreError>) -> Result<
    Option<StoredAccountView>,
    StoreErrorView,
> {
    match r {
        Ok(Some(account)) => Ok(Some(account@)),
        Ok(None) => Ok(None),
        Err(e) => Err(e@),
    }
}

/// What an operation reports that loads the registry, changes it and saves
/// it: `value` where both the load and the save succeed, else the error of
/// the first of the two that fails.
pub open spec fn reported<S: AccountsStorageBackend, T>(
    storage: S,
    world: AccountsWorld,
    value: T,
) -> Result<T, StoreErrorView> {
    match storage.load_spec(world) {
        Err(e) => Err(e),
        Ok(_) => match storage.save_spec(world) {
            Err(e) => Err(e),
            Ok(()) => Ok(value),
        },
    }
}

/// The registry that is loaded, where the load succeeds.
pub open spec fn loaded<S: AccountsStorageBackend>(storage: S, world: AccountsWorld) -> AccountsFileView {
    match storage.load_spec(world) {
        Ok(data) => data,
        Err(_) => empty_accounts_file(),
    }
}

/// The media after such an operation: what a save of `next` leaves, where
/// the load succeeded; else the media as they were.
pub open spec fn after_update<S: AccountsStorageBackend>(
    storage: S,
    world: AccountsWorld,
    next: AccountsFileView,
) -> AccountsWorld {
    match storage.load_spec(world) {
        Err(_) => world,
        Ok(_) => storage.after_save(world, next),
    }
}

/// The accounts of the registry, in their order.
pub fn list_accounts<
    S: AccountsStorageBackend,
    K: KeyringStore<AccountsFile>,
    F: FileStore<AccountsFile>,
>(storage: &S, stores: &Stores<AccountsFile, K, F>) -> (accounts: Result<
    Vec<StoredAccount>,
    StoreError,
>)
    ensures
        match accounts {
            Ok(list) => storage.load_spec(stores@) matches Ok(data) && list.deep_view()
                == data.accounts,
            Err(e) => storage.load_spec(stores@) == Err::<AccountsFileView, StoreErrorView>(e@),
        },
{
    match storage.load(stores) {
        Ok(data) => Ok(data.accounts),
        Err(e) => Err(e),
    }
}

/// The active name, as it is stored: it may refer to no account.
pub fn get_active_account_id<
    S: AccountsStorageBackend,
    K: KeyringStore<AccountsFile>,
    F: FileStore<AccountsFile>,
>(storage: &S, stores: &Stores<AccountsFile, K, F>) -> (active: Result<Option<String>, StoreError>)
    ensures
        match active {
            Ok(id) => storage.load_spec(stores@) matches Ok(data) && id.deep_view()
                == data.active_account_id,
            Err(e) => storage.load_spec(stores@) == Err::<AccountsFileView, StoreErrorView>(e@),
        },
{
    match storage.load(stores) {
        Ok(data) => Ok(data.active_account_id),
        Err(e) => Err(e),
    }
}

/// The first account of the given name.
pub fn find_account<
    S: AccountsStorageBackend,
    K: KeyringStore<AccountsFile>,
    F: FileStore<AccountsFile>,
>(storage: &S, stores: &Stores<AccountsFile, K, F>, account_id: &str) -> (found: Result<
    Option<StoredAccount>,
    StoreError,
>)
    ensures
        found_view(found) == match storage.load_spec(stores@) {
            Ok(data) => Ok(
                match position(data.accounts, with_id(account_id@)) {
                    Some(i) => Some(data.accounts[i]),
                    None => None,
                },
            ),
            Err(e) => Err(e),
        },
{
    let data = match storage.load(stores) {
        Ok(data) => data,
        Err(e) => {
            return Err(e);
        },
    };
    match find_by_id(&data.accounts, account_id) {
        Some(i) => {
            let account = data.accounts[i].clone();
            assert(account@ == data@.accounts[i as int]);
            Ok(Some(account))
        },
        None => Ok(None),
    }
}

/// Makes the name the active one at the time `now`: the name is stored as
/// given, also where it is absent or refers to no account; the account that
/// it refers to is stamped with the time of use and returned.
pub fn set_active_account_id_at<
    S: AccountsStorageBackend,
    K: KeyringStore<AccountsFile>,
    F: FileStore<AccountsFile>,
>(
    storage: &S,
    stores: &mut Stores<AccountsFile, K, F>,
    account_id: Option<String>,
    now: Timestamp,
) -> (updated: Result<Option<StoredAccount>, StoreError>)
    ensures
        found_view(updated) == reported(
            *storage,
            old(stores)@,
            activated(loaded(*storage, old(stores)@), account_id.deep_view(), now).1,
        ),
        final(stores)@ == after_update(
            *storage,
            old(stores)@,
            activated(loaded(*storage, old(stores)@), account_id.deep_view(), now).0,
        ),
{
    let mut data = match storage.load(stores) {
        Ok(data) => data,
        Err(e) => {
            return Err(e);
        },
    };
    let updated = activate(&mut data, account_id, now);
    match storage.save(stores, &data) {
        Ok(()) => Ok(updated),
        Err(e) => Err(e),
    }
}

/// Makes the name the active one, at the time that the clock gives.
pub fn set_active_account_id<
    S: AccountsStorageBackend,
    K: KeyringStore<AccountsFile>,
    F: FileStore<AccountsFile>,
>(storage: &S, stores: &mut Stores<AccountsFile, K, F>, account_id: Option<String>) -> (updated:
    Result<Option<StoredAccount>, StoreError>)
    ensures
        exists|now: Timestamp|
            {
                &&& found_view(updated) == reported(
                    *storage,
                    old(stores)@,
                    #[trigger] activated(
                        loaded(*storage, old(stores)@),
                        account_id.deep_view(),
                        now,
                    ).1,
                )
                &&& final(stores)@ == after_update(
                    *storage,
                    old(stores)@,
                    activated(loaded(*storage, old(stores)@), account_id.deep_view(), now).0,
                )
            },
{
    let time = now();
    set_active_account_id_at(storage, stores, account_id, time)
}

/// Removes the first account of the given name and, where it is the active
/// name, clears the active name. The registry is saved also where no account
/// had the name, which is no error.
pub fn remove_account<
    S: AccountsStorageBackend,
    K: KeyringStore<AccountsFile>,
    F: FileStore<AccountsFile>,
>(storage: &S, stores: &mut Stores<AccountsFile, K, F>, account_id: &str) -> (removed: Result<
    Option<StoredAccount>,
    StoreError,
>)
    ensures
        found_view(removed) == reported(
            *storage,
            old(stores)@,
            removed_from(loaded(*storage, old(stores)@), account_id@).1,
        ),
        final(stores)@ == after_update(
            *storage,
            old(stores)@,
            removed_from(loaded(*storage, old(stores)@), account_id@).0,
        ),
{
    let mut data = match storage.load(stores) {
        Ok(data) => data,
        Err(e) => {
            return Err(e);
        },
    };
    let removed = remove_from(&mut data, account_id);
    match storage.save(stores, &data) {
        Ok(()) => Ok(removed),
        Err(e) => Err(e),
    }
}

/// Loads the registry, merges the record into it, activates the account
/// where asked, and saves the registry. Returns the account as it is stored.
pub fn upsert_record<
    S: AccountsStorageBackend,
    K: KeyringStore<AccountsFile>,
    F: FileStore<AccountsFile>,
>(
    storage: &S,
    stores: &mut Stores<AccountsFile, K, F>,
    new_account: StoredAccount,
    make_active: bool,
    now: Timestamp,
) -> (stored: Result<StoredAccount, StoreError>)
    ensures
        account_view(stored) == reported(
            *storage,
            old(stores)@,
            upserted_and_activated(
                loaded(*storage, old(stores)@),
                new_account@,
                make_active,
                now,
            ).1,
        ),
        final(stores)@ == after_update(
            *storage,
            old(stores)@,
            upserted_and_activated(
                loaded(*storage, old(stores)@),
                new_account@,
                make_active,
                now,
            ).0,
        ),
{
    let data = match storage.load(stores) {
        Ok(data) => data,
        Err(e) => {
            return Err(e);
        },
    };
    let (mut data, mut stored) = upsert_account(data, new_account, now);
    if make_active {
        let id = stored.id.clone();
        match activate(&mut data, Some(id), now) {
            Some(account) => {
                stored = account;
            },
            None => {},
        }
    }
    match storage.save(stores, &data) {
        Ok(()) => Ok(stored),
        Err(e) => Err(e),
    }
}

/// The record of a sign-in with an API key.
pub fn new_api_key_account(id: String, api_key: String, label: Option<String>) -> (account:
    StoredAccount)
    ensures
        account@ == laws::api_key_record(id@, api_key@, label.deep_view()),
{
    StoredAccount {
        id,
        mode: AuthMode::ApiKey,
        label,
        openai_api_key: Some(api_key),
        tokens: None,
        last_refresh: None,
        created_at: None,
        last_used_at: None,
    }
}

/// The record of a ChatGPT sign-in.
pub fn new_chatgpt_account(
    id: String,
    tokens: TokenData,
    last_refresh: Timestamp,
    label: Option<String>,
) -> (account: StoredAccount)
    ensures
        account@ == laws::chatgpt_record(id@, tokens@, last_refresh, label.deep_view()),
{
    StoredAccount {
        id,
        mode: AuthMode::ChatGPT,
        label,
        openai_api_key: None,
        tokens: Some(tokens),
        last_refresh: Some(last_refresh),
        created_at: None,
        last_used_at: None,
    }
}

/// Signs in with an API key: merges into the account that uses exactly
/// this key, or adds an account with a name of its own. The name and the
/// time are what the random source and the clock give.
pub fn upsert_api_key_account<
    S: AccountsStorageBackend,
    K: KeyringStore<AccountsFile>,
    F: FileStore<AccountsFile>,
>(
    storage: &S,
    stores: &mut Stores<AccountsFile, K, F>,
    api_key: String,
    label: Option<String>,
    make_active: bool,
) -> (stored: Result<StoredAccount, StoreError>)
    ensures
        exists|id: Seq<char>, now: Timestamp|
            {
                &&& account_view(stored) == reported(
                    *storage,
                    old(stores)@,
                    #[trigger] upserted_and_activated(
                        loaded(*storage, old(stores)@),
                        laws::api_key_record(id, api_key@, label.deep_view()),
                        make_active,
                        now,
                    ).1,
                )
                &&& final(stores)@ == after_update(
                    *storage,
                    old(stores)@,
                    upserted_and_activated(
                        loaded(*storage, old(stores)@),
                        laws::api_key_record(id, api_key@, label.deep_view()),
                        make_active,
                        now,
                    ).0,
                )
            },
{
    let new_account = new_api_key_account(next_id(), api_key, label);
    let time = now();
    upsert_record(storage, stores, new_account, make_active, time)
}

/// A ChatGPT sign-in: merges into the account of the same identity, or
/// adds an account with a name of its own. The name and the time are what
/// the random source and the clock give.
pub fn upsert_chatgpt_account<
    S: AccountsStorageBackend,
    K: KeyringStore<AccountsFile>,
    F: FileStore<AccountsFile>,
>(
    storage: &S,
    stores: &mut Stores<AccountsFile, K, F>,
    tokens: TokenData,
    last_refresh: Timestamp,
    label: Option<String>,
    make_active: bool,
) -> (stored: Result<StoredAccount, StoreError>)
    ensures
        exists|id: Seq<char>, now: Timestamp|
            {
                &&& account_view(stored) == reported(
                    *storage,
                    old(stores)@,
                    #[trigger] upserted_and_activated(
                        loaded(*storage, old(stores)@),
                        laws::chatgpt_record(id, tokens@, last_refresh, label.deep_view()),
                        make_active,
                        now,
                    ).1,
                )
                &&& final(stores)@ == after_update(
                    *storage,
                    old(stores)@,
                    upserted_and_activated(
                        loaded(*storage, old(stores)@),
                        laws::chatgpt_record(id, tokens@, last_refresh, label.deep_view()),
                        make_active,
                        now,
                    ).0,
                )
            },
{
    let new_account = new_chatgpt_account(next_id(), tokens, last_refresh, label);
    let time = now();
    upsert_record(storage, stores, new_account, make_active, time)
}

/// What a migration reports: nothing to do where the two modes are the
/// same; else the failure of the load from the one or of the save to the
/// other.
pub open spec fn migration_outcome(
    at: storage::AccountsLocationView,
    world: AccountsWorld,
    from: storage::AccountsStorage,
    to: storage::AccountsStorage,
) -> Result<(), StoreErrorView> {
    match from.load_spec(world) {
        Err(e) => Err(e),
        Ok(_) => to.save_spec(world),
    }
}

/// Moves the registry from the backend of one mode to the backend of
/// another: the whole registry is read from the one and written as it is to
/// the other. Where the modes are the same nothing is done.
pub fn migrate_accounts_store_mode<K: KeyringStore<AccountsFile>, F: FileStore<AccountsFile>>(
    location: &AccountsLocation,
    stores: &mut Stores<AccountsFile, K, F>,
    from: AuthCredentialsStoreMode,
    to: AuthCredentialsStoreMode,
) -> (migrated: Result<(), StoreError>)
    ensures
        from == to ==> migrated is Ok && final(stores)@ == old(stores)@,
        from != to ==> exists|source: storage::AccountsStorage, target: storage::AccountsStorage|
            {
                &&& storage::storage_in_mode(location@, from, source)
                &&& storage::storage_in_mode(location@, to, target)
                &&& crate::stores::saved_view(migrated) == #[trigger] migration_outcome(
                    location@,
                    old(stores)@,
                    source,
                    target,
                )
                &&& final(stores)@ == match source.load_spec(old(stores)@) {
                    Ok(data) => target.after_save(old(stores)@, data),
                    Err(_) => old(stores)@,
                }
            },
{
    if from == to {
        return Ok(());
    }
    let from_storage = accounts_storage_with_mode(location.clone(), from);
    let to_storage = accounts_storage_with_mode(location.clone(), to);
    let data = match from_storage.load(stores) {
        Ok(data) => data,
        Err(e) => {
            assert(migration_outcome(location@, old(stores)@, from_storage, to_storage) == Err::<
                (),
                StoreErrorView,
            >(e@));
            return Err(e);
        },
    };
    let migrated = to_storage.save(stores, &data);
    assert(crate::stores::saved_view(migrated) == migration_outcome(
        location@,
        old(stores)@,
        from_storage,
        to_storage,
    ));
    migrated
}

} // verus!
