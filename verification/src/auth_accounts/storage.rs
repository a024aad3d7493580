//! Where the registry is kept: in a file, in the keyring, in the keyring
//! with the file to fall back on, or in memory.

use crate::auth_accounts::{empty_accounts_file, AccountsFile, AccountsFileView};
use crate::config_types::AuthCredentialsStoreMode;
use crate::error::{failure, StoreError, StoreErrorKind, StoreErrorView};
use crate::keyring_keys::{store_key_for_code_home, store_key_spec};
use crate::media::{Fetched, FetchedView, FileStore, KeyringStore};
use crate::memory::{EphemeralModel, EphemeralStore};
use crate::text::clone_texts;
use crate::stores::{
    after_delete_files, delete_files_if_exist, delete_files_outcome, removed_view, saved_view,
    Stores, World,
};
use vstd::prelude::*;
use vstd::string::StringExecFns;

verus! {

/// The name of the registry's file under the root directory.
pub const ACCOUNTS_FILE_NAME: &'static str = "auth_accounts.json";

/// The service name of the registry's keyring entries.
pub const KEYRING_SERVICE: &'static str = "Codex Auth Accounts";

/// The namespace of the registry's storage keys.
pub const KEY_NAMESPACE: &'static str = "cli-accounts";

pub const DESERIALIZE_CONTEXT: &'static str = "failed to deserialize accounts from keyring: ";

pub const LOAD_CONTEXT: &'static str = "failed to load accounts from keyring: ";

pub const SAVE_CONTEXT: &'static str = "failed to save accounts to keyring: ";

pub const LOCK_MESSAGE: &'static str = "failed to lock ephemeral accounts storage";

/// The files of the registry: the ones to read, in the order in which they
/// are tried, and the one to write.
#[derive(Debug, PartialEq, Eq)]
pub struct AccountStorePaths {
    pub read_paths: Vec<String>,
    pub write_path: String,
}

pub struct AccountStorePathsView {
    pub read_paths: Seq<Seq<char>>,
    pub write_path: Seq<char>,
}

impl View for AccountStorePaths {
    type V = AccountStorePathsView;

    open spec fn view(&self) -> AccountStorePathsView {
        AccountStorePathsView {
            read_paths: self.read_paths.deep_view(),
            write_path: self.write_path@,
        }
    }
}

impl Clone for AccountStorePaths {
    fn clone(&self) -> (copy: Self)
        ensures
            copy@ == self@,
    {
        AccountStorePaths {
            read_paths: clone_texts(&self.read_paths),
            write_path: self.write_path.clone(),
        }
    }
}

/// Where the registry of one root directory lives.
#[derive(Debug, PartialEq, Eq)]
pub struct AccountsLocation {
    /// The root directory's path in canonical form, from which the storage
    /// key is derived.
    pub code_home: String,
    /// The files of the file backend.
    pub paths: AccountStorePaths,
    /// The file under the root where the registry was kept before its place
    /// could be configured; it is removed together with the write file.
    pub legacy_path: String,
}

pub struct AccountsLocationView {
    pub code_home: Seq<char>,
    pub paths: AccountStorePathsView,
    pub legacy_path: Seq<char>,
}

impl View for AccountsLocation {
    type V = AccountsLocationView;

    open spec fn view(&self) -> AccountsLocationView {
        AccountsLocationView {
            code_home: self.code_home@,
            paths: self.paths@,
            legacy_path: self.legacy_path@,
        }
    }
}

impl Clone for AccountsLocation {
    fn clone(&self) -> (copy: Self)
        ensures
            copy@ == self@,
    {
        AccountsLocation {
            code_home: self.code_home.clone(),
            paths: self.paths.clone(),
            legacy_path: self.legacy_path.clone(),
        }
    }
}

impl AccountsLocationView {
    /// The storage key of the root directory.
    pub open spec fn store_key(self) -> Seq<char> {
        store_key_spec(KEY_NAMESPACE@, self.code_home)
    }

    /// The keyring entry of the registry.
    pub open spec fn keyring_entry(self) -> (Seq<char>, Seq<char>) {
        (KEYRING_SERVICE@, self.store_key())
    }
}

pub type AccountsWorld = World<AccountsFileView>;

pub type AccountsLoaded = Result<AccountsFileView, StoreErrorView>;

pub type AccountsSaved = Result<(), StoreErrorView>;

/// The view of what a load of the registry returned.
pub open spec fn accounts_view(r: Result<AccountsFile, StoreError>) -> AccountsLoaded {
    match r {
        Ok(data) => Ok(data@),
        Err(e) => Err(e@),
    }
}

/// The view of what a look into the keyring returned.
pub open spec fn fetched_view(r: Result<Option<AccountsFile>, StoreError>) -> Result<
    Option<AccountsFileView>,
    StoreErrorView,
> {
    match r {
        Ok(Some(data)) => Ok(Some(data@)),
        Ok(None) => Ok(None),
        Err(e) => Err(e@),
    }
}

// ---------------------------------------------------------------------
// The file backend
// ---------------------------------------------------------------------

/// What reading the registry from the given files gives: the document of
/// the first file that is there; the empty registry where none is there; an
/// error where a file that is tried cannot be read or holds no document.
pub open spec fn read_in_order(
    files: crate::media::StoreModel<Seq<char>, AccountsFileView>,
    read_paths: Seq<Seq<char>>,
) -> AccountsLoaded
    decreases read_paths.len(),
{
    if read_paths.len() == 0 {
        Ok(empty_accounts_file())
    } else {
        match files.fetch(read_paths[0]) {
            FetchedView::Found(data) => Ok(data),
            FetchedView::Missing => read_in_order(files, read_paths.drop_first()),
            FetchedView::Malformed(why) => Err(
                StoreErrorView { kind: StoreErrorKind::Serialization, message: why },
            ),
            FetchedView::Failed(why) => Err(
                StoreErrorView { kind: StoreErrorKind::Io, message: why },
            ),
        }
    }
}

pub open spec fn file_load(world: AccountsWorld, at: AccountsLocationView) -> AccountsLoaded {
    read_in_order(world.files, at.paths.read_paths)
}

pub open spec fn file_save(world: AccountsWorld, at: AccountsLocationView) -> AccountsSaved {
    match world.files.put_outcome(at.paths.write_path) {
        Ok(()) => Ok(()),
        Err(why) => Err(StoreErrorView { kind: StoreErrorKind::Io, message: why }),
    }
}

pub open spec fn after_file_save(
    world: AccountsWorld,
    at: AccountsLocationView,
    data: AccountsFileView,
) -> AccountsWorld {
    World { files: world.files.after_put(at.paths.write_path, data), ..world }
}

/// The files after the removal of the registry's files: the write file
/// and, where it is another one, the file under the root.
pub open spec fn without_files(
    files: crate::media::StoreModel<Seq<char>, AccountsFileView>,
    at: AccountsLocationView,
) -> crate::media::StoreModel<Seq<char>, AccountsFileView> {
    after_delete_files(files, at.paths.write_path, at.legacy_path)
}

// ---------------------------------------------------------------------
// The keyring backend
// ---------------------------------------------------------------------

/// What the keyring holds for the registry.
pub open spec fn keyring_fetch(world: AccountsWorld, at: AccountsLocationView) -> Result<
    Option<AccountsFileView>,
    StoreErrorView,
> {
    match world.keyring.fetch(at.keyring_entry()) {
        FetchedView::Found(data) => Ok(Some(data)),
        FetchedView::Missing => Ok(None),
        FetchedView::Malformed(why) => Err(
            failure(StoreErrorKind::Serialization, DESERIALIZE_CONTEXT@, why),
        ),
        FetchedView::Failed(why) => Err(
            failure(StoreErrorKind::BackendUnavailable, LOAD_CONTEXT@, why),
        ),
    }
}

/// What the keyring backend loads: what the keyring holds, or the empty
/// registry where it holds nothing.
pub open spec fn keyring_load(world: AccountsWorld, at: AccountsLocationView) -> AccountsLoaded {
    match keyring_fetch(world, at) {
        Ok(Some(data)) => Ok(data),
        Ok(None) => Ok(empty_accounts_file()),
        Err(e) => Err(e),
    }
}

pub open spec fn keyring_save(world: AccountsWorld, at: AccountsLocationView) -> AccountsSaved {
    match world.keyring.put_outcome(at.keyring_entry()) {
        Ok(()) => Ok(()),
        Err(why) => Err(failure(StoreErrorKind::BackendUnavailable, SAVE_CONTEXT@, why)),
    }
}

/// The media after a save by the keyring backend: the entry holds the
/// registry and, as far as the files let themselves be removed, no file of
/// the file backend is left. Where the keyring refuses nothing changes.
pub open spec fn after_keyring_save(
    world: AccountsWorld,
    at: AccountsLocationView,
    data: AccountsFileView,
) -> AccountsWorld {
    if world.keyring.put_outcome(at.keyring_entry()) is Err {
        world
    } else {
        World {
            keyring: world.keyring.after_put(at.keyring_entry(), data),
            files: without_files(world.files, at),
            ..world
        }
    }
}

// ---------------------------------------------------------------------
// The keyring with the file to fall back on
// ---------------------------------------------------------------------

/// What the automatic backend loads: what the keyring holds; where the
/// keyring holds nothing or fails, what the file backend loads.
pub open spec fn auto_load(world: AccountsWorld, at: AccountsLocationView) -> AccountsLoaded {
    match keyring_fetch(world, at) {
        Ok(Some(data)) => Ok(data),
        _ => file_load(world, at),
    }
}

pub open spec fn auto_save(world: AccountsWorld, at: AccountsLocationView) -> AccountsSaved {
    match keyring_save(world, at) {
        Ok(()) => Ok(()),
        Err(_) => file_save(world, at),
    }
}

pub open spec fn after_auto_save(
    world: AccountsWorld,
    at: AccountsLocationView,
    data: AccountsFileView,
) -> AccountsWorld {
    match keyring_save(world, at) {
        Ok(()) => after_keyring_save(world, at, data),
        Err(_) => after_file_save(world, at, data),
    }
}

// ---------------------------------------------------------------------
// The ephemeral backend
// ---------------------------------------------------------------------

pub open spec fn lock_failure() -> StoreErrorView {
    StoreErrorView { kind: StoreErrorKind::Lock, message: LOCK_MESSAGE@ }
}

pub open spec fn ephemeral_load(world: AccountsWorld, at: AccountsLocationView) -> AccountsLoaded {
    if world.ephemeral.poisoned {
        Err(lock_failure())
    } else if world.ephemeral.entries.contains_key(at.store_key()) {
        Ok(world.ephemeral.entries[at.store_key()])
    } else {
        Ok(empty_accounts_file())
    }
}

pub open spec fn ephemeral_save(world: AccountsWorld, at: AccountsLocationView) -> AccountsSaved {
    if world.ephemeral.poisoned {
        Err(lock_failure())
    } else {
        Ok(())
    }
}

pub open spec fn after_ephemeral_save(
    world: AccountsWorld,
    at: AccountsLocationView,
    data: AccountsFileView,
) -> AccountsWorld {
    if world.ephemeral.poisoned {
        world
    } else {
        World {
            ephemeral: EphemeralModel {
                entries: world.ephemeral.entries.insert(at.store_key(), data),
                poisoned: false,
            },
            files: without_files(world.files, at),
            ..world
        }
    }
}

// ---------------------------------------------------------------------
// The backends
// ---------------------------------------------------------------------

/// A backend of the registry.
pub trait AccountsStorageBackend {
    spec fn load_spec(&self, world: AccountsWorld) -> AccountsLoaded;

    spec fn save_spec(&self, world: AccountsWorld) -> AccountsSaved;

    spec fn after_save(&self, world: AccountsWorld, data: AccountsFileView) -> AccountsWorld;

    /// The stored registry, or the empty one where none is stored.
    fn load<K: KeyringStore<AccountsFile>, F: FileStore<AccountsFile>>(
        &self,
        stores: &Stores<AccountsFile, K, F>,
    ) -> (loaded: Result<AccountsFile, StoreError>)
        ensures
            accounts_view(loaded) == self.load_spec(stores@),
    ;

    /// Stores the registry in place of the stored one.
    fn save<K: KeyringStore<AccountsFile>, F: FileStore<AccountsFile>>(
        &self,
        stores: &mut Stores<AccountsFile, K, F>,
        data: &AccountsFile,
    ) -> (saved: Result<(), StoreError>)
        ensures
            saved_view(saved) == self.save_spec(old(stores)@),
            final(stores)@ == self.after_save(old(stores)@, data@),
    ;
}

/// The storage key of a root directory.
pub fn accounts_store_key(code_home: &str) -> (key: String)
    ensures
        key@ == store_key_spec(KEY_NAMESPACE@, code_home@),
        key@.len() == KEY_NAMESPACE@.len() + 17,
{
    store_key_for_code_home(KEY_NAMESPACE, code_home)
}

/// Reads the registry from the first of the files that is there.
pub fn load_accounts_file<F: FileStore<AccountsFile>>(files: &F, paths: &AccountStorePaths) -> (loaded:
    Result<AccountsFile, StoreError>)
    ensures
        accounts_view(loaded) == read_in_order(files.model(), paths@.read_paths),
{
    let mut i: usize = 0;
    assert(paths@.read_paths.subrange(0, paths@.read_paths.len() as int) =~= paths@.read_paths);
    while i < paths.read_paths.len()
        invariant
            i <= paths.read_paths@.len(),
            read_in_order(files.model(), paths@.read_paths) == read_in_order(
                files.model(),
                paths@.read_paths.subrange(i as int, paths@.read_paths.len() as int),
            ),
        decreases paths.read_paths@.len() - i,
    {
        let ghost rest = paths@.read_paths.subrange(i as int, paths@.read_paths.len() as int);
        proof {
            assert(rest[0] == paths.read_paths@[i as int]@);
            assert(rest.drop_first() =~= paths@.read_paths.subrange(
                i + 1,
                paths@.read_paths.len() as int,
            ));
        }
        match files.read(paths.read_paths[i].as_str()) {
            Fetched::Found(data) => {
                return Ok(data);
            },
            Fetched::Missing => {},
            Fetched::Malformed(why) => {
                return Err(StoreError { kind: StoreErrorKind::Serialization, message: why });
            },
            Fetched::Failed(why) => {
                return Err(StoreError { kind: StoreErrorKind::Io, message: why });
            },
        }
        i = i + 1;
    }
    Ok(AccountsFile::default())
}

/// Writes the registry to the file.
pub fn write_accounts_file<F: FileStore<AccountsFile>>(
    files: &mut F,
    path: &str,
    data: &AccountsFile,
) -> (saved: Result<(), StoreError>)
    ensures
        saved_view(saved) == match old(files).model().put_outcome(path@) {
            Ok(()) => Ok(()),
            Err(why) => Err(StoreErrorView { kind: StoreErrorKind::Io, message: why }),
        },
        final(files).model() == old(files).model().after_put(path@, data@),
{
    match files.write(path, data) {
        Ok(()) => Ok(()),
        Err(why) => Err(StoreError { kind: StoreErrorKind::Io, message: why }),
    }
}

/// Removes the registry's files: the write file and, where it is another
/// one, the file under the root.
pub fn delete_accounts_files_if_exists<F: FileStore<AccountsFile>>(
    files: &mut F,
    at: &AccountsLocation,
) -> (removed: Result<bool, StoreError>)
    ensures
        removed_view(removed) == delete_files_outcome(
            old(files).model(),
            at@.paths.write_path,
            at@.legacy_path,
        ),
        final(files).model() == without_files(old(files).model(), at@),
{
    delete_files_if_exist(files, at.paths.write_path.as_str(), at.legacy_path.as_str())
}

/// The backend that keeps the registry in a file.
#[derive(Debug)]
pub struct FileAccountsStorage {
    pub location: AccountsLocation,
}

impl FileAccountsStorage {
    pub fn new(location: AccountsLocation) -> (storage: Self)
        ensures
            storage.location == location,
    {
        FileAccountsStorage { location }
    }
}

impl AccountsStorageBackend for FileAccountsStorage {
    open spec fn load_spec(&self, world: AccountsWorld) -> AccountsLoaded {
        file_load(world, self.location@)
    }

    open spec fn save_spec(&self, world: AccountsWorld) -> AccountsSaved {
        file_save(world, self.location@)
    }

    open spec fn after_save(&self, world: AccountsWorld, data: AccountsFileView) -> AccountsWorld {
        after_file_save(world, self.location@, data)
    }

    fn load<K: KeyringStore<AccountsFile>, F: FileStore<AccountsFile>>(
        &self,
        stores: &Stores<AccountsFile, K, F>,
    ) -> (loaded: Result<AccountsFile, StoreError>) {
        load_accounts_file(&stores.files, &self.location.paths)
    }

    fn save<K: KeyringStore<AccountsFile>, F: FileStore<AccountsFile>>(
        &self,
        stores: &mut Stores<AccountsFile, K, F>,
        data: &AccountsFile,
    ) -> (saved: Result<(), StoreError>) {
        write_accounts_file(&mut stores.files, self.location.paths.write_path.as_str(), data)
    }
}

/// The backend that keeps the registry in the keyring. A save that the
/// keyring took also removes the registry's files; a failure to remove them
/// is not reported.
#[derive(Debug)]
pub struct KeyringAccountsStorage {
    pub location: AccountsLocation,
}

impl KeyringAccountsStorage {
    pub fn new(location: AccountsLocation) -> (storage: Self)
        ensures
            storage.location == location,
    {
        KeyringAccountsStorage { location }
    }

    /// What the keyring holds under the key.
    pub fn load_from_keyring<K: KeyringStore<AccountsFile>>(keyring: &K, key: &str) -> (loaded:
        Result<Option<AccountsFile>, StoreError>)
        ensures
            fetched_view(loaded) == match keyring.model().fetch((KEYRING_SERVICE@, key@)) {
                FetchedView::Found(data) => Ok(Some(data)),
                FetchedView::Missing => Ok(None),
                FetchedView::Malformed(why) => Err(
                    failure(StoreErrorKind::Serialization, DESERIALIZE_CONTEXT@, why),
                ),
                FetchedView::Failed(why) => Err(
                    failure(StoreErrorKind::BackendUnavailable, LOAD_CONTEXT@, why),
                ),
            },
    {
        match keyring.load(KEYRING_SERVICE, key) {
            Fetched::Found(data) => Ok(Some(data)),
            Fetched::Missing => Ok(None),
            Fetched::Malformed(why) => Err(
                StoreError::with_context(
                    StoreErrorKind::Serialization,
                    DESERIALIZE_CONTEXT,
                    why.as_str(),
                ),
            ),
            Fetched::Failed(why) => Err(
                StoreError::with_context(
                    StoreErrorKind::BackendUnavailable,
                    LOAD_CONTEXT,
                    why.as_str(),
                ),
            ),
        }
    }

    /// Puts the registry under the key.
    pub fn save_to_keyring<K: KeyringStore<AccountsFile>>(
        keyring: &mut K,
        key: &str,
        value: &AccountsFile,
    ) -> (saved: Result<(), StoreError>)
        ensures
            saved_view(saved) == match old(keyring).model().put_outcome((KEYRING_SERVICE@, key@)) {
                Ok(()) => Ok(()),
                Err(why) => Err(failure(StoreErrorKind::BackendUnavailable, SAVE_CONTEXT@, why)),
            },
            final(keyring).model() == old(keyring).model().after_put(
                (KEYRING_SERVICE@, key@),
                value@,
            ),
    {
        match keyring.save(KEYRING_SERVICE, key, value) {
            Ok(()) => Ok(()),
            Err(why) => Err(
                StoreError::with_context(
                    StoreErrorKind::BackendUnavailable,
                    SAVE_CONTEXT,
                    why.as_str(),
                ),
            ),
        }
    }
}

impl AccountsStorageBackend for KeyringAccountsStorage {
    open spec fn load_spec(&self, world: AccountsWorld) -> AccountsLoaded {
        keyring_load(world, self.location@)
    }

    open spec fn save_spec(&self, world: AccountsWorld) -> AccountsSaved {
        keyring_save(world, self.location@)
    }

    open spec fn after_save(&self, world: AccountsWorld, data: AccountsFileView) -> AccountsWorld {
        after_keyring_save(world, self.location@, data)
    }

    fn load<K: KeyringStore<AccountsFile>, F: FileStore<AccountsFile>>(
        &self,
        stores: &Stores<AccountsFile, K, F>,
    ) -> (loaded: Result<AccountsFile, StoreError>) {
        let key = accounts_store_key(self.location.code_home.as_str());
        match Self::load_from_keyring(&stores.keyring, key.as_str()) {
            Ok(Some(data)) => Ok(data),
            Ok(None) => Ok(AccountsFile::default()),
            Err(e) => Err(e),
        }
    }

    fn save<K: KeyringStore<AccountsFile>, F: FileStore<AccountsFile>>(
        &self,
        stores: &mut Stores<AccountsFile, K, F>,
        data: &AccountsFile,
    ) -> (saved: Result<(), StoreError>) {
        let key = accounts_store_key(self.location.code_home.as_str());
        match Self::save_to_keyring(&mut stores.keyring, key.as_str(), data) {
            Ok(()) => {},
            Err(e) => {
                return Err(e);
            },
        }
        let _ = delete_accounts_files_if_exists(&mut stores.files, &self.location);
        Ok(())
    }
}

/// The backend that prefers the keyring and falls back on the file.
#[derive(Debug)]
pub struct AutoAccountsStorage {
    pub keyring_storage: KeyringAccountsStorage,
    pub file_storage: FileAccountsStorage,
}

impl AutoAccountsStorage {
    pub fn new(location: AccountsLocation) -> (storage: Self)
        ensures
            storage.keyring_storage.location@ == location@,
            storage.file_storage.location@ == location@,
    {
        AutoAccountsStorage {
            keyring_storage: KeyringAccountsStorage::new(location.clone()),
            file_storage: FileAccountsStorage::new(location),
        }
    }
}

impl AccountsStorageBackend for AutoAccountsStorage {
    open spec fn load_spec(&self, world: AccountsWorld) -> AccountsLoaded {
        match keyring_fetch(world, self.keyring_storage.location@) {
            Ok(Some(data)) => Ok(data),
            _ => self.file_storage.load_spec(world),
        }
    }

    open spec fn save_spec(&self, world: AccountsWorld) -> AccountsSaved {
        match self.keyring_storage.save_spec(world) {
            Ok(()) => Ok(()),
            Err(_) => self.file_storage.save_spec(world),
        }
    }

    open spec fn after_save(&self, world: AccountsWorld, data: AccountsFileView) -> AccountsWorld {
        match self.keyring_storage.save_spec(world) {
            Ok(()) => self.keyring_storage.after_save(world, data),
            Err(_) => self.file_storage.after_save(world, data),
        }
    }

    fn load<K: KeyringStore<AccountsFile>, F: FileStore<AccountsFile>>(
        &self,
        stores: &Stores<AccountsFile, K, F>,
    ) -> (loaded: Result<AccountsFile, StoreError>) {
        let key = accounts_store_key(self.keyring_storage.location.code_home.as_str());
        match KeyringAccountsStorage::load_from_keyring(&stores.keyring, key.as_str()) {
            Ok(Some(data)) => Ok(data),
            Ok(None) => self.file_storage.load(stores),
            Err(_) => self.file_storage.load(stores),
        }
    }

    fn save<K: KeyringStore<AccountsFile>, F: FileStore<AccountsFile>>(
        &self,
        stores: &mut Stores<AccountsFile, K, F>,
        data: &AccountsFile,
    ) -> (saved: Result<(), StoreError>) {
        match self.keyring_storage.save(stores, data) {
            Ok(()) => Ok(()),
            Err(_) => self.file_storage.save(stores, data),
        }
    }
}

/// The backend that keeps the registry in memory, under the root's storage
/// key.
#[derive(Debug)]
pub struct EphemeralAccountsStorage {
    pub location: AccountsLocation,
}

impl EphemeralAccountsStorage {
    pub fn new(location: AccountsLocation) -> (storage: Self)
        ensures
            storage.location == location,
    {
        EphemeralAccountsStorage { location }
    }

    /// The key to use in the in-memory store, or the error of a store that
    /// cannot be locked.
    pub fn with_store(&self, store: &EphemeralStore<AccountsFile>) -> (key: Result<
        String,
        StoreError,
    >)
        ensures
            match key {
                Ok(k) => !store.model().poisoned && k@ == self.location@.store_key(),
                Err(e) => store.model().poisoned && e@ == lock_failure(),
            },
    {
        if store.is_poisoned() {
            Err(StoreError { kind: StoreErrorKind::Lock, message: String::from_str(LOCK_MESSAGE) })
        } else {
            Ok(accounts_store_key(self.location.code_home.as_str()))
        }
    }
}

impl AccountsStorageBackend for EphemeralAccountsStorage {
    open spec fn load_spec(&self, world: AccountsWorld) -> AccountsLoaded {
        ephemeral_load(world, self.location@)
    }

    open spec fn save_spec(&self, world: AccountsWorld) -> AccountsSaved {
        ephemeral_save(world, self.location@)
    }

    open spec fn after_save(&self, world: AccountsWorld, data: AccountsFileView) -> AccountsWorld {
        after_ephemeral_save(world, self.location@, data)
    }

    fn load<K: KeyringStore<AccountsFile>, F: FileStore<AccountsFile>>(
        &self,
        stores: &Stores<AccountsFile, K, F>,
    ) -> (loaded: Result<AccountsFile, StoreError>) {
        match self.with_store(&stores.ephemeral) {
            Ok(key) => match stores.ephemeral.get(key.as_str()) {
                Some(data) => Ok(data),
                None => Ok(AccountsFile::default()),
            },
            Err(e) => Err(e),
        }
    }

    fn save<K: KeyringStore<AccountsFile>, F: FileStore<AccountsFile>>(
        &self,
        stores: &mut Stores<AccountsFile, K, F>,
        data: &AccountsFile,
    ) -> (saved: Result<(), StoreError>) {
        match self.with_store(&stores.ephemeral) {
            Ok(key) => {
                stores.ephemeral.insert(key.as_str(), data);
            },
            Err(e) => {
                return Err(e);
            },
        }
        let _ = delete_accounts_files_if_exists(&mut stores.files, &self.location);
        Ok(())
    }
}

/// A backend chosen by the configured mode.
#[derive(Debug)]
pub enum AccountsStorage {
    File(FileAccountsStorage),
    Keyring(KeyringAccountsStorage),
    Auto(AutoAccountsStorage),
    Ephemeral(EphemeralAccountsStorage),
}

impl AccountsStorageBackend for AccountsStorage {
    open spec fn load_spec(&self, world: AccountsWorld) -> AccountsLoaded {
        match self {
            AccountsStorage::File(storage) => storage.load_spec(world),
            AccountsStorage::Keyring(storage) => storage.load_spec(world),
            AccountsStorage::Auto(storage) => storage.load_spec(world),
            AccountsStorage::Ephemeral(storage) => storage.load_spec(world),
        }
    }

    open spec fn save_spec(&self, world: AccountsWorld) -> AccountsSaved {
        match self {
            AccountsStorage::File(storage) => storage.save_spec(world),
            AccountsStorage::Keyring(storage) => storage.save_spec(world),
            AccountsStorage::Auto(storage) => storage.save_spec(world),
            AccountsStorage::Ephemeral(storage) => storage.save_spec(world),
        }
    }

    open spec fn after_save(&self, world: AccountsWorld, data: AccountsFileView) -> AccountsWorld {
        match self {
            AccountsStorage::File(storage) => storage.after_save(world, data),
            AccountsStorage::Keyring(storage) => storage.after_save(world, data),
            AccountsStorage::Auto(storage) => storage.after_save(world, data),
            AccountsStorage::Ephemeral(storage) => storage.after_save(world, data),
        }
    }

    fn load<K: KeyringStore<AccountsFile>, F: FileStore<AccountsFile>>(
        &self,
        stores: &Stores<AccountsFile, K, F>,
    ) -> (loaded: Result<AccountsFile, StoreError>) {
        match self {
            AccountsStorage::File(storage) => storage.load(stores),
            AccountsStorage::Keyring(storage) => storage.load(stores),
            AccountsStorage::Auto(storage) => storage.load(stores),
            AccountsStorage::Ephemeral(storage) => storage.load(stores),
        }
    }

    fn save<K: KeyringStore<AccountsFile>, F: FileStore<AccountsFile>>(
        &self,
        stores: &mut Stores<AccountsFile, K, F>,
        data: &AccountsFile,
    ) -> (saved: Result<(), StoreError>) {
        match self {
            AccountsStorage::File(storage) => storage.save(stores, data),
            AccountsStorage::Keyring(storage) => storage.save(stores, data),
            AccountsStorage::Auto(storage) => storage.save(stores, data),
            AccountsStorage::Ephemeral(storage) => storage.save(stores, data),
        }
    }
}

/// The backend spec of a root directory's registry in the given mode.
pub open spec fn storage_in_mode(
    at: AccountsLocationView,
    mode: AuthCredentialsStoreMode,
    storage: AccountsStorage,
) -> bool {
    match mode {
        AuthCredentialsStoreMode::File => storage matches AccountsStorage::File(s) && s.location@
            == at,
        AuthCredentialsStoreMode::Keyring => storage matches AccountsStorage::Keyring(s)
            && s.location@ == at,
        AuthCredentialsStoreMode::Auto => storage matches AccountsStorage::Auto(s)
            && s.keyring_storage.location@ == at && s.file_storage.location@ == at,
        AuthCredentialsStoreMode::Ephemeral => storage matches AccountsStorage::Ephemeral(s)
            && s.location@ == at,
    }
}

/// The backend for a root directory's registry in the given mode.
pub fn accounts_storage_with_mode(location: AccountsLocation, mode: AuthCredentialsStoreMode) -> (storage:
    AccountsStorage)
    ensures
        storage_in_mode(location@, mode, storage),
{
    match mode {
        AuthCredentialsStoreMode::File => AccountsStorage::File(FileAccountsStorage::new(location)),
        AuthCredentialsStoreMode::Keyring => AccountsStorage::Keyring(
            KeyringAccountsStorage::new(location),
        ),
        AuthCredentialsStoreMode::Auto => AccountsStorage::Auto(AutoAccountsStorage::new(location)),
        AuthCredentialsStoreMode::Ephemeral => AccountsStorage::Ephemeral(
            EphemeralAccountsStorage::new(location),
        ),
    }
}

/// The view of paths that may be absent.
pub open spec fn paths_view(paths: Option<AccountStorePaths>) -> Option<AccountStorePathsView> {
    match paths {
        Some(paths) => Some(paths@),
        None => None,
    }
}

// ---------------------------------------------------------------------
// What holds of the backends
// ---------------------------------------------------------------------

/// A registry that the file backend saved is what it loads next, where the
/// file that it writes is the first that it reads.
pub proof fn lemma_file_round_trip(
    world: AccountsWorld,
    at: AccountsLocationView,
    data: AccountsFileView,
)
    requires
        file_save(world, at) is Ok,
        at.paths.read_paths.len() > 0,
        at.paths.read_paths[0] == at.paths.write_path,
        !world.files.read_faults.contains_key(at.paths.write_path),
    ensures
        file_load(after_file_save(world, at, data), at) == Ok::<AccountsFileView, StoreErrorView>(
            data,
        ),
{
}

/// A registry that the keyring backend saved is what it loads next, unless
/// the keyring refuses to be read; and no file of the registry is left where
/// the files let themselves be removed.
pub proof fn lemma_keyring_round_trip(
    world: AccountsWorld,
    at: AccountsLocationView,
    data: AccountsFileView,
)
    requires
        keyring_save(world, at) is Ok,
        !world.keyring.read_faults.contains_key(at.keyring_entry()),
    ensures
        keyring_load(after_keyring_save(world, at, data), at) == Ok::<
            AccountsFileView,
            StoreErrorView,
        >(data),
        auto_load(after_keyring_save(world, at, data), at) == Ok::<
            AccountsFileView,
            StoreErrorView,
        >(data),
        !world.files.remove_faults.contains_key(at.paths.write_path)
            && !world.files.remove_faults.contains_key(at.legacy_path) ==> !after_keyring_save(
            world,
            at,
            data,
        ).files.occupied(at.paths.write_path) && !after_keyring_save(
            world,
            at,
            data,
        ).files.occupied(at.legacy_path),
{
}

/// A registry that the ephemeral backend saved is what it loads next; it
/// is not on disk, and not in an in-memory store made afresh.
pub proof fn lemma_ephemeral_round_trip(
    world: AccountsWorld,
    at: AccountsLocationView,
    data: AccountsFileView,
)
    requires
        ephemeral_save(world, at) is Ok,
    ensures
        ephemeral_load(after_ephemeral_save(world, at, data), at) == Ok::<
            AccountsFileView,
            StoreErrorView,
        >(data),
        after_ephemeral_save(world, at, data).keyring == world.keyring,
        forall|path: Seq<char>| #[trigger]
            after_ephemeral_save(world, at, data).files.occupied(path) ==> world.files.occupied(
                path,
            ),
        ephemeral_load(
            World {
                ephemeral: EphemeralModel { entries: Map::empty(), poisoned: false },
                ..after_ephemeral_save(world, at, data)
            },
            at,
        ) == Ok::<AccountsFileView, StoreErrorView>(empty_accounts_file()),
{
}

/// Where the keyring fails or holds nothing, the automatic backend loads
/// what the file backend loads, and saves to the file where the keyring does
/// not take the registry.
pub proof fn lemma_auto_falls_back(
    world: AccountsWorld,
    at: AccountsLocationView,
    data: AccountsFileView,
)
    ensures
        !(world.keyring.fetch(at.keyring_entry()) is Found) ==> auto_load(world, at) == file_load(
            world,
            at,
        ),
        world.keyring.put_outcome(at.keyring_entry()) is Err ==> auto_save(world, at) == file_save(
            world,
            at,
        ) && after_auto_save(world, at, data) == after_file_save(world, at, data),
{
}

/// Where none of the files is there, the empty registry is read; the first
/// file that is there decides, whatever the later ones hold.
pub proof fn lemma_read_in_order(
    files: crate::media::StoreModel<Seq<char>, AccountsFileView>,
    read_paths: Seq<Seq<char>>,
    first: int,
)
    requires
        0 <= first <= read_paths.len(),
        forall|i: int| 0 <= i < first ==> files.fetch(#[trigger] read_paths[i]) is Missing,
    ensures
        first == read_paths.len() ==> read_in_order(files, read_paths) == Ok::<
            AccountsFileView,
            StoreErrorView,
        >(empty_accounts_file()),
        first < read_paths.len() ==> read_in_order(files, read_paths) == read_in_order(
            files,
            read_paths.subrange(first, read_paths.len() as int),
        ),
        first < read_paths.len() ==> match files.fetch(read_paths[first]) {
            FetchedView::Found(data) => read_in_order(files, read_paths) == Ok::<
                AccountsFileView,
                StoreErrorView,
            >(data),
            FetchedView::Missing => true,
            _ => read_in_order(files, read_paths) is Err,
        },
    decreases read_paths.len(),
{
    if first == 0 {
        assert(read_paths.subrange(0, read_paths.len() as int) =~= read_paths);
    } else {
        let rest = read_paths.drop_first();
        assert(files.fetch(read_paths[0]) is Missing);
        assert forall|i: int| 0 <= i < first - 1 implies files.fetch(#[trigger] rest[i])
            is Missing by {
            assert(rest[i] == read_paths[i + 1]);
        }
        lemma_read_in_order(files, rest, first - 1);
        if first < read_paths.len() {
            assert(rest.subrange(first - 1, rest.len() as int) =~= read_paths.subrange(
                first,
                read_paths.len() as int,
            ));
            assert(rest[first - 1] == read_paths[first]);
        }
    }
}

/// Whether the backend reads back what it writes, as the media are: the
/// file backend where the file that it writes is the first that it reads,
/// and every backend where the medium that it reads does not refuse.
pub open spec fn reads_back(storage: AccountsStorage, world: AccountsWorld) -> bool {
    match storage {
        AccountsStorage::File(s) => {
            &&& s.location@.paths.read_paths.len() > 0
            &&& s.location@.paths.read_paths[0] == s.location@.paths.write_path
            &&& !world.files.read_faults.contains_key(s.location@.paths.write_path)
        },
        AccountsStorage::Keyring(s) => !world.keyring.read_faults.contains_key(
            s.location@.keyring_entry(),
        ),
        AccountsStorage::Auto(s) => s.keyring_storage.location@ == s.file_storage.location@ && (
        if world.keyring.put_outcome(s.keyring_storage.location@.keyring_entry()) is Ok {
            !world.keyring.read_faults.contains_key(s.keyring_storage.location@.keyring_entry())
        } else {
            &&& !(world.keyring.fetch(s.keyring_storage.location@.keyring_entry()) is Found)
            &&& s.file_storage.location@.paths.read_paths.len() > 0
            &&& s.file_storage.location@.paths.read_paths[0]
                == s.file_storage.location@.paths.write_path
            &&& !world.files.read_faults.contains_key(s.file_storage.location@.paths.write_path)
        }),
        AccountsStorage::Ephemeral(_) => true,
    }
}

/// A registry that was saved, by an upsert, a removal, an activation or a
/// migration, is the registry that the same backend loads next, where the
/// backend reads back what it writes.
pub proof fn lemma_saved_registry_is_loaded(
    storage: AccountsStorage,
    world: AccountsWorld,
    data: AccountsFileView,
)
    requires
        storage.save_spec(world) is Ok,
        reads_back(storage, world),
    ensures
        storage.load_spec(storage.after_save(world, data)) == Ok::<AccountsFileView, StoreErrorView>(
            data,
        ),
{
    match storage {
        AccountsStorage::File(s) => {
            lemma_file_round_trip(world, s.location@, data);
        },
        AccountsStorage::Keyring(s) => {
            lemma_keyring_round_trip(world, s.location@, data);
        },
        AccountsStorage::Auto(s) => {
            let at = s.keyring_storage.location@;
            if world.keyring.put_outcome(at.keyring_entry()) is Ok {
                lemma_keyring_round_trip(world, at, data);
            } else {
                lemma_file_round_trip(world, at, data);
            }
        },
        AccountsStorage::Ephemeral(s) => {
            lemma_ephemeral_round_trip(world, s.location@, data);
        },
    }
}

} // verus!
