//! The backends of the primary credential store: a file, the keyring, the
//! keyring with the file to fall back on, and memory.

use crate::auth::{AuthDotJson, AuthDotJsonView};
use crate::config_types::AuthCredentialsStoreMode;
use crate::error::{failure, StoreError, StoreErrorKind, StoreErrorView};
use crate::keyring_keys::{store_key_for_code_home, store_key_spec};
use crate::media::{Fetched, FetchedView, FileStore, KeyringStore};
use crate::stores::{
    after_delete_files, delete_files_if_exist, delete_files_outcome, loaded_view, removed_view,
    saved_view, Stores, World,
};
use vstd::prelude::*;
use vstd::string::StringExecFns;

verus! {

/// The name of the credential set's file under the root directory.
pub const AUTH_FILE_NAME: &'static str = "auth.json";

/// The service name of the credential set's keyring entries.
pub const KEYRING_SERVICE: &'static str = "Codex Auth";

/// The namespace of the credential set's storage keys.
pub const KEY_NAMESPACE: &'static str = "cli";

pub const DESERIALIZE_CONTEXT: &'static str = "failed to deserialize CLI auth from keyring: ";

pub const LOAD_CONTEXT: &'static str = "failed to load CLI auth from keyring: ";

pub const SAVE_CONTEXT: &'static str = "failed to save CLI auth to keyring: ";

pub const DELETE_CONTEXT: &'static str = "failed to delete auth from keyring: ";

pub const LOCK_MESSAGE: &'static str = "failed to lock ephemeral auth storage";

/// Where the credential set of one root directory lives.
#[derive(Debug, PartialEq, Eq)]
pub struct AuthPaths {
    /// The root directory's path in canonical form, from which the storage
    /// key is derived.
    pub code_home: String,
    /// The file that saves write: `auth.json` under the root.
    pub auth_file: String,
    /// The file that loads read; it may be another one than `auth_file`.
    pub read_file: String,
}

pub struct AuthPathsView {
    pub code_home: Seq<char>,
    pub auth_file: Seq<char>,
    pub read_file: Seq<char>,
}

impl View for AuthPaths {
    type V = AuthPathsView;

    open spec fn view(&self) -> AuthPathsView {
        AuthPathsView {
            code_home: self.code_home@,
            auth_file: self.auth_file@,
            read_file: self.read_file@,
        }
    }
}

impl Clone for AuthPaths {
    fn clone(&self) -> (copy: Self)
        ensures
            copy@ == self@,
    {
        AuthPaths {
            code_home: self.code_home.clone(),
            auth_file: self.auth_file.clone(),
            read_file: self.read_file.clone(),
        }
    }
}

impl AuthPathsView {
    /// The keyring entry of the credential set.
    pub open spec fn keyring_entry(self) -> (Seq<char>, Seq<char>) {
        (KEYRING_SERVICE@, self.store_key())
    }

    /// The storage key of the root directory.
    pub open spec fn store_key(self) -> Seq<char> {
        store_key_spec(KEY_NAMESPACE@, self.code_home)
    }
}

pub type AuthWorld = World<AuthDotJsonView>;

pub type AuthLoaded = Result<Option<AuthDotJsonView>, StoreErrorView>;

pub type AuthSaved = Result<(), StoreErrorView>;

pub type AuthRemoved = Result<bool, StoreErrorView>;

// ---------------------------------------------------------------------
// The file backend
// ---------------------------------------------------------------------

/// What the file backend loads: the document in the read file; nothing
/// where the file is missing; an error where it cannot be read or holds no
/// document.
pub open spec fn file_load(world: AuthWorld, paths: AuthPathsView) -> AuthLoaded {
    match world.files.fetch(paths.read_file) {
        FetchedView::Found(auth) => Ok(Some(auth)),
        FetchedView::Missing => Ok(None),
        FetchedView::Malformed(why) => Err(
            StoreErrorView { kind: StoreErrorKind::Serialization, message: why },
        ),
        FetchedView::Failed(why) => Err(StoreErrorView { kind: StoreErrorKind::Io, message: why }),
    }
}

/// What a save by the file backend reports.
pub open spec fn file_save(world: AuthWorld, paths: AuthPathsView) -> AuthSaved {
    match world.files.put_outcome(paths.auth_file) {
        Ok(()) => Ok(()),
        Err(why) => Err(StoreErrorView { kind: StoreErrorKind::Io, message: why }),
    }
}

/// The media after a save by the file backend: the write file holds the
/// document.
pub open spec fn after_file_save(
    world: AuthWorld,
    paths: AuthPathsView,
    auth: AuthDotJsonView,
) -> AuthWorld {
    World { files: world.files.after_put(paths.auth_file, auth), ..world }
}

/// What a removal by the file backend reports: whether the write file or
/// the read file was removed.
pub open spec fn file_delete(world: AuthWorld, paths: AuthPathsView) -> AuthRemoved {
    delete_files_outcome(world.files, paths.auth_file, paths.read_file)
}

/// The media after a removal by the file backend.
pub open spec fn after_file_delete(world: AuthWorld, paths: AuthPathsView) -> AuthWorld {
    World { files: after_delete_files(world.files, paths.auth_file, paths.read_file), ..world }
}

// ---------------------------------------------------------------------
// The keyring backend
// ---------------------------------------------------------------------

/// What the keyring backend loads: the document under the root's entry;
/// nothing where the entry is missing; an error where the keyring refuses or
/// the entry holds no document.
pub open spec fn keyring_load(world: AuthWorld, paths: AuthPathsView) -> AuthLoaded {
    match world.keyring.fetch(paths.keyring_entry()) {
        FetchedView::Found(auth) => Ok(Some(auth)),
        FetchedView::Missing => Ok(None),
        FetchedView::Malformed(why) => Err(
            failure(StoreErrorKind::Serialization, DESERIALIZE_CONTEXT@, why),
        ),
        FetchedView::Failed(why) => Err(
            failure(StoreErrorKind::BackendUnavailable, LOAD_CONTEXT@, why),
        ),
    }
}

/// What a save by the keyring backend reports: the keyring's refusal, or
/// success whatever became of the files.
pub open spec fn keyring_save(world: AuthWorld, paths: AuthPathsView) -> AuthSaved {
    match world.keyring.put_outcome(paths.keyring_entry()) {
        Ok(()) => Ok(()),
        Err(why) => Err(failure(StoreErrorKind::BackendUnavailable, SAVE_CONTEXT@, why)),
    }
}

/// The media after a save by the keyring backend: the entry holds the
/// document and, as far as the files let themselves be removed, no file of
/// the file backend is left. Where the keyring refuses nothing changes.
pub open spec fn after_keyring_save(
    world: AuthWorld,
    paths: AuthPathsView,
    auth: AuthDotJsonView,
) -> AuthWorld {
    if world.keyring.put_outcome(paths.keyring_entry()) is Err {
        world
    } else {
        World {
            keyring: world.keyring.after_put(paths.keyring_entry(), auth),
            files: after_delete_files(world.files, paths.auth_file, paths.read_file),
            ..world
        }
    }
}

/// What a removal by the keyring backend reports: whether the entry or a
/// file was removed; the keyring's refusal; or the first failure to remove
/// a file.
pub open spec fn keyring_delete(world: AuthWorld, paths: AuthPathsView) -> AuthRemoved {
    match world.keyring.take_outcome(paths.keyring_entry()) {
        Err(why) => Err(failure(StoreErrorKind::BackendUnavailable, DELETE_CONTEXT@, why)),
        Ok(entry_removed) => match file_delete(world, paths) {
            Err(e) => Err(e),
            Ok(file_removed) => Ok(entry_removed || file_removed),
        },
    }
}

/// The media after a removal by the keyring backend.
pub open spec fn after_keyring_delete(world: AuthWorld, paths: AuthPathsView) -> AuthWorld {
    if world.keyring.take_outcome(paths.keyring_entry()) is Err {
        world
    } else {
        World {
            keyring: world.keyring.after_take(paths.keyring_entry()),
            files: after_delete_files(world.files, paths.auth_file, paths.read_file),
            ..world
        }
    }
}

// ---------------------------------------------------------------------
// The keyring with the file to fall back on
// ---------------------------------------------------------------------

/// What the automatic backend loads: what the keyring holds; where the
/// keyring holds nothing or fails, what the file backend loads.
pub open spec fn auto_load(world: AuthWorld, paths: AuthPathsView) -> AuthLoaded {
    match keyring_load(world, paths) {
        Ok(Some(auth)) => Ok(Some(auth)),
        _ => file_load(world, paths),
    }
}

/// What a save by the automatic backend reports: success where the keyring
/// took the document, else what the file backend reports.
pub open spec fn auto_save(world: AuthWorld, paths: AuthPathsView) -> AuthSaved {
    match keyring_save(world, paths) {
        Ok(()) => Ok(()),
        Err(_) => file_save(world, paths),
    }
}

/// The media after a save by the automatic backend.
pub open spec fn after_auto_save(
    world: AuthWorld,
    paths: AuthPathsView,
    auth: AuthDotJsonView,
) -> AuthWorld {
    match keyring_save(world, paths) {
        Ok(()) => after_keyring_save(world, paths, auth),
        Err(_) => after_file_save(world, paths, auth),
    }
}

/// What a removal by the automatic backend reports: whether the keyring's
/// entry or a file was removed. A keyring that refuses the removal does not
/// keep the files from being removed: only a failure to remove a file is
/// reported.
pub open spec fn auto_delete(world: AuthWorld, paths: AuthPathsView) -> AuthRemoved {
    match world.keyring.take_outcome(paths.keyring_entry()) {
        Ok(entry_removed) => match file_delete(world, paths) {
            Err(e) => Err(e),
            Ok(file_removed) => Ok(entry_removed || file_removed),
        },
        Err(_) => file_delete(world, paths),
    }
}

/// The media after a removal by the automatic backend: the entry is gone
/// unless the keyring refuses, and the files are gone as far as they let
/// themselves be removed.
pub open spec fn after_auto_delete(world: AuthWorld, paths: AuthPathsView) -> AuthWorld {
    World {
        keyring: world.keyring.after_take(paths.keyring_entry()),
        files: after_delete_files(world.files, paths.auth_file, paths.read_file),
        ..world
    }
}

// ---------------------------------------------------------------------
// The ephemeral backend
// ---------------------------------------------------------------------

/// The error of an in-memory store that cannot be locked.
pub open spec fn lock_failure() -> StoreErrorView {
    StoreErrorView { kind: StoreErrorKind::Lock, message: LOCK_MESSAGE@ }
}

/// What the ephemeral backend loads: the document under the root's key in
/// the in-memory store.
pub open spec fn ephemeral_load(world: AuthWorld, paths: AuthPathsView) -> AuthLoaded {
    if world.ephemeral.poisoned {
        Err(lock_failure())
    } else if world.ephemeral.entries.contains_key(paths.store_key()) {
        Ok(Some(world.ephemeral.entries[paths.store_key()]))
    } else {
        Ok(None)
    }
}

/// What a save by the ephemeral backend reports.
pub open spec fn ephemeral_save(world: AuthWorld, paths: AuthPathsView) -> AuthSaved {
    if world.ephemeral.poisoned {
        Err(lock_failure())
    } else {
        Ok(())
    }
}

/// The media after a save by the ephemeral backend: the in-memory store
/// holds the document and, as far as the files let themselves be removed, no
/// file of the file backend is left.
pub open spec fn after_ephemeral_save(
    world: AuthWorld,
    paths: AuthPathsView,
    auth: AuthDotJsonView,
) -> AuthWorld {
    if world.ephemeral.poisoned {
        world
    } else {
        World {
            ephemeral: crate::memory::EphemeralModel {
                entries: world.ephemeral.entries.insert(paths.store_key(), auth),
                poisoned: false,
            },
            files: after_delete_files(world.files, paths.auth_file, paths.read_file),
            ..world
        }
    }
}

/// What a removal by the ephemeral backend reports: whether the in-memory
/// store held a document for the root.
pub open spec fn ephemeral_delete(world: AuthWorld, paths: AuthPathsView) -> AuthRemoved {
    if world.ephemeral.poisoned {
        Err(lock_failure())
    } else {
        Ok(world.ephemeral.entries.contains_key(paths.store_key()))
    }
}

/// The media after a removal by the ephemeral backend.
pub open spec fn after_ephemeral_delete(world: AuthWorld, paths: AuthPathsView) -> AuthWorld {
    if world.ephemeral.poisoned {
        world
    } else {
        World {
            ephemeral: crate::memory::EphemeralModel {
                entries: world.ephemeral.entries.remove(paths.store_key()),
                poisoned: false,
            },
            ..world
        }
    }
}

// ---------------------------------------------------------------------
// The backends
// ---------------------------------------------------------------------

/// A backend of the primary credential store. Its operations work on the
/// media that are handed to them, and say exactly what they return and what
/// the media hold afterwards.
pub trait AuthStorageBackend {
    spec fn load_spec(&self, world: AuthWorld) -> AuthLoaded;

    spec fn save_spec(&self, world: AuthWorld) -> AuthSaved;

    spec fn after_save(&self, world: AuthWorld, auth: AuthDotJsonView) -> AuthWorld;

    spec fn delete_spec(&self, world: AuthWorld) -> AuthRemoved;

    spec fn after_delete(&self, world: AuthWorld) -> AuthWorld;

    /// The stored credential set, if there is one.
    fn load<K: KeyringStore<AuthDotJson>, F: FileStore<AuthDotJson>>(
        &self,
        stores: &Stores<AuthDotJson, K, F>,
    ) -> (loaded: Result<Option<AuthDotJson>, StoreError>)
        ensures
            loaded_view(loaded) == self.load_spec(stores@),
    ;

    /// Stores the credential set in place of the stored one.
    fn save<K: KeyringStore<AuthDotJson>, F: FileStore<AuthDotJson>>(
        &self,
        stores: &mut Stores<AuthDotJson, K, F>,
        auth: &AuthDotJson,
    ) -> (saved: Result<(), StoreError>)
        ensures
            saved_view(saved) == self.save_spec(old(stores)@),
            final(stores)@ == self.after_save(old(stores)@, auth@),
    ;

    /// Removes the stored credential set; tells whether anything was
    /// removed.
    fn delete<K: KeyringStore<AuthDotJson>, F: FileStore<AuthDotJson>>(
        &self,
        stores: &mut Stores<AuthDotJson, K, F>,
    ) -> (removed: Result<bool, StoreError>)
        ensures
            removed_view(removed) == self.delete_spec(old(stores)@),
            final(stores)@ == self.after_delete(old(stores)@),
    ;
}

/// The storage key of a root directory.
pub fn compute_store_key(code_home: &str) -> (key: String)
    ensures
        key@ == store_key_spec(KEY_NAMESPACE@, code_home@),
        key@.len() == KEY_NAMESPACE@.len() + 17,
{
    store_key_for_code_home(KEY_NAMESPACE, code_home)
}

/// Removes the files of the file backend: the write file and, where it is
/// another one, the read file.
pub fn delete_auth_files_if_exists<F: FileStore<AuthDotJson>>(
    files: &mut F,
    paths: &AuthPaths,
) -> (removed: Result<bool, StoreError>)
    ensures
        removed_view(removed) == delete_files_outcome(
            old(files).model(),
            paths@.auth_file,
            paths@.read_file,
        ),
        final(files).model() == after_delete_files(
            old(files).model(),
            paths@.auth_file,
            paths@.read_file,
        ),
{
    delete_files_if_exist(files, paths.auth_file.as_str(), paths.read_file.as_str())
}

/// The backend that keeps the credential set in a file.
#[derive(Debug)]
pub struct FileAuthStorage {
    pub paths: AuthPaths,
}

impl FileAuthStorage {
    pub fn new(paths: AuthPaths) -> (storage: Self)
        ensures
            storage.paths == paths,
    {
        FileAuthStorage { paths }
    }
}

impl AuthStorageBackend for FileAuthStorage {
    open spec fn load_spec(&self, world: AuthWorld) -> AuthLoaded {
        file_load(world, self.paths@)
    }

    open spec fn save_spec(&self, world: AuthWorld) -> AuthSaved {
        file_save(world, self.paths@)
    }

    open spec fn after_save(&self, world: AuthWorld, auth: AuthDotJsonView) -> AuthWorld {
        after_file_save(world, self.paths@, auth)
    }

    open spec fn delete_spec(&self, world: AuthWorld) -> AuthRemoved {
        file_delete(world, self.paths@)
    }

    open spec fn after_delete(&self, world: AuthWorld) -> AuthWorld {
        after_file_delete(world, self.paths@)
    }

    fn load<K: KeyringStore<AuthDotJson>, F: FileStore<AuthDotJson>>(
        &self,
        stores: &Stores<AuthDotJson, K, F>,
    ) -> (loaded: Result<Option<AuthDotJson>, StoreError>) {
        match stores.files.read(self.paths.read_file.as_str()) {
            Fetched::Found(auth) => Ok(Some(auth)),
            Fetched::Missing => Ok(None),
            Fetched::Malformed(why) => Err(
                StoreError { kind: StoreErrorKind::Serialization, message: why },
            ),
            Fetched::Failed(why) => Err(StoreError { kind: StoreErrorKind::Io, message: why }),
        }
    }

    fn save<K: KeyringStore<AuthDotJson>, F: FileStore<AuthDotJson>>(
        &self,
        stores: &mut Stores<AuthDotJson, K, F>,
        auth: &AuthDotJson,
    ) -> (saved: Result<(), StoreError>) {
        match stores.files.write(self.paths.auth_file.as_str(), auth) {
            Ok(()) => Ok(()),
            Err(why) => Err(StoreError { kind: StoreErrorKind::Io, message: why }),
        }
    }

    fn delete<K: KeyringStore<AuthDotJson>, F: FileStore<AuthDotJson>>(
        &self,
        stores: &mut Stores<AuthDotJson, K, F>,
    ) -> (removed: Result<bool, StoreError>) {
        delete_auth_files_if_exists(&mut stores.files, &self.paths)
    }
}

/// The backend that keeps the credential set in the keyring. A save that
/// the keyring took also removes the files of the file backend, so that no
/// stale copy stays on disk; a failure to remove them is not reported.
#[derive(Debug)]
pub struct KeyringAuthStorage {
    pub paths: AuthPaths,
}

impl KeyringAuthStorage {
    pub fn new(paths: AuthPaths) -> (storage: Self)
        ensures
            storage.paths == paths,
    {
        KeyringAuthStorage { paths }
    }

    /// What the keyring holds under the key.
    pub fn load_from_keyring<K: KeyringStore<AuthDotJson>>(keyring: &K, key: &str) -> (loaded:
        Result<Option<AuthDotJson>, StoreError>)
        ensures
            loaded_view(loaded) == match keyring.model().fetch((KEYRING_SERVICE@, key@)) {
                FetchedView::Found(auth) => Ok(Some(auth)),
                FetchedView::Missing => Ok(None),
                FetchedView::Malformed(why) => Err(
                    failure(StoreErrorKind::Serialization, DESERIALIZE_CONTEXT@, why),
                ),
                FetchedView::Failed(why) => Err(
                    failure(StoreErrorKind::BackendUnavailable, LOAD_CONTEXT@, why),
                ),
            },
    {
        match keyring.load(KEYRING_SERVICE, key) {
            Fetched::Found(auth) => Ok(Some(auth)),
            Fetched::Missing => Ok(None),
            Fetched::Malformed(why) => Err(
                StoreError::with_context(
                    StoreErrorKind::Serialization,
                    DESERIALIZE_CONTEXT,
                    why.as_str(),
                ),
            ),
            Fetched::Failed(why) => Err(
                StoreError::with_context(
                    StoreErrorKind::BackendUnavailable,
                    LOAD_CONTEXT,
                    why.as_str(),
                ),
            ),
        }
    }

    /// Puts the document under the key.
    pub fn save_to_keyring<K: KeyringStore<AuthDotJson>>(
        keyring: &mut K,
        key: &str,
        value: &AuthDotJson,
    ) -> (saved: Result<(), StoreError>)
        ensures
            saved_view(saved) == match old(keyring).model().put_outcome((KEYRING_SERVICE@, key@)) {
                Ok(()) => Ok(()),
                Err(why) => Err(failure(StoreErrorKind::BackendUnavailable, SAVE_CONTEXT@, why)),
            },
            final(keyring).model() == old(keyring).model().after_put(
                (KEYRING_SERVICE@, key@),
                value@,
            ),
    {
        match keyring.save(KEYRING_SERVICE, key, value) {
            Ok(()) => Ok(()),
            Err(why) => Err(
                StoreError::with_context(
                    StoreErrorKind::BackendUnavailable,
                    SAVE_CONTEXT,
                    why.as_str(),
                ),
            ),
        }
    }
}

impl AuthStorageBackend for KeyringAuthStorage {
    open spec fn load_spec(&self, world: AuthWorld) -> AuthLoaded {
        keyring_load(world, self.paths@)
    }

    open spec fn save_spec(&self, world: AuthWorld) -> AuthSaved {
        keyring_save(world, self.paths@)
    }

    open spec fn after_save(&self, world: AuthWorld, auth: AuthDotJsonView) -> AuthWorld {
        after_keyring_save(world, self.paths@, auth)
    }

    open spec fn delete_spec(&self, world: AuthWorld) -> AuthRemoved {
        keyring_delete(world, self.paths@)
    }

    open spec fn after_delete(&self, world: AuthWorld) -> AuthWorld {
        after_keyring_delete(world, self.paths@)
    }

    fn load<K: KeyringStore<AuthDotJson>, F: FileStore<AuthDotJson>>(
        &self,
        stores: &Stores<AuthDotJson, K, F>,
    ) -> (loaded: Result<Option<AuthDotJson>, StoreError>) {
        let key = compute_store_key(self.paths.code_home.as_str());
        Self::load_from_keyring(&stores.keyring, key.as_str())
    }

    fn save<K: KeyringStore<AuthDotJson>, F: FileStore<AuthDotJson>>(
        &self,
        stores: &mut Stores<AuthDotJson, K, F>,
        auth: &AuthDotJson,
    ) -> (saved: Result<(), StoreError>) {
        let key = compute_store_key(self.paths.code_home.as_str());
        match Self::save_to_keyring(&mut stores.keyring, key.as_str(), auth) {
            Ok(()) => {},
            Err(e) => {
                return Err(e);
            },
        }
        let _ = delete_auth_files_if_exists(&mut stores.files, &self.paths);
        Ok(())
    }

    fn delete<K: KeyringStore<AuthDotJson>, F: FileStore<AuthDotJson>>(
        &self,
        stores: &mut Stores<AuthDotJson, K, F>,
    ) -> (removed: Result<bool, StoreError>) {
        let key = compute_store_key(self.paths.code_home.as_str());
        let entry_removed = match stores.keyring.delete(KEYRING_SERVICE, key.as_str()) {
            Ok(removed) => removed,
            Err(why) => {
                return Err(
                    StoreError::with_context(
                        StoreErrorKind::BackendUnavailable,
                        DELETE_CONTEXT,
                        why.as_str(),
                    ),
                );
            },
        };
        match delete_auth_files_if_exists(&mut stores.files, &self.paths) {
            Ok(file_removed) => Ok(entry_removed || file_removed),
            Err(e) => Err(e),
        }
    }
}

/// The backend that prefers the keyring and falls back on the file: a
/// keyring that fails or holds nothing never keeps a load from the file, a
/// keyring that fails never keeps a save from being made, and a keyring that
/// fails never keeps the files from being removed.
#[derive(Debug)]
pub struct AutoAuthStorage {
    pub keyring_storage: KeyringAuthStorage,
    pub file_storage: FileAuthStorage,
}

impl AutoAuthStorage {
    pub fn new(paths: AuthPaths) -> (storage: Self)
        ensures
            storage.keyring_storage.paths@ == paths@,
            storage.file_storage.paths@ == paths@,
    {
        AutoAuthStorage {
            keyring_storage: KeyringAuthStorage::new(paths.clone()),
            file_storage: FileAuthStorage::new(paths),
        }
    }
}

impl AuthStorageBackend for AutoAuthStorage {
    open spec fn load_spec(&self, world: AuthWorld) -> AuthLoaded {
        match self.keyring_storage.load_spec(world) {
            Ok(Some(auth)) => Ok(Some(auth)),
            _ => self.file_storage.load_spec(world),
        }
    }

    open spec fn save_spec(&self, world: AuthWorld) -> AuthSaved {
        match self.keyring_storage.save_spec(world) {
            Ok(()) => Ok(()),
            Err(_) => self.file_storage.save_spec(world),
        }
    }

    open spec fn after_save(&self, world: AuthWorld, auth: AuthDotJsonView) -> AuthWorld {
        match self.keyring_storage.save_spec(world) {
            Ok(()) => self.keyring_storage.after_save(world, auth),
            Err(_) => self.file_storage.after_save(world, auth),
        }
    }

    open spec fn delete_spec(&self, world: AuthWorld) -> AuthRemoved {
        match world.keyring.take_outcome(self.keyring_storage.paths@.keyring_entry()) {
            Ok(entry_removed) => match self.file_storage.delete_spec(world) {
                Err(e) => Err(e),
                Ok(file_removed) => Ok(entry_removed || file_removed),
            },
            Err(_) => self.file_storage.delete_spec(world),
        }
    }

    open spec fn after_delete(&self, world: AuthWorld) -> AuthWorld {
        World {
            keyring: world.keyring.after_take(self.keyring_storage.paths@.keyring_entry()),
            files: self.file_storage.after_delete(world).files,
            ..world
        }
    }

    fn load<K: KeyringStore<AuthDotJson>, F: FileStore<AuthDotJson>>(
        &self,
        stores: &Stores<AuthDotJson, K, F>,
    ) -> (loaded: Result<Option<AuthDotJson>, StoreError>) {
        match self.keyring_storage.load(stores) {
            Ok(Some(auth)) => Ok(Some(auth)),
            Ok(None) => self.file_storage.load(stores),
            Err(_) => self.file_storage.load(stores),
        }
    }

    fn save<K: KeyringStore<AuthDotJson>, F: FileStore<AuthDotJson>>(
        &self,
        stores: &mut Stores<AuthDotJson, K, F>,
        auth: &AuthDotJson,
    ) -> (saved: Result<(), StoreError>) {
        match self.keyring_storage.save(stores, auth) {
            Ok(()) => Ok(()),
            Err(_) => self.file_storage.save(stores, auth),
        }
    }

    fn delete<K: KeyringStore<AuthDotJson>, F: FileStore<AuthDotJson>>(
        &self,
        stores: &mut Stores<AuthDotJson, K, F>,
    ) -> (removed: Result<bool, StoreError>) {
        let key = compute_store_key(self.keyring_storage.paths.code_home.as_str());
        let entry_removed = match stores.keyring.delete(KEYRING_SERVICE, key.as_str()) {
            Ok(removed) => removed,
            Err(_) => false,
        };
        match self.file_storage.delete(stores) {
            Ok(file_removed) => Ok(entry_removed || file_removed),
            Err(e) => Err(e),
        }
    }
}

/// The backend that keeps the credential set in memory, under the root's
/// storage key. Nothing is written to disk.
#[derive(Debug)]
pub struct EphemeralAuthStorage {
    pub paths: AuthPaths,
}

impl EphemeralAuthStorage {
    pub fn new(paths: AuthPaths) -> (storage: Self)
        ensures
            storage.paths == paths,
    {
        EphemeralAuthStorage { paths }
    }

    /// The key to use in the in-memory store, or the error of a store that
    /// cannot be locked.
    pub fn with_store(&self, store: &crate::memory::EphemeralStore<AuthDotJson>) -> (key: Result<
        String,
        StoreError,
    >)
        ensures
            match key {
                Ok(k) => !store.model().poisoned && k@ == self.paths@.store_key(),
                Err(e) => store.model().poisoned && e@ == lock_failure(),
            },
    {
        if store.is_poisoned() {
            Err(StoreError { kind: StoreErrorKind::Lock, message: String::from_str(LOCK_MESSAGE) })
        } else {
            Ok(compute_store_key(self.paths.code_home.as_str()))
        }
    }
}

impl AuthStorageBackend for EphemeralAuthStorage {
    open spec fn load_spec(&self, world: AuthWorld) -> AuthLoaded {
        ephemeral_load(world, self.paths@)
    }

    open spec fn save_spec(&self, world: AuthWorld) -> AuthSaved {
        ephemeral_save(world, self.paths@)
    }

    open spec fn after_save(&self, world: AuthWorld, auth: AuthDotJsonView) -> AuthWorld {
        after_ephemeral_save(world, self.paths@, auth)
    }

    open spec fn delete_spec(&self, world: AuthWorld) -> AuthRemoved {
        ephemeral_delete(world, self.paths@)
    }

    open spec fn after_delete(&self, world: AuthWorld) -> AuthWorld {
        after_ephemeral_delete(world, self.paths@)
    }

    fn load<K: KeyringStore<AuthDotJson>, F: FileStore<AuthDotJson>>(
        &self,
        stores: &Stores<AuthDotJson, K, F>,
    ) -> (loaded: Result<Option<AuthDotJson>, StoreError>) {
        match self.with_store(&stores.ephemeral) {
            Ok(key) => Ok(stores.ephemeral.get(key.as_str())),
            Err(e) => Err(e),
        }
    }

    fn save<K: KeyringStore<AuthDotJson>, F: FileStore<AuthDotJson>>(
        &self,
        stores: &mut Stores<AuthDotJson, K, F>,
        auth: &AuthDotJson,
    ) -> (saved: Result<(), StoreError>) {
        match self.with_store(&stores.ephemeral) {
            Ok(key) => {
                stores.ephemeral.insert(key.as_str(), auth);
            },
            Err(e) => {
                return Err(e);
            },
        }
        let _ = delete_auth_files_if_exists(&mut stores.files, &self.paths);
        Ok(())
    }

    fn delete<K: KeyringStore<AuthDotJson>, F: FileStore<AuthDotJson>>(
        &self,
        stores: &mut Stores<AuthDotJson, K, F>,
    ) -> (removed: Result<bool, StoreError>) {
        match self.with_store(&stores.ephemeral) {
            Ok(key) => Ok(stores.ephemeral.remove(key.as_str())),
            Err(e) => Err(e),
        }
    }
}

/// A backend chosen by the configured mode.
#[derive(Debug)]
pub enum AuthStorage {
    File(FileAuthStorage),
    Keyring(KeyringAuthStorage),
    Auto(AutoAuthStorage),
    Ephemeral(EphemeralAuthStorage),
}

impl AuthStorageBackend for AuthStorage {
    open spec fn load_spec(&self, world: AuthWorld) -> AuthLoaded {
        match self {
            AuthStorage::File(storage) => storage.load_spec(world),
            AuthStorage::Keyring(storage) => storage.load_spec(world),
            AuthStorage::Auto(storage) => storage.load_spec(world),
            AuthStorage::Ephemeral(storage) => storage.load_spec(world),
        }
    }

    open spec fn save_spec(&self, world: AuthWorld) -> AuthSaved {
        match self {
            AuthStorage::File(storage) => storage.save_spec(world),
            AuthStorage::Keyring(storage) => storage.save_spec(world),
            AuthStorage::Auto(storage) => storage.save_spec(world),
            AuthStorage::Ephemeral(storage) => storage.save_spec(world),
        }
    }

    open spec fn after_save(&self, world: AuthWorld, auth: AuthDotJsonView) -> AuthWorld {
        match self {
            AuthStorage::File(storage) => storage.after_save(world, auth),
            AuthStorage::Keyring(storage) => storage.after_save(world, auth),
            AuthStorage::Auto(storage) => storage.after_save(world, auth),
            AuthStorage::Ephemeral(storage) => storage.after_save(world, auth),
        }
    }

    open spec fn delete_spec(&self, world: AuthWorld) -> AuthRemoved {
        match self {
            AuthStorage::File(storage) => storage.delete_spec(world),
            AuthStorage::Keyring(storage) => storage.delete_spec(world),
            AuthStorage::Auto(storage) => storage.delete_spec(world),
            AuthStorage::Ephemeral(storage) => storage.delete_spec(world),
        }
    }

    open spec fn after_delete(&self, world: AuthWorld) -> AuthWorld {
        match self {
            AuthStorage::File(storage) => storage.after_delete(world),
            AuthStorage::Keyring(storage) => storage.after_delete(world),
            AuthStorage::Auto(storage) => storage.after_delete(world),
            AuthStorage::Ephemeral(storage) => storage.after_delete(world),
        }
    }

    fn load<K: KeyringStore<AuthDotJson>, F: FileStore<AuthDotJson>>(
        &self,
        stores: &Stores<AuthDotJson, K, F>,
    ) -> (loaded: Result<Option<AuthDotJson>, StoreError>) {
        match self {
            AuthStorage::File(storage) => storage.load(stores),
            AuthStorage::Keyring(storage) => storage.load(stores),
            AuthStorage::Auto(storage) => storage.load(stores),
            AuthStorage::Ephemeral(storage) => storage.load(stores),
        }
    }

    fn save<K: KeyringStore<AuthDotJson>, F: FileStore<AuthDotJson>>(
        &self,
        stores: &mut Stores<AuthDotJson, K, F>,
        auth: &AuthDotJson,
    ) -> (saved: Result<(), StoreError>) {
        match self {
            AuthStorage::File(storage) => storage.save(stores, auth),
            AuthStorage::Keyring(storage) => storage.save(stores, auth),
            AuthStorage::Auto(storage) => storage.save(stores, auth),
            AuthStorage::Ephemeral(storage) => storage.save(stores, auth),
        }
    }

    fn delete<K: KeyringStore<AuthDotJson>, F: FileStore<AuthDotJson>>(
        &self,
        stores: &mut Stores<AuthDotJson, K, F>,
    ) -> (removed: Result<bool, StoreError>) {
        match self {
            AuthStorage::File(storage) => storage.delete(stores),
            AuthStorage::Keyring(storage) => storage.delete(stores),
            AuthStorage::Auto(storage) => storage.delete(stores),
            AuthStorage::Ephemeral(storage) => storage.delete(stores),
        }
    }
}

/// The backend for a root directory in the given mode.
pub fn create_auth_storage(paths: AuthPaths, mode: AuthCredentialsStoreMode) -> (storage:
    AuthStorage)
    ensures
        match mode {
            AuthCredentialsStoreMode::File => storage matches AuthStorage::File(s) && s.paths@
                == paths@,
            AuthCredentialsStoreMode::Keyring => storage matches AuthStorage::Keyring(s)
                && s.paths@ == paths@,
            AuthCredentialsStoreMode::Auto => storage matches AuthStorage::Auto(s)
                && s.keyring_storage.paths@ == paths@ && s.file_storage.paths@ == paths@,
            AuthCredentialsStoreMode::Ephemeral => storage matches AuthStorage::Ephemeral(s)
                && s.paths@ == paths@,
        },
{
    match mode {
        AuthCredentialsStoreMode::File => AuthStorage::File(FileAuthStorage::new(paths)),
        AuthCredentialsStoreMode::Keyring => AuthStorage::Keyring(KeyringAuthStorage::new(paths)),
        AuthCredentialsStoreMode::Auto => AuthStorage::Auto(AutoAuthStorage::new(paths)),
        AuthCredentialsStoreMode::Ephemeral => AuthStorage::Ephemeral(
            EphemeralAuthStorage::new(paths),
        ),
    }
}

// ---------------------------------------------------------------------
// What holds of the backends
// ---------------------------------------------------------------------

/// A credential set that the file backend saved is what it loads next,
/// where it reads the file that it writes.
pub proof fn lemma_file_round_trip(world: AuthWorld, paths: AuthPathsView, auth: AuthDotJsonView)
    requires
        file_save(world, paths) is Ok,
        paths.read_file == paths.auth_file,
        !world.files.read_faults.contains_key(paths.read_file),
    ensures
        file_load(after_file_save(world, paths, auth), paths) == Ok::<
            Option<AuthDotJsonView>,
            StoreErrorView,
        >(Some(auth)),
{
}

/// A credential set that the keyring backend saved is what it loads next,
/// unless the keyring refuses to be read.
pub proof fn lemma_keyring_round_trip(
    world: AuthWorld,
    paths: AuthPathsView,
    auth: AuthDotJsonView,
)
    requires
        keyring_save(world, paths) is Ok,
        !world.keyring.read_faults.contains_key(paths.keyring_entry()),
    ensures
        keyring_load(after_keyring_save(world, paths, auth), paths) == Ok::<
            Option<AuthDotJsonView>,
            StoreErrorView,
        >(Some(auth)),
{
}

/// A credential set that the ephemeral backend saved is what it loads next.
pub proof fn lemma_ephemeral_round_trip(
    world: AuthWorld,
    paths: AuthPathsView,
    auth: AuthDotJsonView,
)
    requires
        ephemeral_save(world, paths) is Ok,
    ensures
        ephemeral_load(after_ephemeral_save(world, paths, auth), paths) == Ok::<
            Option<AuthDotJsonView>,
            StoreErrorView,
        >(Some(auth)),
{
}

/// Where the keyring fails to load and the file holds a credential set, the
/// automatic backend loads the file's, and reports no error.
pub proof fn lemma_auto_load_falls_back(
    world: AuthWorld,
    paths: AuthPathsView,
    auth: AuthDotJsonView,
)
    requires
        world.keyring.fetch(paths.keyring_entry()) is Failed,
        world.files.fetch(paths.read_file) == FetchedView::Found(auth),
    ensures
        auto_load(world, paths) == Ok::<Option<AuthDotJsonView>, StoreErrorView>(Some(auth)),
{
}

/// Where the keyring fails to save, the automatic backend saves to the
/// file: the save is made unless the file fails too.
pub proof fn lemma_auto_save_falls_back(
    world: AuthWorld,
    paths: AuthPathsView,
    auth: AuthDotJsonView,
)
    requires
        world.keyring.put_outcome(paths.keyring_entry()) is Err,
    ensures
        auto_save(world, paths) == file_save(world, paths),
        after_auto_save(world, paths, auth) == after_file_save(world, paths, auth),
        auto_save(world, paths) is Ok ==> after_auto_save(
            world,
            paths,
            auth,
        ).files.slots[paths.auth_file] == crate::media::Slot::Document(auth),
{
}

/// A save that the keyring took leaves no file of the file backend behind,
/// where the files let themselves be removed; the next load, by the keyring
/// backend or the automatic one, gives the saved credential set.
pub proof fn lemma_keyring_save_cleans_up(
    world: AuthWorld,
    paths: AuthPathsView,
    auth: AuthDotJsonView,
)
    requires
        keyring_save(world, paths) is Ok,
        !world.files.remove_faults.contains_key(paths.auth_file),
        !world.files.remove_faults.contains_key(paths.read_file),
        !world.keyring.read_faults.contains_key(paths.keyring_entry()),
    ensures
        !after_keyring_save(world, paths, auth).files.occupied(paths.auth_file),
        !after_keyring_save(world, paths, auth).files.occupied(paths.read_file),
        keyring_load(after_keyring_save(world, paths, auth), paths) == Ok::<
            Option<AuthDotJsonView>,
            StoreErrorView,
        >(Some(auth)),
        auto_load(after_keyring_save(world, paths, auth), paths) == Ok::<
            Option<AuthDotJsonView>,
            StoreErrorView,
        >(Some(auth)),
{
}

/// A save by the ephemeral backend puts nothing on disk or in the keyring,
/// and what it saved is not found through an in-memory store made afresh.
pub proof fn lemma_ephemeral_is_isolated(
    world: AuthWorld,
    paths: AuthPathsView,
    auth: AuthDotJsonView,
)
    ensures
        after_ephemeral_save(world, paths, auth).keyring == world.keyring,
        forall|path: Seq<char>| #[trigger]
            after_ephemeral_save(world, paths, auth).files.occupied(path)
                ==> world.files.occupied(path),
        ephemeral_load(
            World {
                ephemeral: crate::memory::EphemeralModel {
                    entries: Map::empty(),
                    poisoned: false,
                },
                ..after_ephemeral_save(world, paths, auth)
            },
            paths,
        ) == Ok::<Option<AuthDotJsonView>, StoreErrorView>(None),
{
}

/// A keyring that refuses the removal does not block the automatic
/// backend: a file of the file backend is removed all the same and the
/// removal reports that something was removed; made again, it reports that
/// nothing was there.
pub proof fn lemma_auto_delete_survives_keyring(world: AuthWorld, paths: AuthPathsView)
    requires
        world.keyring.take_outcome(paths.keyring_entry()) is Err,
        world.files.occupied(paths.auth_file) || world.files.occupied(paths.read_file),
        !world.files.remove_faults.contains_key(paths.auth_file),
        !world.files.remove_faults.contains_key(paths.read_file),
    ensures
        auto_delete(world, paths) == Ok::<bool, StoreErrorView>(true),
        !after_auto_delete(world, paths).files.occupied(paths.auth_file),
        !after_auto_delete(world, paths).files.occupied(paths.read_file),
        after_auto_delete(world, paths).keyring == world.keyring,
        auto_delete(after_auto_delete(world, paths), paths) == Ok::<bool, StoreErrorView>(false),
{
}

/// The automatic backend reports that something was removed at most once:
/// after a removal without failure, the same removal reports that nothing
/// was there, whether the keyring serves or refuses.
pub proof fn lemma_auto_delete_once(world: AuthWorld, paths: AuthPathsView)
    requires
        auto_delete(world, paths) is Ok,
    ensures
        auto_delete(after_auto_delete(world, paths), paths) == Ok::<bool, StoreErrorView>(false),
{
}

/// A removal leaves nothing to remove: where the keyring backend removed
/// without failure, the same removal made again reports that nothing was
/// there.
pub proof fn lemma_keyring_delete_once(world: AuthWorld, paths: AuthPathsView)
    requires
        keyring_delete(world, paths) is Ok,
    ensures
        keyring_delete(after_keyring_delete(world, paths), paths) == Ok::<bool, StoreErrorView>(
            false,
        ),
{
}

} // verus!
