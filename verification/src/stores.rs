//! The three media of one store, handed together to its operations, and the
//! steps that every backend is made of.

use crate::error::{StoreError, StoreErrorKind, StoreErrorView};
use crate::media::{Document, FileStore, KeyringStore, StoreModel};
use crate::memory::{EphemeralModel, EphemeralStore};
use vstd::prelude::*;

verus! {

/// The media of one store: a keyring, a directory of files, and the
/// in-memory store of the ephemeral backend.
pub struct Stores<V, K, F> {
    pub keyring: K,
    pub files: F,
    pub ephemeral: EphemeralStore<V>,
}

/// The media of one store as a mathematical value.
pub struct World<D> {
    pub keyring: StoreModel<(Seq<char>, Seq<char>), D>,
    pub files: StoreModel<Seq<char>, D>,
    pub ephemeral: EphemeralModel<D>,
}

impl<V: Document, K: KeyringStore<V>, F: FileStore<V>> View for Stores<V, K, F> {
    type V = World<V::V>;

    open spec fn view(&self) -> World<V::V> {
        World {
            keyring: self.keyring.model(),
            files: self.files.model(),
            ephemeral: self.ephemeral.model(),
        }
    }
}

impl<V: Document, K: KeyringStore<V>, F: FileStore<V>> Stores<V, K, F> {
    /// Puts the three media together.
    pub fn new(keyring: K, files: F, ephemeral: EphemeralStore<V>) -> (stores: Self)
        ensures
            stores.keyring == keyring,
            stores.files == files,
            stores.ephemeral == ephemeral,
    {
        Stores { keyring, files, ephemeral }
    }
}

/// The view of what a load returned.
pub open spec fn loaded_view<V: View>(r: Result<Option<V>, StoreError>) -> Result<
    Option<V::V>,
    StoreErrorView,
> {
    match r {
        Ok(Some(v)) => Ok(Some(v@)),
        Ok(None) => Ok(None),
        Err(e) => Err(e@),
    }
}

/// The view of what a save returned.
pub open spec fn saved_view(r: Result<(), StoreError>) -> Result<(), StoreErrorView> {
    match r {
        Ok(()) => Ok(()),
        Err(e) => Err(e@),
    }
}

/// The view of what a removal returned.
pub open spec fn removed_view(r: Result<bool, StoreError>) -> Result<bool, StoreErrorView> {
    match r {
        Ok(b) => Ok(b),
        Err(e) => Err(e@),
    }
}

/// What removing the file at `path` reports: whether there was one; a
/// missing file is no error.
pub open spec fn delete_file_outcome<D>(files: StoreModel<Seq<char>, D>, path: Seq<char>) -> Result<
    bool,
    StoreErrorView,
> {
    match files.take_outcome(path) {
        Ok(removed) => Ok(removed),
        Err(why) => Err(StoreErrorView { kind: StoreErrorKind::Io, message: why }),
    }
}

/// Removes the file at `path` if there is one.
pub fn delete_file_if_exists<V: View, F: FileStore<V>>(files: &mut F, path: &str) -> (removed:
    Result<bool, StoreError>)
    ensures
        removed_view(removed) == delete_file_outcome(old(files).model(), path@),
        final(files).model() == old(files).model().after_take(path@),
{
    match files.remove(path) {
        Ok(removed) => Ok(removed),
        Err(why) => Err(StoreError { kind: StoreErrorKind::Io, message: why }),
    }
}

/// The files after an attempt to remove the one at `first` and, where it is
/// another path, the one at `second`; the second is not tried when the first
/// removal fails.
pub open spec fn after_delete_files<D>(
    files: StoreModel<Seq<char>, D>,
    first: Seq<char>,
    second: Seq<char>,
) -> StoreModel<Seq<char>, D> {
    if files.take_outcome(first) is Err || second == first {
        files.after_take(first)
    } else {
        files.after_take(first).after_take(second)
    }
}

/// What that attempt reports: whether any file was removed, or the first
/// failure.
pub open spec fn delete_files_outcome<D>(
    files: StoreModel<Seq<char>, D>,
    first: Seq<char>,
    second: Seq<char>,
) -> Result<bool, StoreErrorView> {
    match delete_file_outcome(files, first) {
        Err(e) => Err(e),
        Ok(first_removed) => if second == first {
            Ok(first_removed)
        } else {
            match delete_file_outcome(files.after_take(first), second) {
                Err(e) => Err(e),
                Ok(second_removed) => Ok(first_removed || second_removed),
            }
        },
    }
}

/// Removes the file at `first` and, where it is another path, the file at
/// `second`. Tells whether anything was removed.
pub fn delete_files_if_exist<V: View, F: FileStore<V>>(
    files: &mut F,
    first: &str,
    second: &str,
) -> (removed: Result<bool, StoreError>)
    ensures
        removed_view(removed) == delete_files_outcome(old(files).model(), first@, second@),
        final(files).model() == after_delete_files(old(files).model(), first@, second@),
{
    let first_removed = match delete_file_if_exists(files, first) {
        Ok(removed) => removed,
        Err(e) => {
            return Err(e);
        },
    };
    if crate::text::same_text(second, first) {
        return Ok(first_removed);
    }
    match delete_file_if_exists(files, second) {
        Ok(second_removed) => Ok(first_removed || second_removed),
        Err(e) => Err(e),
    }
}

} // verus!
