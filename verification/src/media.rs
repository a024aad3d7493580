//! The storage media that the backends are built on, seen as keyed slots:
//! a keyring addressed by service and key, and a directory of files addressed
//! by path. Each medium holds whole documents; how a document is written down
//! on the medium is the medium's business.

use vstd::prelude::*;

verus! {

/// The operations that a medium can refuse.
#[derive(Clone, Copy, Debug, PartialEq, Eq, Structural)]
pub enum Access {
    /// Looking at an address.
    Read,
    /// Storing a document.
    Write,
    /// Clearing an address.
    Remove,
}

/// What one address of a medium holds.
pub enum Slot<D> {
    /// A well-formed document.
    Document(D),
    /// Something that cannot be read back as a document; the text says why.
    Unreadable(Seq<char>),
}

/// A medium as a mathematical value: the slots that are occupied, and the
/// addresses at which the medium refuses to look, to store or to clear, each
/// with the message of the refusal.
#[verifier::reject_recursive_types(K)]
pub struct StoreModel<K, D> {
    pub slots: Map<K, Slot<D>>,
    pub read_faults: Map<K, Seq<char>>,
    pub write_faults: Map<K, Seq<char>>,
    pub remove_faults: Map<K, Seq<char>>,
}

/// What looking at one address gave, as a mathematical value.
pub enum FetchedView<D> {
    Found(D),
    Missing,
    Malformed(Seq<char>),
    Failed(Seq<char>),
}

impl<K, D> StoreModel<K, D> {
    /// A medium that holds nothing and refuses nothing.
    pub open spec fn empty() -> Self {
        StoreModel {
            slots: Map::empty(),
            read_faults: Map::empty(),
            write_faults: Map::empty(),
            remove_faults: Map::empty(),
        }
    }

    /// The medium made to refuse one operation at `at`.
    pub open spec fn with_fault(self, access: Access, at: K, message: Seq<char>) -> Self {
        match access {
            Access::Read => StoreModel { read_faults: self.read_faults.insert(at, message), ..self },
            Access::Write => StoreModel {
                write_faults: self.write_faults.insert(at, message),
                ..self
            },
            Access::Remove => StoreModel {
                remove_faults: self.remove_faults.insert(at, message),
                ..self
            },
        }
    }

    /// The medium made to serve every operation at `at`.
    pub open spec fn without_faults(self, at: K) -> Self {
        StoreModel {
            slots: self.slots,
            read_faults: self.read_faults.remove(at),
            write_faults: self.write_faults.remove(at),
            remove_faults: self.remove_faults.remove(at),
        }
    }

    /// The medium with something at `at` that is no document.
    pub open spec fn with_unreadable(self, at: K, why: Seq<char>) -> Self {
        StoreModel { slots: self.slots.insert(at, Slot::Unreadable(why)), ..self }
    }

    /// Whether the address holds anything, readable or not.
    pub open spec fn occupied(self, at: K) -> bool {
        self.slots.contains_key(at)
    }

    /// What a look at `at` gives.
    pub open spec fn fetch(self, at: K) -> FetchedView<D> {
        if self.read_faults.contains_key(at) {
            FetchedView::Failed(self.read_faults[at])
        } else if !self.slots.contains_key(at) {
            FetchedView::Missing
        } else {
            match self.slots[at] {
                Slot::Document(d) => FetchedView::Found(d),
                Slot::Unreadable(why) => FetchedView::Malformed(why),
            }
        }
    }

    /// The medium after an attempt to store `doc` at `at`.
    pub open spec fn after_put(self, at: K, doc: D) -> Self {
        if self.write_faults.contains_key(at) {
            self
        } else {
            StoreModel { slots: self.slots.insert(at, Slot::Document(doc)), ..self }
        }
    }

    /// What an attempt to store at `at` reports.
    pub open spec fn put_outcome(self, at: K) -> Result<(), Seq<char>> {
        if self.write_faults.contains_key(at) {
            Err(self.write_faults[at])
        } else {
            Ok(())
        }
    }

    /// The medium after an attempt to clear `at`.
    pub open spec fn after_take(self, at: K) -> Self {
        if self.remove_faults.contains_key(at) {
            self
        } else {
            StoreModel { slots: self.slots.remove(at), ..self }
        }
    }

    /// What an attempt to clear `at` reports: whether something was there.
    pub open spec fn take_outcome(self, at: K) -> Result<bool, Seq<char>> {
        if self.remove_faults.contains_key(at) {
            Err(self.remove_faults[at])
        } else {
            Ok(self.slots.contains_key(at))
        }
    }
}

/// What looking at one address of a medium gave.
#[derive(Debug, PartialEq, Eq)]
pub enum Fetched<V> {
    /// The address holds this document.
    Found(V),
    /// The address holds nothing.
    Missing,
    /// The address holds something that is no document.
    Malformed(String),
    /// The medium refused.
    Failed(String),
}

impl<V: View> View for Fetched<V> {
    type V = FetchedView<V::V>;

    open spec fn view(&self) -> FetchedView<V::V> {
        match self {
            Fetched::Found(v) => FetchedView::Found(v@),
            Fetched::Missing => FetchedView::Missing,
            Fetched::Malformed(why) => FetchedView::Malformed(why@),
            Fetched::Failed(why) => FetchedView::Failed(why@),
        }
    }
}

/// The view of a medium's answer to a store request.
pub open spec fn put_view(r: Result<(), String>) -> Result<(), Seq<char>> {
    match r {
        Ok(()) => Ok(()),
        Err(why) => Err(why@),
    }
}

/// The view of a medium's answer to a clear request.
pub open spec fn take_view(r: Result<bool, String>) -> Result<bool, Seq<char>> {
    match r {
        Ok(b) => Ok(b),
        Err(why) => Err(why@),
    }
}

/// A value that can be copied without changing what it stands for.
pub trait Document: View + Sized {
    fn duplicate(&self) -> (copy: Self)
        ensures
            copy@ == self@,
    ;
}

/// What a keyring of documents `V` stands for.
pub type KeyringModel<V: View> = StoreModel<(Seq<char>, Seq<char>), <V as View>::V>;

/// What a directory of files with documents `V` stands for.
pub type FileModel<V: View> = StoreModel<Seq<char>, <V as View>::V>;

/// A keyring: documents under a service name and a key.
///
/// A keyring answers as its model says. It refuses an operation on an entry
/// exactly where the model lists a refusal for it, and a refused operation
/// changes nothing; what it does not refuse, it does. The rules of the
/// stores are proved of media that behave so.
pub trait KeyringStore<V: View> {
    spec fn model(&self) -> KeyringModel<V>;

    fn load(&self, service: &str, key: &str) -> (found: Fetched<V>)
        ensures
            found@ == self.model().fetch((service@, key@)),
    ;

    fn save(&mut self, service: &str, key: &str, value: &V) -> (saved: Result<(), String>)
        ensures
            put_view(saved) == old(self).model().put_outcome((service@, key@)),
            final(self).model() == old(self).model().after_put((service@, key@), value@),
    ;

    fn delete(&mut self, service: &str, key: &str) -> (removed: Result<bool, String>)
        ensures
            take_view(removed) == old(self).model().take_outcome((service@, key@)),
            final(self).model() == old(self).model().after_take((service@, key@)),
    ;
}

/// A directory of files: documents under paths. A file that is there but
/// holds no document is reported as malformed; a file that is not there, as
/// missing.
///
/// Like a keyring, a directory answers as its model says.
pub trait FileStore<V: View> {
    spec fn model(&self) -> FileModel<V>;

    fn read(&self, path: &str) -> (found: Fetched<V>)
        ensures
            found@ == self.model().fetch(path@),
    ;

    fn write(&mut self, path: &str, value: &V) -> (written: Result<(), String>)
        ensures
            put_view(written) == old(self).model().put_outcome(path@),
            final(self).model() == old(self).model().after_put(path@, value@),
    ;

    fn remove(&mut self, path: &str) -> (removed: Result<bool, String>)
        ensures
            take_view(removed) == old(self).model().take_outcome(path@),
            final(self).model() == old(self).model().after_take(path@),
    ;
}

} // verus!
