//! Media that live in memory: a keyring and a directory of files that hold
//! their documents in a list, with addresses that can be made to refuse, and
//! the store behind the ephemeral backend.

use crate::media::{
    put_view, take_view, Access, Document, Fetched, FileStore, KeyringStore, Slot, StoreModel,
};
use vstd::prelude::*;

verus! {

/// One association of a two-part address with a value.
pub struct Assoc<T> {
    pub scope: String,
    pub name: String,
    pub value: T,
}

impl<T> Assoc<T> {
    pub open spec fn address(self) -> (Seq<char>, Seq<char>) {
        (self.scope@, self.name@)
    }
}

/// The map that a list of associations stands for: of two associations with
/// one address, the later one counts.
pub open spec fn assoc_map<T>(s: Seq<Assoc<T>>) -> Map<(Seq<char>, Seq<char>), T>
    decreases s.len(),
{
    if s.len() == 0 {
        Map::empty()
    } else {
        assoc_map(s.drop_last()).insert(s.last().address(), s.last().value)
    }
}

/// Whether some association of the list has the address.
pub open spec fn assoc_has<T>(s: Seq<Assoc<T>>, at: (Seq<char>, Seq<char>)) -> bool {
    exists|i: int| 0 <= i < s.len() && (#[trigger] s[i]).address() == at
}

/// Whether `i` is the place of the last association with the address.
pub open spec fn assoc_last_at<T>(s: Seq<Assoc<T>>, at: (Seq<char>, Seq<char>), i: int) -> bool {
    &&& 0 <= i < s.len()
    &&& s[i].address() == at
    &&& forall|j: int| i < j < s.len() ==> (#[trigger] s[j]).address() != at
}

/// The map holds exactly the addresses of the list, each with the value of
/// the last association that has it.
pub proof fn lemma_assoc_lookup<T>(s: Seq<Assoc<T>>, at: (Seq<char>, Seq<char>))
    ensures
        assoc_map(s).contains_key(at) <==> assoc_has(s, at),
        forall|i: int| assoc_last_at(s, at, i) ==> assoc_map(s)[at] == s[i].value,
    decreases s.len(),
{
    if s.len() > 0 {
        let rest = s.drop_last();
        let n = s.len() - 1;
        lemma_assoc_lookup(rest, at);
        if s[n].address() == at {
            assert(assoc_has(s, at));
            assert forall|i: int| assoc_last_at(s, at, i) implies assoc_map(s)[at]
                == s[i].value by {
                if i < n {
                    assert(s[n].address() != at);
                }
            }
        } else {
            if assoc_has(s, at) {
                let i = choose|i: int| 0 <= i < s.len() && (#[trigger] s[i]).address() == at;
                assert(rest[i] == s[i]);
                assert(assoc_has(rest, at));
            }
            if assoc_has(rest, at) {
                let i = choose|i: int| 0 <= i < rest.len() && (#[trigger] rest[i]).address() == at;
                assert(s[i] == rest[i]);
                assert(assoc_has(s, at));
            }
            assert forall|i: int| assoc_last_at(s, at, i) implies assoc_map(s)[at]
                == s[i].value by {
                assert(rest[i] == s[i]);
                assert forall|j: int| i < j < rest.len() implies (#[trigger] rest[j]).address()
                    != at by {
                    assert(rest[j] == s[j]);
                }
                assert(assoc_last_at(rest, at, i));
            }
        }
    }
}

/// Taking one association with the address `at` out of the list changes
/// nothing in the map at other addresses.
pub proof fn lemma_assoc_remove<T>(s: Seq<Assoc<T>>, i: int, at: (Seq<char>, Seq<char>))
    requires
        0 <= i < s.len(),
        s[i].address() == at,
    ensures
        assoc_map(s.remove(i)).remove(at) == assoc_map(s).remove(at),
    decreases s.len(),
{
    let rest = s.drop_last();
    if i == s.len() - 1 {
        assert(s.remove(i) =~= rest);
        assert(assoc_map(rest).remove(at) =~= assoc_map(s).remove(at));
    } else {
        assert(rest.len() == s.len() - 1);
        lemma_assoc_remove(rest, i, at);
        let shorter = s.remove(i);
        assert(shorter.len() == s.len() - 1);
        assert(shorter.drop_last() =~= rest.remove(i));
        assert(shorter.last() == s.last());
        let a = assoc_map(rest.remove(i));
        let b = assoc_map(rest);
        let last_at = s.last().address();
        let last_value = s.last().value;
        assert(assoc_map(shorter) == a.insert(last_at, last_value));
        assert(assoc_map(s) == b.insert(last_at, last_value));
        let left = a.insert(last_at, last_value).remove(at);
        let right = b.insert(last_at, last_value).remove(at);
        assert forall|k: (Seq<char>, Seq<char>)|
            (#[trigger] left.contains_key(k) <==> right.contains_key(k)) && (left.contains_key(k)
                ==> left[k] == right[k]) by {
            if k != at && k != last_at {
                assert(a.remove(at).contains_key(k) <==> a.contains_key(k));
                assert(b.remove(at).contains_key(k) <==> b.contains_key(k));
                if a.contains_key(k) {
                    assert(a.remove(at)[k] == a[k]);
                    assert(b.remove(at)[k] == b[k]);
                }
            }
        }
        assert(left =~= right);
        assert(assoc_map(shorter).remove(at) =~= assoc_map(s).remove(at));
    }
}

/// The index of the last association with the given address, if there is one.
fn assoc_find<T>(list: &Vec<Assoc<T>>, scope: &String, name: &String) -> (at: Option<usize>)
    ensures
        at is None <==> !assoc_map(list@).contains_key((scope@, name@)),
        at matches Some(i) ==> i < list@.len() && list@[i as int].address() == (scope@, name@)
            && assoc_map(list@)[(scope@, name@)] == list@[i as int].value,
{
    let mut i: usize = list.len();
    while i > 0
        invariant
            i <= list@.len(),
            forall|j: int| i <= j < list@.len() ==> (#[trigger] list@[j]).address() != (scope@, name@),
        decreases i,
    {
        i = i - 1;
        if list[i].scope == *scope && list[i].name == *name {
            proof {
                lemma_assoc_lookup(list@, (scope@, name@));
                assert(assoc_last_at(list@, (scope@, name@), i as int));
                assert(assoc_has(list@, (scope@, name@)));
            }
            return Some(i);
        }
    }
    proof {
        lemma_assoc_lookup(list@, (scope@, name@));
    }
    None
}

/// Takes every association with the given address out of the list.
fn assoc_remove<T>(list: &mut Vec<Assoc<T>>, scope: &String, name: &String) -> (had: bool)
    ensures
        had == assoc_map(old(list)@).contains_key((scope@, name@)),
        assoc_map(final(list)@) == assoc_map(old(list)@).remove((scope@, name@)),
{
    let ghost at = (scope@, name@);
    let ghost before = assoc_map(list@);
    let mut had = false;
    let mut i: usize = 0;
    while i < list.len()
        invariant
            i <= list@.len(),
            at == (scope@, name@),
            forall|j: int| 0 <= j < i ==> (#[trigger] list@[j]).address() != at,
            assoc_map(list@).remove(at) == before.remove(at),
            before.contains_key(at) <==> (had || assoc_map(list@).contains_key(at)),
        decreases list@.len() - i,
    {
        if list[i].scope == *scope && list[i].name == *name {
            proof {
                lemma_assoc_remove(list@, i as int, at);
                lemma_assoc_lookup(list@, at);
                assert(assoc_has(list@, at));
            }
            let ghost prev = list@;
            list.remove(i);
            had = true;
            proof {
                assert forall|j: int| 0 <= j < i implies (#[trigger] list@[j]).address() != at by {
                    assert(list@[j] == prev[j]);
                }
            }
        } else {
            i = i + 1;
        }
    }
    proof {
        lemma_assoc_lookup(list@, at);
        assert(!assoc_has(list@, at));
        assert(assoc_map(list@) =~= assoc_map(list@).remove(at));
    }
    had
}

/// Associates the address with the value, in place of what it had.
fn assoc_put<T>(list: &mut Vec<Assoc<T>>, scope: &str, name: &str, value: T)
    ensures
        assoc_map(final(list)@) == assoc_map(old(list)@).insert((scope@, name@), value),
{
    let scope = scope.to_owned();
    let name = name.to_owned();
    let _ = assoc_remove(list, &scope, &name);
    let ghost mid = list@;
    list.push(Assoc { scope, name, value });
    proof {
        assert(list@.drop_last() =~= mid);
        assert(assoc_map(list@) =~= assoc_map(old(list)@).insert((scope@, name@), value));
    }
}

/// What an address of a medium in memory holds.
pub enum Content<V> {
    Document(V),
    Unreadable(String),
}

impl<V: View> View for Content<V> {
    type V = Slot<V::V>;

    open spec fn view(&self) -> Slot<V::V> {
        match self {
            Content::Document(v) => Slot::Document(v@),
            Content::Unreadable(why) => Slot::Unreadable(why@),
        }
    }
}

/// Slots under two-part addresses, held in memory.
pub struct SlotTable<V> {
    slots: Vec<Assoc<Content<V>>>,
    read_faults: Vec<Assoc<String>>,
    write_faults: Vec<Assoc<String>>,
    remove_faults: Vec<Assoc<String>>,
}

/// The refusals that a list of associations stands for.
pub open spec fn fault_map(list: Seq<Assoc<String>>) -> Map<(Seq<char>, Seq<char>), Seq<char>> {
    assoc_map(list).map_values(|m: String| m@)
}

/// The message with which the list refuses the address, if it does.
fn fault_at(list: &Vec<Assoc<String>>, scope: &String, name: &String) -> (why: Option<String>)
    ensures
        match why {
            Some(m) => fault_map(list@).contains_key((scope@, name@)) && fault_map(list@)[(
                scope@,
                name@,
            )] == m@,
            None => !fault_map(list@).contains_key((scope@, name@)),
        },
{
    match assoc_find(list, scope, name) {
        Some(i) => Some(list[i].value.clone()),
        None => None,
    }
}

impl<V: Document> SlotTable<V> {
    /// The table as a medium.
    pub closed spec fn model(&self) -> StoreModel<(Seq<char>, Seq<char>), V::V> {
        StoreModel {
            slots: assoc_map(self.slots@).map_values(|c: Content<V>| c@),
            read_faults: fault_map(self.read_faults@),
            write_faults: fault_map(self.write_faults@),
            remove_faults: fault_map(self.remove_faults@),
        }
    }

    /// A table that holds nothing and refuses nothing.
    pub fn new() -> (table: Self)
        ensures
            table.model() == StoreModel::<(Seq<char>, Seq<char>), V::V>::empty(),
    {
        let table = SlotTable {
            slots: Vec::new(),
            read_faults: Vec::new(),
            write_faults: Vec::new(),
            remove_faults: Vec::new(),
        };
        proof {
            assert(table.model().slots =~= Map::empty());
            assert(table.model().read_faults =~= Map::empty());
            assert(table.model().write_faults =~= Map::empty());
            assert(table.model().remove_faults =~= Map::empty());
        }
        table
    }

    /// Looks at one address.
    pub fn fetch(&self, scope: &str, name: &str) -> (found: Fetched<V>)
        ensures
            found@ == self.model().fetch((scope@, name@)),
    {
        let scope = scope.to_owned();
        let name = name.to_owned();
        match fault_at(&self.read_faults, &scope, &name) {
            Some(why) => {
                return Fetched::Failed(why);
            },
            None => {},
        }
        match assoc_find(&self.slots, &scope, &name) {
            None => Fetched::Missing,
            Some(i) => match &self.slots[i].value {
                Content::Document(v) => Fetched::Found(v.duplicate()),
                Content::Unreadable(why) => Fetched::Malformed(why.clone()),
            },
        }
    }

    /// Whether the address holds anything, whatever the table refuses.
    pub fn holds(&self, scope: &str, name: &str) -> (held: bool)
        ensures
            held == self.model().occupied((scope@, name@)),
    {
        let scope = scope.to_owned();
        let name = name.to_owned();
        assoc_find(&self.slots, &scope, &name).is_some()
    }

    /// The document at the address, whatever the table refuses.
    pub fn peek(&self, scope: &str, name: &str) -> (held: Option<V>)
        ensures
            match held {
                Some(v) => self.model().slots.contains_key((scope@, name@)) && self.model().slots[(
                    scope@,
                    name@,
                )] == Slot::Document(v@),
                None => !self.model().slots.contains_key((scope@, name@)) || self.model().slots[(
                    scope@,
                    name@,
                )] is Unreadable,
            },
    {
        let scope = scope.to_owned();
        let name = name.to_owned();
        match assoc_find(&self.slots, &scope, &name) {
            None => None,
            Some(i) => match &self.slots[i].value {
                Content::Document(v) => Some(v.duplicate()),
                Content::Unreadable(_) => None,
            },
        }
    }

    /// Stores a document at the address, unless the table refuses.
    pub fn put(&mut self, scope: &str, name: &str, value: &V) -> (saved: Result<(), String>)
        ensures
            put_view(saved) == old(self).model().put_outcome((scope@, name@)),
            final(self).model() == old(self).model().after_put((scope@, name@), value@),
    {
        let scope_owned = scope.to_owned();
        let name_owned = name.to_owned();
        match fault_at(&self.write_faults, &scope_owned, &name_owned) {
            Some(why) => {
                return Err(why);
            },
            None => {},
        }
        assoc_put(&mut self.slots, scope, name, Content::Document(value.duplicate()));
        proof {
            assert(self.model().slots =~= old(self).model().slots.insert(
                (scope@, name@),
                Slot::Document(value@),
            ));
        }
        Ok(())
    }

    /// Clears the address, unless the table refuses; tells whether it held
    /// anything.
    pub fn take(&mut self, scope: &str, name: &str) -> (removed: Result<bool, String>)
        ensures
            take_view(removed) == old(self).model().take_outcome((scope@, name@)),
            final(self).model() == old(self).model().after_take((scope@, name@)),
    {
        let scope = scope.to_owned();
        let name = name.to_owned();
        match fault_at(&self.remove_faults, &scope, &name) {
            Some(why) => {
                return Err(why);
            },
            None => {},
        }
        let had = assoc_remove(&mut self.slots, &scope, &name);
        proof {
            assert(self.model().slots =~= old(self).model().slots.remove((scope@, name@)));
        }
        Ok(had)
    }

    /// Makes the table refuse one operation at the address, with the given
    /// message.
    pub fn set_fault(&mut self, access: Access, scope: &str, name: &str, message: &str)
        ensures
            final(self).model() == old(self).model().with_fault(access, (scope@, name@), message@),
    {
        match access {
            Access::Read => {
                assoc_put(&mut self.read_faults, scope, name, message.to_owned());
                proof {
                    assert(self.model().read_faults =~= old(self).model().read_faults.insert(
                        (scope@, name@),
                        message@,
                    ));
                }
            },
            Access::Write => {
                assoc_put(&mut self.write_faults, scope, name, message.to_owned());
                proof {
                    assert(self.model().write_faults =~= old(self).model().write_faults.insert(
                        (scope@, name@),
                        message@,
                    ));
                }
            },
            Access::Remove => {
                assoc_put(&mut self.remove_faults, scope, name, message.to_owned());
                proof {
                    assert(self.model().remove_faults =~= old(self).model().remove_faults.insert(
                        (scope@, name@),
                        message@,
                    ));
                }
            },
        }
    }

    /// Lets the table serve every operation at the address again.
    pub fn clear_faults(&mut self, scope: &str, name: &str)
        ensures
            final(self).model() == old(self).model().without_faults((scope@, name@)),
    {
        let scope = scope.to_owned();
        let name = name.to_owned();
        let _ = assoc_remove(&mut self.read_faults, &scope, &name);
        let _ = assoc_remove(&mut self.write_faults, &scope, &name);
        let _ = assoc_remove(&mut self.remove_faults, &scope, &name);
        proof {
            let at = (scope@, name@);
            assert(self.model().read_faults =~= old(self).model().read_faults.remove(at));
            assert(self.model().write_faults =~= old(self).model().write_faults.remove(at));
            assert(self.model().remove_faults =~= old(self).model().remove_faults.remove(at));
        }
    }

    /// Puts something at the address that cannot be read back as a document.
    pub fn plant_unreadable(&mut self, scope: &str, name: &str, why: &str)
        ensures
            final(self).model() == old(self).model().with_unreadable((scope@, name@), why@),
    {
        assoc_put(&mut self.slots, scope, name, Content::Unreadable(why.to_owned()));
        proof {
            assert(self.model().slots =~= old(self).model().slots.insert(
                (scope@, name@),
                Slot::Unreadable(why@),
            ));
        }
    }
}

/// A keyring held in memory. An entry can be made to fail, and what the
/// keyring holds can be looked at from outside.
pub struct MemoryKeyring<V> {
    table: SlotTable<V>,
}

impl<V: Document> MemoryKeyring<V> {
    /// An empty keyring that serves every entry.
    pub fn new() -> (keyring: Self)
        ensures
            keyring.model() == StoreModel::<(Seq<char>, Seq<char>), V::V>::empty(),
    {
        MemoryKeyring { table: SlotTable::new() }
    }

    /// Makes every operation on the entry fail with the given message.
    pub fn set_error(&mut self, service: &str, key: &str, message: &str)
        ensures
            final(self).model() == old(self).model().with_fault(
                Access::Read,
                (service@, key@),
                message@,
            ).with_fault(Access::Write, (service@, key@), message@).with_fault(
                Access::Remove,
                (service@, key@),
                message@,
            ),
    {
        self.table.set_fault(Access::Read, service, key, message);
        self.table.set_fault(Access::Write, service, key, message);
        self.table.set_fault(Access::Remove, service, key, message);
    }

    /// Makes one operation on the entry fail with the given message.
    pub fn set_error_on(&mut self, access: Access, service: &str, key: &str, message: &str)
        ensures
            final(self).model() == old(self).model().with_fault(access, (service@, key@), message@),
    {
        self.table.set_fault(access, service, key, message);
    }

    /// Lets the keyring serve the entry again.
    pub fn clear_error(&mut self, service: &str, key: &str)
        ensures
            final(self).model() == old(self).model().without_faults((service@, key@)),
    {
        self.table.clear_faults(service, key);
    }

    /// The document under the entry, also where the entry is made to fail.
    pub fn saved_value(&self, service: &str, key: &str) -> (held: Option<V>)
        ensures
            match held {
                Some(v) => self.model().slots.contains_key((service@, key@))
                    && self.model().slots[(service@, key@)] == Slot::Document(v@),
                None => !self.model().slots.contains_key((service@, key@))
                    || self.model().slots[(service@, key@)] is Unreadable,
            },
    {
        self.table.peek(service, key)
    }

    /// Puts something under the entry that is no document.
    pub fn plant_unreadable(&mut self, service: &str, key: &str, why: &str)
        ensures
            final(self).model() == old(self).model().with_unreadable((service@, key@), why@),
    {
        self.table.plant_unreadable(service, key, why);
    }
}

impl<V: Document> KeyringStore<V> for MemoryKeyring<V> {
    closed spec fn model(&self) -> StoreModel<(Seq<char>, Seq<char>), V::V> {
        self.table.model()
    }

    fn load(&self, service: &str, key: &str) -> (found: Fetched<V>) {
        self.table.fetch(service, key)
    }

    fn save(&mut self, service: &str, key: &str, value: &V) -> (saved: Result<(), String>) {
        self.table.put(service, key, value)
    }

    fn delete(&mut self, service: &str, key: &str) -> (removed: Result<bool, String>) {
        self.table.take(service, key)
    }
}

/// The part of a map over two-part addresses whose first part is empty, by
/// the second part.
pub open spec fn by_name<T>(m: Map<(Seq<char>, Seq<char>), T>) -> Map<Seq<char>, T> {
    Map::new(
        |name: Seq<char>| m.contains_key((Seq::<char>::empty(), name)),
        |name: Seq<char>| m[(Seq::<char>::empty(), name)],
    )
}

/// The medium over one-part addresses that a table with an empty first part
/// stands for.
pub open spec fn named_model<D>(m: StoreModel<(Seq<char>, Seq<char>), D>) -> StoreModel<
    Seq<char>,
    D,
> {
    StoreModel {
        slots: by_name(m.slots),
        read_faults: by_name(m.read_faults),
        write_faults: by_name(m.write_faults),
        remove_faults: by_name(m.remove_faults),
    }
}

/// Changing a table at an address with an empty first part changes the
/// medium it stands for at the second part.
pub proof fn lemma_named_model<D>(
    m: StoreModel<(Seq<char>, Seq<char>), D>,
    name: Seq<char>,
    doc: D,
    access: Access,
    message: Seq<char>,
)
    ensures
        named_model(m).fetch(name) == m.fetch((Seq::<char>::empty(), name)),
        named_model(m).put_outcome(name) == m.put_outcome((Seq::<char>::empty(), name)),
        named_model(m).take_outcome(name) == m.take_outcome((Seq::<char>::empty(), name)),
        named_model(m).occupied(name) == m.occupied((Seq::<char>::empty(), name)),
        named_model(m.after_put((Seq::<char>::empty(), name), doc)) == named_model(m).after_put(
            name,
            doc,
        ),
        named_model(m.after_take((Seq::<char>::empty(), name))) == named_model(m).after_take(name),
        named_model(m.with_fault(access, (Seq::<char>::empty(), name), message)) == named_model(
            m,
        ).with_fault(access, name, message),
        named_model(m.with_unreadable((Seq::<char>::empty(), name), message)) == named_model(
            m,
        ).with_unreadable(name, message),
{
    let at = (Seq::<char>::empty(), name);
    assert(named_model(m.after_put(at, doc)).slots =~= named_model(m).after_put(name, doc).slots);
    assert(named_model(m.after_take(at)).slots =~= named_model(m).after_take(name).slots);
    let faulty = named_model(m.with_fault(access, at, message));
    let expected = named_model(m).with_fault(access, name, message);
    assert(faulty.read_faults =~= expected.read_faults);
    assert(faulty.write_faults =~= expected.write_faults);
    assert(faulty.remove_faults =~= expected.remove_faults);
    assert(named_model(m.with_unreadable(at, message)).slots =~= named_model(m).with_unreadable(
        name,
        message,
    ).slots);
}

/// A directory of files held in memory. A path can be made to fail, and a
/// file can be given a content that is no document.
pub struct MemoryFiles<V> {
    table: SlotTable<V>,
}

impl<V: Document> MemoryFiles<V> {
    /// An empty directory that serves every path.
    pub fn new() -> (files: Self)
        ensures
            files.model() == StoreModel::<Seq<char>, V::V>::empty(),
    {
        let files = MemoryFiles { table: SlotTable::new() };
        proof {
            assert(files.model().slots =~= Map::empty());
            assert(files.model().read_faults =~= Map::empty());
            assert(files.model().write_faults =~= Map::empty());
            assert(files.model().remove_faults =~= Map::empty());
        }
        files
    }

    /// Whether a file is at the path, readable or not.
    pub fn has_file(&self, path: &str) -> (there: bool)
        ensures
            there == self.model().occupied(path@),
    {
        let root = String::new();
        self.table.holds(root.as_str(), path)
    }

    /// The document in the file at the path, also where the path is made
    /// to fail.
    pub fn contents(&self, path: &str) -> (held: Option<V>)
        ensures
            match held {
                Some(v) => self.model().slots.contains_key(path@) && self.model().slots[path@]
                    == Slot::Document(v@),
                None => !self.model().slots.contains_key(path@)
                    || self.model().slots[path@] is Unreadable,
            },
    {
        let root = String::new();
        self.table.peek(root.as_str(), path)
    }

    /// Makes one operation on the path fail with the given message.
    pub fn set_error_on(&mut self, access: Access, path: &str, message: &str)
        ensures
            final(self).model() == old(self).model().with_fault(access, path@, message@),
    {
        let root = String::new();
        proof {
            lemma_named_model(self.table.model(), path@, arbitrary(), access, message@);
        }
        self.table.set_fault(access, root.as_str(), path, message);
    }

    /// Puts a file at the path whose content is no document.
    pub fn plant_unreadable(&mut self, path: &str, why: &str)
        ensures
            final(self).model() == old(self).model().with_unreadable(path@, why@),
    {
        let root = String::new();
        proof {
            lemma_named_model(self.table.model(), path@, arbitrary(), Access::Read, why@);
        }
        self.table.plant_unreadable(root.as_str(), path, why);
    }
}

impl<V: Document> FileStore<V> for MemoryFiles<V> {
    closed spec fn model(&self) -> StoreModel<Seq<char>, V::V> {
        named_model(self.table.model())
    }

    fn read(&self, path: &str) -> (found: Fetched<V>) {
        let root = String::new();
        self.table.fetch(root.as_str(), path)
    }

    fn write(&mut self, path: &str, value: &V) -> (written: Result<(), String>) {
        let root = String::new();
        proof {
            lemma_named_model(self.table.model(), path@, value@, Access::Write, Seq::empty());
        }
        self.table.put(root.as_str(), path, value)
    }

    fn remove(&mut self, path: &str) -> (removed: Result<bool, String>) {
        let root = String::new();
        proof {
            lemma_named_model(self.table.model(), path@, arbitrary(), Access::Remove, Seq::empty());
        }
        self.table.take(root.as_str(), path)
    }
}

/// The in-memory store as a mathematical value: the documents by key, and
/// whether the store was left unusable by a holder of its lock.
pub struct EphemeralModel<D> {
    pub entries: Map<Seq<char>, D>,
    pub poisoned: bool,
}

/// The store behind the ephemeral backend: documents by key, held in
/// memory for as long as the value lives. It is made where the process (or
/// a test) starts and handed to the operations that use it.
pub struct EphemeralStore<V> {
    entries: Vec<Assoc<V>>,
    poisoned: bool,
}

impl<V: Document> EphemeralStore<V> {
    pub closed spec fn model(&self) -> EphemeralModel<V::V> {
        EphemeralModel {
            entries: by_name(assoc_map(self.entries@).map_values(|v: V| v@)),
            poisoned: self.poisoned,
        }
    }

    /// An empty store.
    pub fn new() -> (store: Self)
        ensures
            store.model() == (EphemeralModel::<V::V> { entries: Map::empty(), poisoned: false }),
    {
        let store = EphemeralStore { entries: Vec::new(), poisoned: false };
        proof {
            assert(store.model().entries =~= Map::empty());
        }
        store
    }

    /// Whether the store was marked unusable.
    pub fn is_poisoned(&self) -> (poisoned: bool)
        ensures
            poisoned == self.model().poisoned,
    {
        self.poisoned
    }

    /// Marks the store unusable: the holder of its lock failed while
    /// holding it.
    pub fn mark_poisoned(&mut self)
        ensures
            final(self).model() == (EphemeralModel {
                entries: old(self).model().entries,
                poisoned: true,
            }),
    {
        self.poisoned = true;
    }

    /// The document under the key.
    pub fn get(&self, key: &str) -> (held: Option<V>)
        ensures
            match held {
                Some(v) => self.model().entries.contains_key(key@) && self.model().entries[key@]
                    == v@,
                None => !self.model().entries.contains_key(key@),
            },
    {
        let root = String::new();
        let name = key.to_owned();
        match assoc_find(&self.entries, &root, &name) {
            None => None,
            Some(i) => Some(self.entries[i].value.duplicate()),
        }
    }

    /// Puts the document under the key, in place of what was there.
    pub fn insert(&mut self, key: &str, value: &V)
        ensures
            final(self).model() == (EphemeralModel {
                entries: old(self).model().entries.insert(key@, value@),
                poisoned: old(self).model().poisoned,
            }),
    {
        let root = String::new();
        assoc_put(&mut self.entries, root.as_str(), key, value.duplicate());
        proof {
            assert(self.model().entries =~= old(self).model().entries.insert(key@, value@));
        }
    }

    /// Takes the document under the key away; tells whether there was one.
    pub fn remove(&mut self, key: &str) -> (had: bool)
        ensures
            had == old(self).model().entries.contains_key(key@),
            final(self).model() == (EphemeralModel {
                entries: old(self).model().entries.remove(key@),
                poisoned: old(self).model().poisoned,
            }),
    {
        let root = String::new();
        let name = key.to_owned();
        let had = assoc_remove(&mut self.entries, &root, &name);
        proof {
            assert(self.model().entries =~= old(self).model().entries.remove(key@));
        }
        had
    }
}

} // verus!
