//! Where the tokens of tool servers are stored: in the keyring, one entry
//! for each server, or in one credentials file that holds an entry for each
//! server under the server's key.

use crate::error::{failure, StoreError, StoreErrorKind, StoreErrorView};
use crate::keyring_keys::{hex_lower, hex_prefix, sha256, sha256_spec, store_key_for_code_home, store_key_spec};
use crate::media::{Document, Fetched, FetchedView, FileStore, KeyringStore, StoreModel};
use crate::oauth::{
    compute_expires_at_millis_at, expires_at_from, now_millis,
    refresh_expires_in_from_timestamp, refreshed_lifetime, OAuthCredentialsStoreMode,
    OAuthTokenResponse, OAuthTokenResponseView, StoredOAuthTokens, StoredOAuthTokensView,
    TokenType, TokenTypeView, WrappedOAuthTokenResponse,
};
use crate::search::{lemma_position_is, lemma_position_none, position};
use crate::stores::{loaded_view, removed_view, saved_view};
use crate::text::{clone_texts, same_text};
use vstd::prelude::*;
use vstd::string::StringExecFns;
use vstd::utf8::encode_utf8;

verus! {

/// The name of the credentials file under the root directory.
pub const FALLBACK_FILENAME: &'static str = ".credentials.json";

/// The service name of the tokens' keyring entries.
pub const KEYRING_SERVICE: &'static str = "Code MCP Credentials";

/// The namespace of the tokens' storage keys.
pub const KEY_NAMESPACE: &'static str = "mcp-oauth";

/// The kind of server that the keys are derived for.
pub const MCP_SERVER_TYPE: &'static str = "http";

pub const KEY_PAYLOAD_CONTEXT: &'static str = "failed to serialize MCP OAuth key payload: ";

pub const READ_FILE_CONTEXT: &'static str = "failed to read credentials file at ";

pub const PARSE_FILE_CONTEXT: &'static str = "failed to parse credentials file at ";

pub const DESERIALIZE_CONTEXT: &'static str = "failed to deserialize OAuth tokens from keyring: ";

pub const READ_KEYRING_CONTEXT: &'static str = "failed to read OAuth tokens from keyring: ";

pub const WRITE_KEYRING_CONTEXT: &'static str = "failed to write OAuth tokens to keyring: ";

pub const DELETE_KEYRING_CONTEXT: &'static str = "failed to delete OAuth tokens from keyring: ";

pub const CHAIN: &'static str = ": ";

/// The error with `context` and `cause` put before its message.
pub open spec fn chained(context: Seq<char>, cause: Seq<char>, e: StoreErrorView) -> StoreErrorView {
    StoreErrorView { kind: e.kind, message: context + cause + CHAIN@ + e.message }
}

// ---------------------------------------------------------------------
// Keys
// ---------------------------------------------------------------------

/// The JSON text of an object whose members are given in order, each name
/// with a string or, where the value is absent, with an empty object; or the
/// message with which the text could not be made.
pub uninterp spec fn json_object_text(members: Seq<(Seq<char>, Option<Seq<char>>)>) -> Result<
    Seq<char>,
    Seq<char>,
>;

/// The view of a text or a message.
pub open spec fn text_view(r: Result<String, String>) -> Result<Seq<char>, Seq<char>> {
    match r {
        Ok(text) => Ok(text@),
        Err(why) => Err(why@),
    }
}

/// `serde_json::to_string` of a `serde_json::Value` that is an object with
/// the given members: the compact JSON text of the object, which depends on
/// nothing but the members.
#[verifier::external_body]
pub(crate) fn json_object_to_string(members: &Vec<(String, Option<String>)>) -> (text: Result<
    String,
    String,
>)
    ensures
        text_view(text) == json_object_text(members.deep_view()),
{
    let mut object = serde_json::Map::new();
    for (name, value) in members.iter() {
        let value = match value {
            Some(text) => serde_json::Value::String(text.clone()),
            None => serde_json::Value::Object(serde_json::Map::new()),
        };
        object.insert(name.clone(), value);
    }
    serde_json::to_string(&serde_json::Value::Object(object)).map_err(|e| e.to_string())
}

/// What a server is known by when its key is derived: that it is reached
/// over HTTP, its address, and no headers.
pub open spec fn server_descriptor(server_url: Seq<char>) -> Seq<(Seq<char>, Option<Seq<char>>)> {
    seq![
        ("type"@, Some(MCP_SERVER_TYPE@)),
        ("url"@, Some(server_url)),
        ("headers"@, None::<Seq<char>>),
    ]
}

/// The first sixteen hexadecimal digits of the SHA-256 digest of a text.
pub open spec fn sha_256_prefix_of(text: Seq<char>) -> Seq<char> {
    hex_lower(sha256_spec(encode_utf8(text)).subrange(0, 8))
}

/// The key of a server's entry in the credentials file: the server's name,
/// a bar, and the digest prefix of the server's descriptor.
pub open spec fn store_key_outcome(server_name: Seq<char>, server_url: Seq<char>) -> Result<
    Seq<char>,
    StoreErrorView,
> {
    match json_object_text(server_descriptor(server_url)) {
        Ok(text) => Ok(server_name + seq!['|'] + sha_256_prefix_of(text)),
        Err(why) => Err(failure(StoreErrorKind::Serialization, KEY_PAYLOAD_CONTEXT@, why)),
    }
}

/// The key of a server's entry in the keyring: the root directory's storage
/// key, a bar, and the server's key in the credentials file.
pub open spec fn keyring_account_outcome(
    code_home: Seq<char>,
    server_name: Seq<char>,
    server_url: Seq<char>,
) -> Result<Seq<char>, StoreErrorView> {
    match store_key_outcome(server_name, server_url) {
        Ok(base) => Ok(store_key_spec(KEY_NAMESPACE@, code_home) + seq!['|'] + base),
        Err(e) => Err(e),
    }
}

/// The view of a key or the error that kept it from being derived.
pub open spec fn key_view(r: Result<String, StoreError>) -> Result<Seq<char>, StoreErrorView> {
    match r {
        Ok(key) => Ok(key@),
        Err(e) => Err(e@),
    }
}

/// The digest prefix of the JSON text of an object.
pub fn sha_256_prefix(members: &Vec<(String, Option<String>)>) -> (prefix: Result<
    String,
    StoreError,
>)
    ensures
        key_view(prefix) == match json_object_text(members.deep_view()) {
            Ok(text) => Ok(sha_256_prefix_of(text)),
            Err(why) => Err(failure(StoreErrorKind::Serialization, KEY_PAYLOAD_CONTEXT@, why)),
        },
        prefix matches Ok(digits) ==> digits@.len() == 16,
{
    match json_object_to_string(members) {
        Ok(serialized) => {
            let digest = sha256(serialized.as_str().as_bytes());
            Ok(hex_prefix(&digest))
        },
        Err(why) => Err(
            StoreError::with_context(
                StoreErrorKind::Serialization,
                KEY_PAYLOAD_CONTEXT,
                why.as_str(),
            ),
        ),
    }
}

pub fn compute_store_key(server_name: &str, server_url: &str) -> (key: Result<String, StoreError>)
    ensures
        key_view(key) == store_key_outcome(server_name@, server_url@),
        key matches Ok(text) ==> text@.len() == server_name@.len() + 17,
{
    let mut payload: Vec<(String, Option<String>)> = Vec::new();
    payload.push(("type".to_owned(), Some(MCP_SERVER_TYPE.to_owned())));
    payload.push(("url".to_owned(), Some(server_url.to_owned())));
    payload.push(("headers".to_owned(), None));
    assert(payload.deep_view() =~= server_descriptor(server_url@));
    match sha_256_prefix(&payload) {
        Ok(truncated) => {
            proof {
                reveal_strlit("|");
                assert("|"@ =~= seq!['|']);
            }
            let key = String::from_str(server_name).concat("|").concat(truncated.as_str());
            assert(key@ =~= server_name@ + seq!['|'] + truncated@);
            Ok(key)
        },
        Err(e) => Err(e),
    }
}

pub fn compute_keyring_account(code_home: &str, server_name: &str, server_url: &str) -> (key: Result<
    String,
    StoreError,
>)
    ensures
        key_view(key) == keyring_account_outcome(code_home@, server_name@, server_url@),
{
    match compute_store_key(server_name, server_url) {
        Ok(base) => {
            let home_prefix = store_key_for_code_home(KEY_NAMESPACE, code_home);
            proof {
                reveal_strlit("|");
                assert("|"@ =~= seq!['|']);
            }
            Ok(home_prefix.concat("|").concat(base.as_str()))
        },
        Err(e) => Err(e),
    }
}

// ---------------------------------------------------------------------
// The credentials file
// ---------------------------------------------------------------------

/// What the credentials file holds for one server.
#[derive(Debug, PartialEq, Eq)]
pub struct FallbackTokenEntry {
    pub server_name: String,
    pub server_url: String,
    pub client_id: String,
    pub access_token: String,
    pub expires_at: Option<u64>,
    pub refresh_token: Option<String>,
    pub scopes: Vec<String>,
}

pub struct FallbackTokenEntryView {
    pub server_name: Seq<char>,
    pub server_url: Seq<char>,
    pub client_id: Seq<char>,
    pub access_token: Seq<char>,
    pub expires_at: Option<u64>,
    pub refresh_token: Option<Seq<char>>,
    pub scopes: Seq<Seq<char>>,
}

impl View for FallbackTokenEntry {
    type V = FallbackTokenEntryView;

    open spec fn view(&self) -> FallbackTokenEntryView {
        FallbackTokenEntryView {
            server_name: self.server_name@,
            server_url: self.server_url@,
            client_id: self.client_id@,
            access_token: self.access_token@,
            expires_at: self.expires_at,
            refresh_token: self.refresh_token.deep_view(),
            scopes: self.scopes.deep_view(),
        }
    }
}

impl Clone for FallbackTokenEntry {
    fn clone(&self) -> (copy: Self)
        ensures
            copy@ == self@,
    {
        FallbackTokenEntry {
            server_name: self.server_name.clone(),
            server_url: self.server_url.clone(),
            client_id: self.client_id.clone(),
            access_token: self.access_token.clone(),
            expires_at: self.expires_at,
            refresh_token: self.refresh_token.clone(),
            scopes: clone_texts(&self.scopes),
        }
    }
}

/// One member of the credentials file: a key and what is stored under it.
#[derive(Debug, PartialEq, Eq)]
pub struct FallbackSlot {
    pub key: String,
    pub entry: FallbackTokenEntry,
}

pub struct FallbackSlotView {
    pub key: Seq<char>,
    pub entry: FallbackTokenEntryView,
}

impl View for FallbackSlot {
    type V = FallbackSlotView;

    open spec fn view(&self) -> FallbackSlotView {
        FallbackSlotView { key: self.key@, entry: self.entry@ }
    }
}

/// The credentials file: its members in the order of the file. No two
/// members are under one key: the file is a map from keys to entries.
#[derive(Debug, PartialEq, Eq)]
pub struct FallbackFile {
    entries: Vec<FallbackSlot>,
}

pub type FallbackFileView = Seq<FallbackSlotView>;

/// The members that a list of slots stands for.
pub open spec fn slot_views(slots: Seq<FallbackSlot>) -> Seq<FallbackSlotView> {
    Seq::new(slots.len(), |i: int| slots[i]@)
}

impl View for FallbackFile {
    type V = Seq<FallbackSlotView>;

    closed spec fn view(&self) -> Seq<FallbackSlotView> {
        slot_views(self.entries@)
    }
}

impl Clone for FallbackFile {
    fn clone(&self) -> (copy: Self)
        ensures
            copy@ == self@,
    {
        let mut entries: Vec<FallbackSlot> = Vec::new();
        let mut i: usize = 0;
        while i < self.entries.len()
            invariant
                i <= self.entries@.len(),
                entries@.len() == i,
                forall|j: int| 0 <= j < i ==> (#[trigger] entries@[j])@ == self.entries@[j]@,
            decreases self.entries@.len() - i,
        {
            entries.push(
                FallbackSlot { key: self.entries[i].key.clone(), entry: self.entries[i].entry.clone() },
            );
            i = i + 1;
        }
        proof {
            use_type_invariant(self);
            assert(slot_views(entries@) =~= self@);
        }
        FallbackFile { entries }
    }
}

impl Document for FallbackFile {
    fn duplicate(&self) -> (copy: Self) {
        self.clone()
    }
}

impl Default for FallbackFile {
    fn default() -> (file: Self)
        ensures
            file@ == Seq::<FallbackSlotView>::empty(),
    {
        let entries: Vec<FallbackSlot> = Vec::new();
        assert(slot_views(entries@) =~= Seq::<FallbackSlotView>::empty());
        FallbackFile { entries }
    }
}

/// The property of being the member under the key.
pub open spec fn under_key(key: Seq<char>) -> spec_fn(FallbackSlotView) -> bool {
    |slot: FallbackSlotView| slot.key == key
}

/// The file with the entry under the key, in place of what was under it.
pub open spec fn with_entry(
    file: FallbackFileView,
    key: Seq<char>,
    entry: FallbackTokenEntryView,
) -> FallbackFileView {
    match position(file, under_key(key)) {
        Some(i) => file.update(i, FallbackSlotView { key, entry }),
        None => file.push(FallbackSlotView { key, entry }),
    }
}

/// The file without the first member under the key.
pub open spec fn without_entry(file: FallbackFileView, key: Seq<char>) -> FallbackFileView {
    match position(file, under_key(key)) {
        Some(i) => file.remove(i),
        None => file,
    }
}

/// Whether no two members of the file are under one key. Every credentials
/// file that the library handles is so.
pub open spec fn keys_unique(file: FallbackFileView) -> bool {
    forall|i: int, j: int|
        0 <= i < j < file.len() ==> (#[trigger] file[i]).key != (#[trigger] file[j]).key
}

/// Putting an entry under a key and taking one away keep the keys of a
/// file apart, and what was taken away is under no key any more.
pub proof fn lemma_keys_stay_unique(
    file: FallbackFileView,
    key: Seq<char>,
    entry: FallbackTokenEntryView,
)
    requires
        keys_unique(file),
    ensures
        keys_unique(with_entry(file, key, entry)),
        keys_unique(without_entry(file, key)),
        position(without_entry(file, key), under_key(key)) is None,
        position(with_entry(file, key, entry), under_key(key)) matches Some(i) && with_entry(
            file,
            key,
            entry,
        )[i].entry == entry,
{
    crate::search::lemma_position(file, under_key(key));
    let put = with_entry(file, key, entry);
    let taken = without_entry(file, key);
    match position(file, under_key(key)) {
        Some(i) => {
            assert forall|a: int, b: int| 0 <= a < b < put.len() implies (#[trigger] put[a]).key
                != (#[trigger] put[b]).key by {
                assert(put[a].key == file[a].key);
                assert(put[b].key == file[b].key);
            }
            assert forall|a: int, b: int| 0 <= a < b < taken.len() implies (
            #[trigger] taken[a]).key != (#[trigger] taken[b]).key by {
                let a0 = if a < i { a } else { a + 1 };
                let b0 = if b < i { b } else { b + 1 };
                assert(taken[a] == file[a0]);
                assert(taken[b] == file[b0]);
                assert(file[a0].key != file[b0].key);
            }
            assert forall|j: int| 0 <= j < taken.len() implies !under_key(key)(
                #[trigger] taken[j],
            ) by {
                if j < i {
                    assert(taken[j] == file[j]);
                } else {
                    assert(taken[j] == file[j + 1]);
                    assert(file[i].key != file[j + 1].key);
                }
            }
            assert forall|j: int| 0 <= j < i implies !under_key(key)(#[trigger] put[j]) by {
                assert(put[j] == file[j]);
            }
            lemma_position_is(put, under_key(key), i);
        },
        None => {
            let n = file.len() as int;
            assert forall|a: int, b: int| 0 <= a < b < put.len() implies (#[trigger] put[a]).key
                != (#[trigger] put[b]).key by {
                assert(put[a] == file[a]);
                if b < n {
                    assert(put[b] == file[b]);
                } else {
                    assert(!under_key(key)(file[a]));
                }
            }
            assert forall|j: int| 0 <= j < n implies !under_key(key)(#[trigger] put[j]) by {
                assert(put[j] == file[j]);
            }
            lemma_position_is(put, under_key(key), n);
        },
    }
    lemma_position_none(taken, under_key(key));
}

/// The file that a list of slots gives when they are put into it one after
/// the other: of two slots under one key the later one counts.
pub open spec fn collected(slots: Seq<FallbackSlotView>) -> FallbackFileView
    decreases slots.len(),
{
    if slots.len() == 0 {
        Seq::empty()
    } else {
        with_entry(collected(slots.drop_last()), slots.last().key, slots.last().entry)
    }
}

impl FallbackFile {
    #[verifier::type_invariant]
    spec fn one_entry_for_each_key(self) -> bool {
        keys_unique(slot_views(self.entries@))
    }

    /// The file with the given slots, put into it one after the other.
    pub fn from_slots(slots: &Vec<FallbackSlot>) -> (file: Self)
        ensures
            file@ == collected(slot_views(slots@)),
            keys_unique(file@),
    {
        let mut file = FallbackFile::default();
        let mut i: usize = 0;
        assert(slot_views(slots@).subrange(0, 0) =~= Seq::<FallbackSlotView>::empty());
        while i < slots.len()
            invariant
                i <= slots@.len(),
                file@ == collected(slot_views(slots@).subrange(0, i as int)),
            decreases slots@.len() - i,
        {
            proof {
                let next = slot_views(slots@).subrange(0, i + 1);
                assert(next.drop_last() =~= slot_views(slots@).subrange(0, i as int));
                assert(next.last() == slots@[i as int]@);
            }
            file.insert(slots[i].key.clone(), slots[i].entry.clone());
            i = i + 1;
        }
        proof {
            assert(slot_views(slots@).subrange(0, slots@.len() as int) =~= slot_views(slots@));
            use_type_invariant(&file);
        }
        file
    }

    /// The members of the file, in its order.
    pub fn slots(&self) -> (slots: &Vec<FallbackSlot>)
        ensures
            slot_views(slots@) == self@,
            keys_unique(self@),
    {
        proof {
            use_type_invariant(self);
        }
        &self.entries
    }

    /// The number of members.
    pub fn len(&self) -> (n: usize)
        ensures
            n == self@.len(),
    {
        self.entries.len()
    }

    /// The entry under the key.
    pub fn get(&self, key: &str) -> (entry: Option<FallbackTokenEntry>)
        ensures
            match entry {
                Some(found) => position(self@, under_key(key@)) matches Some(i) && self@[i].entry
                    == found@,
                None => position(self@, under_key(key@)) is None,
            },
    {
        match self.find(key) {
            Some(i) => Some(self.entries[i].entry.clone()),
            None => None,
        }
    }

    /// The place of the first member under the key.
    pub fn find(&self, key: &str) -> (found: Option<usize>)
        ensures
            match found {
                Some(i) => position(self@, under_key(key@)) == Some(i as int),
                None => position(self@, under_key(key@)) is None,
            },
    {
        let mut i: usize = 0;
        while i < self.entries.len()
            invariant
                i <= self.entries@.len(),
                forall|j: int| 0 <= j < i ==> !under_key(key@)(#[trigger] self@[j]),
            decreases self.entries@.len() - i,
        {
            if same_text(self.entries[i].key.as_str(), key) {
                proof {
                    lemma_position_is(self@, under_key(key@), i as int);
                }
                return Some(i);
            }
            i = i + 1;
        }
        proof {
            lemma_position_none(self@, under_key(key@));
        }
        None
    }

    /// Puts the entry under the key, in place of what was under it.
    pub fn insert(&mut self, key: String, entry: FallbackTokenEntry)
        ensures
            final(self)@ == with_entry(old(self)@, key@, entry@),
    {
        let ghost before = self@;
        proof {
            use_type_invariant(&*self);
            lemma_keys_stay_unique(before, key@, entry@);
        }
        let found = self.find(key.as_str());
        let mut entries: Vec<FallbackSlot> = Vec::new();
        proof {
            assert(slot_views(entries@) =~= Seq::<FallbackSlotView>::empty());
        }
        core::mem::swap(&mut self.entries, &mut entries);
        match found {
            Some(i) => {
                entries.set(i, FallbackSlot { key, entry });
                assert(slot_views(entries@) =~= before.update(
                    i as int,
                    FallbackSlotView { key: key@, entry: entry@ },
                ));
            },
            None => {
                entries.push(FallbackSlot { key, entry });
                assert(slot_views(entries@) =~= before.push(
                    FallbackSlotView { key: key@, entry: entry@ },
                ));
            },
        }
        self.entries = entries;
    }

    /// Takes the first member under the key away; tells whether there was
    /// one.
    pub fn remove(&mut self, key: &str) -> (removed: bool)
        ensures
            final(self)@ == without_entry(old(self)@, key@),
            removed == position(old(self)@, under_key(key@)) is Some,
    {
        let ghost before = self@;
        proof {
            use_type_invariant(&*self);
            lemma_keys_stay_unique(before, key@, arbitrary());
        }
        match self.find(key) {
            Some(i) => {
                let mut entries: Vec<FallbackSlot> = Vec::new();
                proof {
                    assert(slot_views(entries@) =~= Seq::<FallbackSlotView>::empty());
                }
                core::mem::swap(&mut self.entries, &mut entries);
                let _ = entries.remove(i);
                assert(slot_views(entries@) =~= before.remove(i as int));
                self.entries = entries;
                true
            },
            None => false,
        }
    }

    pub fn is_empty(&self) -> (empty: bool)
        ensures
            empty == (self@.len() == 0),
    {
        self.entries.len() == 0
    }
}

// ---------------------------------------------------------------------
// The media and the root directory
// ---------------------------------------------------------------------

/// The media of the token store: a keyring that holds the tokens of a
/// server under each entry, and a directory with the credentials file.
pub struct OAuthStores<K, F> {
    pub keyring: K,
    pub files: F,
}

/// The media of the token store as a mathematical value.
pub struct OAuthWorld {
    pub keyring: StoreModel<(Seq<char>, Seq<char>), StoredOAuthTokensView>,
    pub files: StoreModel<Seq<char>, FallbackFileView>,
}

impl<K: KeyringStore<StoredOAuthTokens>, F: FileStore<FallbackFile>> View for OAuthStores<K, F> {
    type V = OAuthWorld;

    open spec fn view(&self) -> OAuthWorld {
        OAuthWorld { keyring: self.keyring.model(), files: self.files.model() }
    }
}

impl<K: KeyringStore<StoredOAuthTokens>, F: FileStore<FallbackFile>> OAuthStores<K, F> {
    pub fn new(keyring: K, files: F) -> (stores: Self)
        ensures
            stores.keyring == keyring,
            stores.files == files,
    {
        OAuthStores { keyring, files }
    }
}

/// Where the tokens of one root directory live.
#[derive(Debug, PartialEq, Eq)]
pub struct OAuthHome {
    /// The root directory's path in canonical form, from which the storage
    /// key is derived.
    pub code_home: String,
    /// The path of the credentials file under the root.
    pub fallback_file: String,
}

pub struct OAuthHomeView {
    pub code_home: Seq<char>,
    pub fallback_file: Seq<char>,
}

impl View for OAuthHome {
    type V = OAuthHomeView;

    open spec fn view(&self) -> OAuthHomeView {
        OAuthHomeView { code_home: self.code_home@, fallback_file: self.fallback_file@ }
    }
}

impl Clone for OAuthHome {
    fn clone(&self) -> (copy: Self)
        ensures
            copy@ == self@,
    {
        OAuthHome {
            code_home: self.code_home.clone(),
            fallback_file: self.fallback_file.clone(),
        }
    }
}

pub type TokensLoaded = Result<Option<StoredOAuthTokensView>, StoreErrorView>;

pub type Done = Result<(), StoreErrorView>;

pub type Removed = Result<bool, StoreErrorView>;

/// The message of a failure on a named thing: the context, the name, and
/// the cause.
pub fn describe(context: &str, subject: &str, why: &str) -> (message: String)
    ensures
        message@ == context@ + subject@ + CHAIN@ + why@,
{
    String::from_str(context).concat(subject).concat(CHAIN).concat(why)
}

// ---------------------------------------------------------------------
// The credentials file as a store
// ---------------------------------------------------------------------

/// What reading the credentials file gives: its members; nothing where
/// there is no file; an error where it cannot be read or is no credentials
/// file.
pub open spec fn read_fallback(files: StoreModel<Seq<char>, FallbackFileView>, path: Seq<char>) -> Result<
    Option<FallbackFileView>,
    StoreErrorView,
> {
    match files.fetch(path) {
        FetchedView::Found(file) => Ok(Some(file)),
        FetchedView::Missing => Ok(None),
        FetchedView::Malformed(why) => Err(
            StoreErrorView {
                kind: StoreErrorKind::Serialization,
                message: PARSE_FILE_CONTEXT@ + path + CHAIN@ + why,
            },
        ),
        FetchedView::Failed(why) => Err(
            StoreErrorView {
                kind: StoreErrorKind::Io,
                message: READ_FILE_CONTEXT@ + path + CHAIN@ + why,
            },
        ),
    }
}

/// The files after the credentials file was written, and what the write
/// reports. A file without members is not written: it is removed.
pub open spec fn write_fallback(
    files: StoreModel<Seq<char>, FallbackFileView>,
    path: Seq<char>,
    store: FallbackFileView,
) -> (StoreModel<Seq<char>, FallbackFileView>, Done) {
    if store.len() == 0 {
        (
            files.after_take(path),
            match files.take_outcome(path) {
                Ok(_) => Ok(()),
                Err(why) => Err(StoreErrorView { kind: StoreErrorKind::Io, message: why }),
            },
        )
    } else {
        (
            files.after_put(path, store),
            match files.put_outcome(path) {
                Ok(()) => Ok(()),
                Err(why) => Err(StoreErrorView { kind: StoreErrorKind::Io, message: why }),
            },
        )
    }
}

/// The files after the entry under the key was taken out of the
/// credentials file, and whether there was one.
pub open spec fn delete_from_file(
    files: StoreModel<Seq<char>, FallbackFileView>,
    path: Seq<char>,
    key: Seq<char>,
) -> (StoreModel<Seq<char>, FallbackFileView>, Removed) {
    match read_fallback(files, path) {
        Err(e) => (files, Err(e)),
        Ok(None) => (files, Ok(false)),
        Ok(Some(store)) => if position(store, under_key(key)) is Some {
            let (after, written) = write_fallback(files, path, without_entry(store, key));
            (
                after,
                match written {
                    Ok(()) => Ok(true),
                    Err(e) => Err(e),
                },
            )
        } else {
            (files, Ok(false))
        },
    }
}

pub fn read_fallback_file<F: FileStore<FallbackFile>>(files: &F, path: &str) -> (store: Result<
    Option<FallbackFile>,
    StoreError,
>)
    ensures
        loaded_view(store) == read_fallback(files.model(), path@),
{
    match files.read(path) {
        Fetched::Found(file) => Ok(Some(file)),
        Fetched::Missing => Ok(None),
        Fetched::Malformed(why) => Err(
            StoreError {
                kind: StoreErrorKind::Serialization,
                message: describe(PARSE_FILE_CONTEXT, path, why.as_str()),
            },
        ),
        Fetched::Failed(why) => Err(
            StoreError {
                kind: StoreErrorKind::Io,
                message: describe(READ_FILE_CONTEXT, path, why.as_str()),
            },
        ),
    }
}

pub fn write_fallback_file<F: FileStore<FallbackFile>>(
    files: &mut F,
    path: &str,
    store: &FallbackFile,
) -> (written: Result<(), StoreError>)
    ensures
        (final(files).model(), saved_view(written)) == write_fallback(
            old(files).model(),
            path@,
            store@,
        ),
{
    if store.is_empty() {
        return match files.remove(path) {
            Ok(_) => Ok(()),
            Err(why) => Err(StoreError { kind: StoreErrorKind::Io, message: why }),
        };
    }
    match files.write(path, store) {
        Ok(()) => Ok(()),
        Err(why) => Err(StoreError { kind: StoreErrorKind::Io, message: why }),
    }
}

pub fn delete_oauth_tokens_from_file<F: FileStore<FallbackFile>>(
    files: &mut F,
    path: &str,
    key: &str,
) -> (removed: Result<bool, StoreError>)
    ensures
        (final(files).model(), removed_view(removed)) == delete_from_file(
            old(files).model(),
            path@,
            key@,
        ),
{
    let mut store = match read_fallback_file(files, path) {
        Ok(Some(store)) => store,
        Ok(None) => {
            return Ok(false);
        },
        Err(e) => {
            return Err(e);
        },
    };
    let removed = store.remove(key);
    if removed {
        match write_fallback_file(files, path, &store) {
            Ok(()) => {},
            Err(e) => {
                return Err(e);
            },
        }
    }
    Ok(removed)
}

// ---------------------------------------------------------------------
// Loading
// ---------------------------------------------------------------------

/// The tokens that an entry of the credentials file stands for: a bearer
/// token with the entry's refresh token and, where the entry names any, its
/// scopes.
pub open spec fn tokens_of_entry(entry: FallbackTokenEntryView) -> StoredOAuthTokensView {
    StoredOAuthTokensView {
        server_name: entry.server_name,
        url: entry.server_url,
        client_id: entry.client_id,
        token_response: OAuthTokenResponseView {
            access_token: entry.access_token,
            token_type: TokenTypeView::Bearer,
            expires_in: None,
            refresh_token: entry.refresh_token,
            scopes: if entry.scopes.len() == 0 {
                None
            } else {
                Some(entry.scopes)
            },
            extra_fields: Seq::empty(),
        },
        expires_at: entry.expires_at,
    }
}

/// The tokens of the first member whose server has the key, as they are
/// handed out at `now_ms`. The key of each member is derived from the server
/// that the member names, not taken from the file.
pub open spec fn scan_entries(file: FallbackFileView, key: Seq<char>, now_ms: u64) -> TokensLoaded
    decreases file.len(),
{
    if file.len() == 0 {
        Ok(None)
    } else {
        match store_key_outcome(file[0].entry.server_name, file[0].entry.server_url) {
            Err(e) => Err(e),
            Ok(entry_key) => if entry_key == key {
                Ok(Some(refreshed_lifetime(tokens_of_entry(file[0].entry), now_ms)))
            } else {
                scan_entries(file.drop_first(), key, now_ms)
            },
        }
    }
}

/// What loading from the credentials file gives.
pub open spec fn file_load(
    world: OAuthWorld,
    home: OAuthHomeView,
    server_name: Seq<char>,
    url: Seq<char>,
    now_ms: u64,
) -> TokensLoaded {
    match read_fallback(world.files, home.fallback_file) {
        Err(e) => Err(e),
        Ok(None) => Ok(None),
        Ok(Some(file)) => match store_key_outcome(server_name, url) {
            Err(e) => Err(e),
            Ok(key) => scan_entries(file, key, now_ms),
        },
    }
}

/// What loading from the keyring gives.
pub open spec fn keyring_load(
    world: OAuthWorld,
    home: OAuthHomeView,
    server_name: Seq<char>,
    url: Seq<char>,
    now_ms: u64,
) -> TokensLoaded {
    match keyring_account_outcome(home.code_home, server_name, url) {
        Err(e) => Err(e),
        Ok(key) => match world.keyring.fetch((KEYRING_SERVICE@, key)) {
            FetchedView::Found(tokens) => Ok(Some(refreshed_lifetime(tokens, now_ms))),
            FetchedView::Missing => Ok(None),
            FetchedView::Malformed(why) => Err(
                failure(StoreErrorKind::Serialization, DESERIALIZE_CONTEXT@, why),
            ),
            FetchedView::Failed(why) => Err(
                StoreErrorView { kind: StoreErrorKind::BackendUnavailable, message: why },
            ),
        },
    }
}

/// What loading from the keyring with the file to fall back on gives: the
/// keyring's tokens; where the keyring holds none or fails, what the file
/// gives. A failure of the file after a failure of the keyring names both.
pub open spec fn auto_load(
    world: OAuthWorld,
    home: OAuthHomeView,
    server_name: Seq<char>,
    url: Seq<char>,
    now_ms: u64,
) -> TokensLoaded {
    match keyring_load(world, home, server_name, url, now_ms) {
        Ok(Some(tokens)) => Ok(Some(tokens)),
        Ok(None) => file_load(world, home, server_name, url, now_ms),
        Err(error) => match file_load(world, home, server_name, url, now_ms) {
            Ok(found) => Ok(found),
            Err(e) => Err(chained(READ_KEYRING_CONTEXT@, error.message, e)),
        },
    }
}

/// What a load in the given mode gives.
pub open spec fn load_outcome(
    world: OAuthWorld,
    home: OAuthHomeView,
    server_name: Seq<char>,
    url: Seq<char>,
    store_mode: OAuthCredentialsStoreMode,
    now_ms: u64,
) -> TokensLoaded {
    match store_mode {
        OAuthCredentialsStoreMode::Auto => auto_load(world, home, server_name, url, now_ms),
        OAuthCredentialsStoreMode::File => file_load(world, home, server_name, url, now_ms),
        OAuthCredentialsStoreMode::Keyring => match keyring_load(
            world,
            home,
            server_name,
            url,
            now_ms,
        ) {
            Ok(found) => Ok(found),
            Err(e) => Err(
                StoreErrorView { kind: e.kind, message: READ_KEYRING_CONTEXT@ + e.message },
            ),
        },
    }
}

/// The tokens that an entry of the credentials file stands for.
pub fn entry_tokens(entry: &FallbackTokenEntry) -> (tokens: StoredOAuthTokens)
    ensures
        tokens@ == tokens_of_entry(entry@),
{
    let mut token_response = OAuthTokenResponse::new(entry.access_token.clone(), TokenType::Bearer);
    match &entry.refresh_token {
        Some(refresh) => {
            token_response.set_refresh_token(Some(refresh.clone()));
        },
        None => {},
    }
    if entry.scopes.len() > 0 {
        token_response.set_scopes(Some(clone_texts(&entry.scopes)));
    }
    StoredOAuthTokens {
        server_name: entry.server_name.clone(),
        url: entry.server_url.clone(),
        client_id: entry.client_id.clone(),
        token_response: WrappedOAuthTokenResponse(token_response),
        expires_at: entry.expires_at,
    }
}

pub fn load_oauth_tokens_from_file<F: FileStore<FallbackFile>>(
    files: &F,
    home: &OAuthHome,
    server_name: &str,
    url: &str,
    now_ms: u64,
) -> (loaded: Result<Option<StoredOAuthTokens>, StoreError>)
    ensures
        loaded_view(loaded) == match read_fallback(files.model(), home@.fallback_file) {
            Err(e) => Err(e),
            Ok(None) => Ok(None),
            Ok(Some(file)) => match store_key_outcome(server_name@, url@) {
                Err(e) => Err(e),
                Ok(key) => scan_entries(file, key, now_ms),
            },
        },
{
    let store = match read_fallback_file(files, home.fallback_file.as_str()) {
        Ok(Some(store)) => store,
        Ok(None) => {
            return Ok(None);
        },
        Err(e) => {
            return Err(e);
        },
    };
    let key = match compute_store_key(server_name, url) {
        Ok(key) => key,
        Err(e) => {
            return Err(e);
        },
    };
    let mut i: usize = 0;
    assert(store@.subrange(0, store@.len() as int) =~= store@);
    while i < store.entries.len()
        invariant
            i <= store.entries@.len(),
            read_fallback(files.model(), home@.fallback_file) == Ok::<
                Option<FallbackFileView>,
                StoreErrorView,
            >(Some(store@)),
            store_key_outcome(server_name@, url@) == Ok::<Seq<char>, StoreErrorView>(key@),
            scan_entries(store@, key@, now_ms) == scan_entries(
                store@.subrange(i as int, store@.len() as int),
                key@,
                now_ms,
            ),
        decreases store.entries@.len() - i,
    {
        let ghost rest = store@.subrange(i as int, store@.len() as int);
        proof {
            assert(rest[0] == store.entries@[i as int]@);
            assert(rest.drop_first() =~= store@.subrange(i + 1, store@.len() as int));
        }
        let entry = &store.entries[i].entry;
        let entry_key = match compute_store_key(
            entry.server_name.as_str(),
            entry.server_url.as_str(),
        ) {
            Ok(entry_key) => entry_key,
            Err(e) => {
                return Err(e);
            },
        };
        if entry_key == key {
            let mut stored = entry_tokens(entry);
            refresh_expires_in_from_timestamp(&mut stored, now_ms);
            return Ok(Some(stored));
        }
        i = i + 1;
    }
    Ok(None)
}

pub fn load_oauth_tokens_from_keyring<K: KeyringStore<StoredOAuthTokens>>(
    keyring: &K,
    home: &OAuthHome,
    server_name: &str,
    url: &str,
    now_ms: u64,
) -> (loaded: Result<Option<StoredOAuthTokens>, StoreError>)
    ensures
        loaded_view(loaded) == match keyring_account_outcome(home@.code_home, server_name@, url@) {
            Err(e) => Err(e),
            Ok(key) => match keyring.model().fetch((KEYRING_SERVICE@, key)) {
                FetchedView::Found(tokens) => Ok(Some(refreshed_lifetime(tokens, now_ms))),
                FetchedView::Missing => Ok(None),
                FetchedView::Malformed(why) => Err(
                    failure(StoreErrorKind::Serialization, DESERIALIZE_CONTEXT@, why),
                ),
                FetchedView::Failed(why) => Err(
                    StoreErrorView { kind: StoreErrorKind::BackendUnavailable, message: why },
                ),
            },
        },
{
    let key = match compute_keyring_account(home.code_home.as_str(), server_name, url) {
        Ok(key) => key,
        Err(e) => {
            return Err(e);
        },
    };
    match keyring.load(KEYRING_SERVICE, key.as_str()) {
        Fetched::Found(tokens) => {
            let mut tokens = tokens;
            refresh_expires_in_from_timestamp(&mut tokens, now_ms);
            Ok(Some(tokens))
        },
        Fetched::Missing => Ok(None),
        Fetched::Malformed(why) => Err(
            StoreError::with_context(
                StoreErrorKind::Serialization,
                DESERIALIZE_CONTEXT,
                why.as_str(),
            ),
        ),
        Fetched::Failed(why) => Err(
            StoreError { kind: StoreErrorKind::BackendUnavailable, message: why },
        ),
    }
}

pub fn load_oauth_tokens_from_keyring_with_fallback_to_file<
    K: KeyringStore<StoredOAuthTokens>,
    F: FileStore<FallbackFile>,
>(stores: &OAuthStores<K, F>, home: &OAuthHome, server_name: &str, url: &str, now_ms: u64) -> (loaded:
    Result<Option<StoredOAuthTokens>, StoreError>)
    ensures
        loaded_view(loaded) == auto_load(stores@, home@, server_name@, url@, now_ms),
{
    match load_oauth_tokens_from_keyring(&stores.keyring, home, server_name, url, now_ms) {
        Ok(Some(tokens)) => Ok(Some(tokens)),
        Ok(None) => load_oauth_tokens_from_file(&stores.files, home, server_name, url, now_ms),
        Err(error) => match load_oauth_tokens_from_file(
            &stores.files,
            home,
            server_name,
            url,
            now_ms,
        ) {
            Ok(found) => Ok(found),
            Err(e) => Err(
                StoreError {
                    kind: e.kind,
                    message: describe(
                        READ_KEYRING_CONTEXT,
                        error.message.as_str(),
                        e.message.as_str(),
                    ),
                },
            ),
        },
    }
}

/// The tokens stored for the server, as they are handed out at `now_ms`.
pub fn load_oauth_tokens_at<K: KeyringStore<StoredOAuthTokens>, F: FileStore<FallbackFile>>(
    stores: &OAuthStores<K, F>,
    home: &OAuthHome,
    server_name: &str,
    url: &str,
    store_mode: OAuthCredentialsStoreMode,
    now_ms: u64,
) -> (loaded: Result<Option<StoredOAuthTokens>, StoreError>)
    ensures
        loaded_view(loaded) == load_outcome(stores@, home@, server_name@, url@, store_mode, now_ms),
{
    match store_mode {
        OAuthCredentialsStoreMode::Auto => load_oauth_tokens_from_keyring_with_fallback_to_file(
            stores,
            home,
            server_name,
            url,
            now_ms,
        ),
        OAuthCredentialsStoreMode::File => load_oauth_tokens_from_file(
            &stores.files,
            home,
            server_name,
            url,
            now_ms,
        ),
        OAuthCredentialsStoreMode::Keyring => match load_oauth_tokens_from_keyring(
            &stores.keyring,
            home,
            server_name,
            url,
            now_ms,
        ) {
            Ok(found) => Ok(found),
            Err(e) => Err(e.context(READ_KEYRING_CONTEXT)),
        },
    }
}

/// The tokens stored for the server, as they are handed out now.
pub fn load_oauth_tokens<K: KeyringStore<StoredOAuthTokens>, F: FileStore<FallbackFile>>(
    stores: &OAuthStores<K, F>,
    home: &OAuthHome,
    server_name: &str,
    url: &str,
    store_mode: OAuthCredentialsStoreMode,
) -> (loaded: Result<Option<StoredOAuthTokens>, StoreError>)
    ensures
        exists|now_ms: u64|
            loaded_view(loaded) == #[trigger] load_outcome(
                stores@,
                home@,
                server_name@,
                url@,
                store_mode,
                now_ms,
            ),
{
    let now_ms = now_millis();
    load_oauth_tokens_at(stores, home, server_name, url, store_mode, now_ms)
}

/// Whether tokens are stored for the server.
pub fn has_oauth_tokens<K: KeyringStore<StoredOAuthTokens>, F: FileStore<FallbackFile>>(
    stores: &OAuthStores<K, F>,
    home: &OAuthHome,
    server_name: &str,
    url: &str,
    store_mode: OAuthCredentialsStoreMode,
) -> (has: Result<bool, StoreError>)
    ensures
        exists|now_ms: u64|
            removed_view(has) == match #[trigger] load_outcome(
                stores@,
                home@,
                server_name@,
                url@,
                store_mode,
                now_ms,
            ) {
                Ok(found) => Ok(found is Some),
                Err(e) => Err(e),
            },
{
    let now_ms = now_millis();
    match load_oauth_tokens_at(stores, home, server_name, url, store_mode, now_ms) {
        Ok(found) => Ok(found.is_some()),
        Err(e) => Err(e),
    }
}

// ---------------------------------------------------------------------
// Saving
// ---------------------------------------------------------------------

/// The entry of the credentials file for the tokens, written at `now_ms`:
/// the time of expiry is the stored one or, where none is stored, the one
/// that the declared lifetime gives from now.
pub open spec fn entry_of_tokens(tokens: StoredOAuthTokensView, now_ms: u64) -> FallbackTokenEntryView {
    FallbackTokenEntryView {
        server_name: tokens.server_name,
        server_url: tokens.url,
        client_id: tokens.client_id,
        access_token: tokens.token_response.access_token,
        expires_at: match tokens.expires_at {
            Some(at) => Some(at),
            None => expires_at_from(tokens.token_response.expires_in, now_ms),
        },
        refresh_token: tokens.token_response.refresh_token,
        scopes: match tokens.token_response.scopes {
            Some(scopes) => scopes,
            None => Seq::empty(),
        },
    }
}

/// The media after a save to the credentials file, and what the save
/// reports: the file holds the entry under the key of the server that the
/// tokens name, beside its other members.
pub open spec fn file_save(
    world: OAuthWorld,
    home: OAuthHomeView,
    tokens: StoredOAuthTokensView,
    now_ms: u64,
) -> (OAuthWorld, Done) {
    match store_key_outcome(tokens.server_name, tokens.url) {
        Err(e) => (world, Err(e)),
        Ok(key) => match read_fallback(world.files, home.fallback_file) {
            Err(e) => (world, Err(e)),
            Ok(existing) => {
                let store = match existing {
                    Some(file) => file,
                    None => Seq::empty(),
                };
                let (files, written) = write_fallback(
                    world.files,
                    home.fallback_file,
                    with_entry(store, key, entry_of_tokens(tokens, now_ms)),
                );
                (OAuthWorld { files, ..world }, written)
            },
        },
    }
}

/// The media after a save to the keyring, and what the save reports: the
/// entry of the server holds the tokens and, as far as the credentials file
/// lets itself be changed, the file holds no entry for the server. Where the
/// keyring refuses nothing changes.
pub open spec fn keyring_save(
    world: OAuthWorld,
    home: OAuthHomeView,
    server_name: Seq<char>,
    tokens: StoredOAuthTokensView,
) -> (OAuthWorld, Done) {
    match keyring_account_outcome(home.code_home, server_name, tokens.url) {
        Err(e) => (world, Err(e)),
        Ok(key) => match world.keyring.put_outcome((KEYRING_SERVICE@, key)) {
            Err(why) => (
                world,
                Err(failure(StoreErrorKind::BackendUnavailable, WRITE_KEYRING_CONTEXT@, why)),
            ),
            Ok(()) => (
                OAuthWorld {
                    keyring: world.keyring.after_put((KEYRING_SERVICE@, key), tokens),
                    files: match store_key_outcome(server_name, tokens.url) {
                        Ok(file_key) => delete_from_file(
                            world.files,
                            home.fallback_file,
                            file_key,
                        ).0,
                        Err(_) => world.files,
                    },
                },
                Ok(()),
            ),
        },
    }
}

/// The media after a save to the keyring with the file to fall back on, and
/// what the save reports: where the keyring does not take the tokens they
/// are saved to the file, and a failure of the file names both failures.
pub open spec fn auto_save(
    world: OAuthWorld,
    home: OAuthHomeView,
    server_name: Seq<char>,
    tokens: StoredOAuthTokensView,
    now_ms: u64,
) -> (OAuthWorld, Done) {
    match keyring_save(world, home, server_name, tokens).1 {
        Ok(()) => keyring_save(world, home, server_name, tokens),
        Err(error) => (
            file_save(world, home, tokens, now_ms).0,
            match file_save(world, home, tokens, now_ms).1 {
                Ok(()) => Ok(()),
                Err(e) => Err(chained(WRITE_KEYRING_CONTEXT@, error.message, e)),
            },
        ),
    }
}

/// The media after a save in the given mode, and what the save reports.
pub open spec fn save_outcome(
    world: OAuthWorld,
    home: OAuthHomeView,
    server_name: Seq<char>,
    tokens: StoredOAuthTokensView,
    store_mode: OAuthCredentialsStoreMode,
    now_ms: u64,
) -> (OAuthWorld, Done) {
    match store_mode {
        OAuthCredentialsStoreMode::Auto => auto_save(world, home, server_name, tokens, now_ms),
        OAuthCredentialsStoreMode::File => file_save(world, home, tokens, now_ms),
        OAuthCredentialsStoreMode::Keyring => keyring_save(world, home, server_name, tokens),
    }
}

/// The entry of the credentials file for the tokens.
pub fn tokens_entry(tokens: &StoredOAuthTokens, now_ms: u64) -> (entry: FallbackTokenEntry)
    ensures
        entry@ == entry_of_tokens(tokens@, now_ms),
{
    let token_response = &tokens.token_response.0;
    let expires_at = match tokens.expires_at {
        Some(at) => Some(at),
        None => compute_expires_at_millis_at(token_response, now_ms),
    };
    let scopes = match &token_response.scopes {
        Some(scopes) => clone_texts(scopes),
        None => {
            let none: Vec<String> = Vec::new();
            assert(none.deep_view() =~= Seq::<Seq<char>>::empty());
            none
        },
    };
    FallbackTokenEntry {
        server_name: tokens.server_name.clone(),
        server_url: tokens.url.clone(),
        client_id: tokens.client_id.clone(),
        access_token: token_response.access_token.clone(),
        expires_at,
        refresh_token: token_response.refresh_token.clone(),
        scopes,
    }
}

pub fn save_oauth_tokens_to_file<K: KeyringStore<StoredOAuthTokens>, F: FileStore<FallbackFile>>(
    stores: &mut OAuthStores<K, F>,
    home: &OAuthHome,
    tokens: &StoredOAuthTokens,
    now_ms: u64,
) -> (saved: Result<(), StoreError>)
    ensures
        (final(stores)@, saved_view(saved)) == file_save(old(stores)@, home@, tokens@, now_ms),
{
    let key = match compute_store_key(tokens.server_name.as_str(), tokens.url.as_str()) {
        Ok(key) => key,
        Err(e) => {
            return Err(e);
        },
    };
    let mut store = match read_fallback_file(&stores.files, home.fallback_file.as_str()) {
        Ok(Some(store)) => store,
        Ok(None) => FallbackFile::default(),
        Err(e) => {
            return Err(e);
        },
    };
    store.insert(key, tokens_entry(tokens, now_ms));
    write_fallback_file(&mut stores.files, home.fallback_file.as_str(), &store)
}

pub fn save_oauth_tokens_with_keyring<
    K: KeyringStore<StoredOAuthTokens>,
    F: FileStore<FallbackFile>,
>(
    stores: &mut OAuthStores<K, F>,
    home: &OAuthHome,
    server_name: &str,
    tokens: &StoredOAuthTokens,
) -> (saved: Result<(), StoreError>)
    ensures
        (final(stores)@, saved_view(saved)) == keyring_save(
            old(stores)@,
            home@,
            server_name@,
            tokens@,
        ),
{
    let key = match compute_keyring_account(
        home.code_home.as_str(),
        server_name,
        tokens.url.as_str(),
    ) {
        Ok(key) => key,
        Err(e) => {
            return Err(e);
        },
    };
    match stores.keyring.save(KEYRING_SERVICE, key.as_str(), tokens) {
        Ok(()) => {
            match compute_store_key(server_name, tokens.url.as_str()) {
                Ok(file_key) => {
                    let _ = delete_oauth_tokens_from_file(
                        &mut stores.files,
                        home.fallback_file.as_str(),
                        file_key.as_str(),
                    );
                },
                Err(_) => {},
            }
            Ok(())
        },
        Err(why) => Err(
            StoreError::with_context(
                StoreErrorKind::BackendUnavailable,
                WRITE_KEYRING_CONTEXT,
                why.as_str(),
            ),
        ),
    }
}

pub fn save_oauth_tokens_with_keyring_with_fallback_to_file<
    K: KeyringStore<StoredOAuthTokens>,
    F: FileStore<FallbackFile>,
>(
    stores: &mut OAuthStores<K, F>,
    home: &OAuthHome,
    server_name: &str,
    tokens: &StoredOAuthTokens,
    now_ms: u64,
) -> (saved: Result<(), StoreError>)
    ensures
        (final(stores)@, saved_view(saved)) == auto_save(
            old(stores)@,
            home@,
            server_name@,
            tokens@,
            now_ms,
        ),
{
    match save_oauth_tokens_with_keyring(stores, home, server_name, tokens) {
        Ok(()) => Ok(()),
        Err(error) => match save_oauth_tokens_to_file(stores, home, tokens, now_ms) {
            Ok(()) => Ok(()),
            Err(e) => Err(
                StoreError {
                    kind: e.kind,
                    message: describe(
                        WRITE_KEYRING_CONTEXT,
                        error.message.as_str(),
                        e.message.as_str(),
                    ),
                },
            ),
        },
    }
}

/// Stores the tokens of the server, at the time `now_ms`.
pub fn save_oauth_tokens_at<K: KeyringStore<StoredOAuthTokens>, F: FileStore<FallbackFile>>(
    stores: &mut OAuthStores<K, F>,
    home: &OAuthHome,
    server_name: &str,
    tokens: &StoredOAuthTokens,
    store_mode: OAuthCredentialsStoreMode,
    now_ms: u64,
) -> (saved: Result<(), StoreError>)
    ensures
        (final(stores)@, saved_view(saved)) == save_outcome(
            old(stores)@,
            home@,
            server_name@,
            tokens@,
            store_mode,
            now_ms,
        ),
{
    match store_mode {
        OAuthCredentialsStoreMode::Auto => save_oauth_tokens_with_keyring_with_fallback_to_file(
            stores,
            home,
            server_name,
            tokens,
            now_ms,
        ),
        OAuthCredentialsStoreMode::File => save_oauth_tokens_to_file(stores, home, tokens, now_ms),
        OAuthCredentialsStoreMode::Keyring => save_oauth_tokens_with_keyring(
            stores,
            home,
            server_name,
            tokens,
        ),
    }
}

/// Stores the tokens of the server.
pub fn save_oauth_tokens<K: KeyringStore<StoredOAuthTokens>, F: FileStore<FallbackFile>>(
    stores: &mut OAuthStores<K, F>,
    home: &OAuthHome,
    server_name: &str,
    tokens: &StoredOAuthTokens,
    store_mode: OAuthCredentialsStoreMode,
) -> (saved: Result<(), StoreError>)
    ensures
        exists|now_ms: u64|
            (final(stores)@, saved_view(saved)) == #[trigger] save_outcome(
                old(stores)@,
                home@,
                server_name@,
                tokens@,
                store_mode,
                now_ms,
            ),
{
    let now_ms = now_millis();
    save_oauth_tokens_at(stores, home, server_name, tokens, store_mode, now_ms)
}

// ---------------------------------------------------------------------
// Deleting
// ---------------------------------------------------------------------

/// The media after the tokens of the server were deleted from the keyring
/// and from the credentials file, and whether anything was removed. A
/// failure of the keyring is an error in the keyring's mode only: in the
/// other modes it does not keep the entry of the file from being deleted.
pub open spec fn delete_outcome(
    world: OAuthWorld,
    home: OAuthHomeView,
    store_mode: OAuthCredentialsStoreMode,
    server_name: Seq<char>,
    url: Seq<char>,
) -> (OAuthWorld, Removed) {
    match (
        store_key_outcome(server_name, url),
        keyring_account_outcome(home.code_home, server_name, url),
    ) {
        (Ok(file_key), Ok(keyring_key)) => {
            let entry = (KEYRING_SERVICE@, keyring_key);
            match world.keyring.take_outcome(entry) {
                Err(why) if store_mode == OAuthCredentialsStoreMode::Keyring => (
                    world,
                    Err(failure(StoreErrorKind::BackendUnavailable, DELETE_KEYRING_CONTEXT@, why)),
                ),
                taken => {
                    let keyring_removed = match taken {
                        Ok(removed) => removed,
                        Err(_) => false,
                    };
                    let (files, file_removed) = delete_from_file(
                        world.files,
                        home.fallback_file,
                        file_key,
                    );
                    (
                        OAuthWorld { keyring: world.keyring.after_take(entry), files },
                        match file_removed {
                            Ok(removed) => Ok(keyring_removed || removed),
                            Err(e) => Err(e),
                        },
                    )
                },
            }
        },
        (Err(e), _) => (world, Err(e)),
        (_, Err(e)) => (world, Err(e)),
    }
}

pub fn delete_oauth_tokens_from_keyring_and_file<
    K: KeyringStore<StoredOAuthTokens>,
    F: FileStore<FallbackFile>,
>(
    stores: &mut OAuthStores<K, F>,
    home: &OAuthHome,
    store_mode: OAuthCredentialsStoreMode,
    server_name: &str,
    url: &str,
) -> (removed: Result<bool, StoreError>)
    ensures
        (final(stores)@, removed_view(removed)) == delete_outcome(
            old(stores)@,
            home@,
            store_mode,
            server_name@,
            url@,
        ),
{
    let file_key = match compute_store_key(server_name, url) {
        Ok(key) => key,
        Err(e) => {
            return Err(e);
        },
    };
    let keyring_key = match compute_keyring_account(home.code_home.as_str(), server_name, url) {
        Ok(key) => key,
        Err(e) => {
            return Err(e);
        },
    };
    let keyring_removed = match stores.keyring.delete(KEYRING_SERVICE, keyring_key.as_str()) {
        Ok(removed) => removed,
        Err(why) => match store_mode {
            OAuthCredentialsStoreMode::Keyring => {
                return Err(
                    StoreError::with_context(
                        StoreErrorKind::BackendUnavailable,
                        DELETE_KEYRING_CONTEXT,
                        why.as_str(),
                    ),
                );
            },
            _ => false,
        },
    };
    match delete_oauth_tokens_from_file(
        &mut stores.files,
        home.fallback_file.as_str(),
        file_key.as_str(),
    ) {
        Ok(file_removed) => Ok(keyring_removed || file_removed),
        Err(e) => Err(e),
    }
}

/// Deletes the tokens of the server wherever they are stored; tells
/// whether anything was removed.
pub fn delete_oauth_tokens<K: KeyringStore<StoredOAuthTokens>, F: FileStore<FallbackFile>>(
    stores: &mut OAuthStores<K, F>,
    home: &OAuthHome,
    server_name: &str,
    url: &str,
    store_mode: OAuthCredentialsStoreMode,
) -> (removed: Result<bool, StoreError>)
    ensures
        (final(stores)@, removed_view(removed)) == delete_outcome(
            old(stores)@,
            home@,
            store_mode,
            server_name@,
            url@,
        ),
{
    delete_oauth_tokens_from_keyring_and_file(stores, home, store_mode, server_name, url)
}

// ---------------------------------------------------------------------
// What holds of the token store
// ---------------------------------------------------------------------

/// Whether the member names a server whose key can be derived and is
/// another one than `key`.
pub open spec fn names_another(slot: FallbackSlotView, key: Seq<char>) -> bool {
    match store_key_outcome(slot.entry.server_name, slot.entry.server_url) {
        Ok(other) => other != key,
        Err(_) => false,
    }
}

/// Where no member of the credentials file names a server with the key,
/// nothing is found; the first member that names one decides, whatever the
/// later ones hold.
pub proof fn lemma_scan_entries(file: FallbackFileView, key: Seq<char>, now_ms: u64, first: int)
    requires
        0 <= first <= file.len(),
        forall|i: int| 0 <= i < first ==> names_another(#[trigger] file[i], key),
    ensures
        first == file.len() ==> scan_entries(file, key, now_ms) == Ok::<
            Option<StoredOAuthTokensView>,
            StoreErrorView,
        >(None),
        first < file.len() ==> match store_key_outcome(
            file[first].entry.server_name,
            file[first].entry.server_url,
        ) {
            Ok(found) => found == key ==> scan_entries(file, key, now_ms) == Ok::<
                Option<StoredOAuthTokensView>,
                StoreErrorView,
            >(Some(refreshed_lifetime(tokens_of_entry(file[first].entry), now_ms))),
            Err(e) => scan_entries(file, key, now_ms) == Err::<
                Option<StoredOAuthTokensView>,
                StoreErrorView,
            >(e),
        },
    decreases file.len(),
{
    if first > 0 {
        let rest = file.drop_first();
        assert(names_another(file[0], key));
        assert forall|i: int| 0 <= i < first - 1 implies names_another(
            #[trigger] rest[i],
            key,
        ) by {
            assert(rest[i] == file[i + 1]);
        }
        lemma_scan_entries(rest, key, now_ms, first - 1);
        if first < file.len() {
            assert(rest[first - 1] == file[first]);
        }
    }
}

/// Tokens that were saved to the keyring are the tokens that are loaded
/// from it next, with the lifetime that is left at the time of the load;
/// loading with the file to fall back on gives the same.
pub proof fn lemma_keyring_round_trip(
    world: OAuthWorld,
    home: OAuthHomeView,
    tokens: StoredOAuthTokensView,
    later_ms: u64,
)
    requires
        keyring_save(world, home, tokens.server_name, tokens).1 is Ok,
        keyring_account_outcome(home.code_home, tokens.server_name, tokens.url) matches Ok(key)
            && !world.keyring.read_faults.contains_key((KEYRING_SERVICE@, key)),
    ensures
        keyring_load(
            keyring_save(world, home, tokens.server_name, tokens).0,
            home,
            tokens.server_name,
            tokens.url,
            later_ms,
        ) == Ok::<Option<StoredOAuthTokensView>, StoreErrorView>(
            Some(refreshed_lifetime(tokens, later_ms)),
        ),
        auto_load(
            keyring_save(world, home, tokens.server_name, tokens).0,
            home,
            tokens.server_name,
            tokens.url,
            later_ms,
        ) == Ok::<Option<StoredOAuthTokensView>, StoreErrorView>(
            Some(refreshed_lifetime(tokens, later_ms)),
        ),
{
}

/// Tokens that were saved where no credentials file was are the tokens
/// that the file gives next: as a bearer token with the same access token,
/// refresh token and client, and with the lifetime that is left at the time
/// of the load.
pub proof fn lemma_file_round_trip(
    world: OAuthWorld,
    home: OAuthHomeView,
    tokens: StoredOAuthTokensView,
    now_ms: u64,
    later_ms: u64,
)
    requires
        world.files.fetch(home.fallback_file) is Missing,
        file_save(world, home, tokens, now_ms).1 is Ok,
    ensures
        file_load(
            file_save(world, home, tokens, now_ms).0,
            home,
            tokens.server_name,
            tokens.url,
            later_ms,
        ) == Ok::<Option<StoredOAuthTokensView>, StoreErrorView>(
            Some(refreshed_lifetime(tokens_of_entry(entry_of_tokens(tokens, now_ms)), later_ms)),
        ),
{
    let key = store_key_outcome(tokens.server_name, tokens.url)->Ok_0;
    let entry = entry_of_tokens(tokens, now_ms);
    let empty = Seq::<FallbackSlotView>::empty();
    lemma_position_none(empty, under_key(key));
    let store = with_entry(empty, key, entry);
    assert(store =~= seq![FallbackSlotView { key, entry }]);
    assert(store.len() == 1);
    assert(store[0].entry == entry);
    let after = file_save(world, home, tokens, now_ms).0;
    assert(read_fallback(after.files, home.fallback_file) == Ok::<
        Option<FallbackFileView>,
        StoreErrorView,
    >(Some(store)));
}

/// Where the keyring fails to load or holds nothing, loading with the
/// file to fall back on gives what the file holds.
pub proof fn lemma_auto_load_falls_back(
    world: OAuthWorld,
    home: OAuthHomeView,
    server_name: Seq<char>,
    url: Seq<char>,
    now_ms: u64,
)
    requires
        !(keyring_load(world, home, server_name, url, now_ms) matches Ok(Some(_))),
        file_load(world, home, server_name, url, now_ms) is Ok,
    ensures
        auto_load(world, home, server_name, url, now_ms) == file_load(
            world,
            home,
            server_name,
            url,
            now_ms,
        ),
{
}

/// Where the keyring does not take the tokens, saving with the file to fall
/// back on saves to the file: the save is made unless the file fails too.
pub proof fn lemma_auto_save_falls_back(
    world: OAuthWorld,
    home: OAuthHomeView,
    server_name: Seq<char>,
    tokens: StoredOAuthTokensView,
    now_ms: u64,
)
    requires
        keyring_save(world, home, server_name, tokens).1 is Err,
    ensures
        auto_save(world, home, server_name, tokens, now_ms).0 == file_save(
            world,
            home,
            tokens,
            now_ms,
        ).0,
        auto_save(world, home, server_name, tokens, now_ms).1 is Ok <==> file_save(
            world,
            home,
            tokens,
            now_ms,
        ).1 is Ok,
{
}

/// A deletion that succeeded leaves nothing to delete.
pub proof fn lemma_delete_once(
    world: OAuthWorld,
    home: OAuthHomeView,
    store_mode: OAuthCredentialsStoreMode,
    server_name: Seq<char>,
    url: Seq<char>,
)
    requires
        delete_outcome(world, home, store_mode, server_name, url).1 is Ok,
        keyring_account_outcome(home.code_home, server_name, url) matches Ok(key)
            && !world.keyring.remove_faults.contains_key((KEYRING_SERVICE@, key)),
        world.files.fetch(home.fallback_file) matches FetchedView::Found(file) ==> keys_unique(
            file,
        ),
    ensures
        delete_outcome(
            delete_outcome(world, home, store_mode, server_name, url).0,
            home,
            store_mode,
            server_name,
            url,
        ).1 == Ok::<bool, StoreErrorView>(false),
{
    let file_key = store_key_outcome(server_name, url)->Ok_0;
    let after = delete_outcome(world, home, store_mode, server_name, url).0;
    match world.files.fetch(home.fallback_file) {
        FetchedView::Found(file) => {
            crate::search::lemma_position(file, under_key(file_key));
            match position(file, under_key(file_key)) {
                Some(i) => {
                    let rest = without_entry(file, file_key);
                    assert forall|j: int| 0 <= j < rest.len() implies !under_key(file_key)(
                        #[trigger] rest[j],
                    ) by {
                        if j < i {
                            assert(rest[j] == file[j]);
                        } else {
                            assert(rest[j] == file[j + 1]);
                            assert(file[i].key != file[j + 1].key);
                        }
                    }
                    lemma_position_none(rest, under_key(file_key));
                },
                None => {},
            }
        },
        _ => {},
    }
}

} // verus!
