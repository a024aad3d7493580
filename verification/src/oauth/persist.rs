//! Keeping the stored tokens of one server up to date: what the
//! authorization manager holds is stored when it has changed, deleted when
//! it is gone, and refreshed shortly before it expires. Talking to the
//! authorization manager is the caller's part; what to do with its answers
//! is decided here.

use crate::error::{StoreError, StoreErrorKind, StoreErrorView};
use crate::media::{FileStore, KeyringStore};
use crate::oauth::store::{
    delete_oauth_tokens, delete_outcome, save_oauth_tokens_at, save_outcome, FallbackFile,
    OAuthHome, OAuthHomeView, OAuthStores, OAuthWorld, CHAIN,
};
use crate::oauth::{
    compute_expires_at_millis_at, expires_at_from, needs_refresh_at, now_millis,
    token_needs_refresh_at, OAuthCredentialsStoreMode, OAuthTokenResponse,
    OAuthTokenResponseView, StoredOAuthTokens, StoredOAuthTokensView, WrappedOAuthTokenResponse,
};
use crate::stores::saved_view;
use vstd::prelude::*;

verus! {

pub const REFRESH_CONTEXT: &'static str = "failed to refresh OAuth tokens for server ";

/// The tokens of one server as they were stored last, with where and how
/// they are stored.
#[derive(Debug)]
pub struct OAuthPersistor {
    home: OAuthHome,
    server_name: String,
    url: String,
    store_mode: OAuthCredentialsStoreMode,
    last_credentials: Option<StoredOAuthTokens>,
}

pub struct OAuthPersistorView {
    pub home: OAuthHomeView,
    pub server_name: Seq<char>,
    pub url: Seq<char>,
    pub store_mode: OAuthCredentialsStoreMode,
    pub last_credentials: Option<StoredOAuthTokensView>,
}

/// The view of tokens that may be absent.
pub open spec fn tokens_view(tokens: Option<StoredOAuthTokens>) -> Option<StoredOAuthTokensView> {
    match tokens {
        Some(tokens) => Some(tokens@),
        None => None,
    }
}

/// The view of a response that may be absent.
pub open spec fn response_view(response: Option<OAuthTokenResponse>) -> Option<
    OAuthTokenResponseView,
> {
    match response {
        Some(response) => Some(response@),
        None => None,
    }
}

impl View for OAuthPersistor {
    type V = OAuthPersistorView;

    closed spec fn view(&self) -> OAuthPersistorView {
        OAuthPersistorView {
            home: self.home@,
            server_name: self.server_name@,
            url: self.url@,
            store_mode: self.store_mode,
            last_credentials: tokens_view(self.last_credentials),
        }
    }
}

impl OAuthPersistorView {
    /// The time of expiry of the tokens that were stored last.
    pub open spec fn last_expires_at(self) -> Option<u64> {
        match self.last_credentials {
            Some(tokens) => tokens.expires_at,
            None => None,
        }
    }
}

/// What is to be done with the store.
#[derive(Debug, PartialEq, Eq)]
pub enum PersistAction {
    /// Store these tokens.
    Save(StoredOAuthTokens),
    /// Delete the stored tokens.
    Delete,
    /// Leave the store as it is.
    Nothing,
}

pub enum PersistActionView {
    Save(StoredOAuthTokensView),
    Delete,
    Nothing,
}

impl View for PersistAction {
    type V = PersistActionView;

    open spec fn view(&self) -> PersistActionView {
        match self {
            PersistAction::Save(tokens) => PersistActionView::Save(tokens@),
            PersistAction::Delete => PersistActionView::Delete,
            PersistAction::Nothing => PersistActionView::Nothing,
        }
    }
}

/// What is to be done with the authorization manager.
#[derive(Clone, Copy, Debug, PartialEq, Eq, Structural)]
pub enum RefreshAction {
    /// Nothing: the tokens are good for more than the lead, or have no
    /// time of expiry.
    Nothing,
    /// Ask the authorization manager for new tokens, then store what it
    /// holds.
    Refresh,
}

/// The tokens to store for what the authorization manager holds at
/// `now_ms`. Where the token response is the one that was stored last, the
/// time of expiry is the one that was stored with it; else it is reckoned
/// from now.
pub open spec fn assembled(
    last: Option<StoredOAuthTokensView>,
    server_name: Seq<char>,
    url: Seq<char>,
    client_id: Seq<char>,
    credentials: OAuthTokenResponseView,
    now_ms: u64,
) -> StoredOAuthTokensView {
    StoredOAuthTokensView {
        server_name,
        url,
        client_id,
        token_response: credentials,
        expires_at: match last {
            Some(previous) if previous.token_response == credentials => previous.expires_at,
            _ => expires_at_from(credentials.expires_in, now_ms),
        },
    }
}

/// What is to be done with the store for what the authorization manager
/// holds: the assembled tokens are saved unless they are, field by field,
/// what was stored last; where the manager holds nothing, what was stored
/// is deleted.
pub open spec fn persist_action(
    last: Option<StoredOAuthTokensView>,
    server_name: Seq<char>,
    url: Seq<char>,
    client_id: Seq<char>,
    credentials: Option<OAuthTokenResponseView>,
    now_ms: u64,
) -> PersistActionView {
    match credentials {
        Some(response) => {
            let stored = assembled(last, server_name, url, client_id, response, now_ms);
            if last == Some(stored) {
                PersistActionView::Nothing
            } else {
                PersistActionView::Save(stored)
            }
        },
        None => if last is Some {
            PersistActionView::Delete
        } else {
            PersistActionView::Nothing
        },
    }
}

/// What persisting reports: the failure of the save, if it fails. A
/// failure to delete is not reported.
pub open spec fn persist_report(
    persistor: OAuthPersistorView,
    world: OAuthWorld,
    client_id: Seq<char>,
    credentials: Option<OAuthTokenResponseView>,
    now_ms: u64,
) -> Result<(), StoreErrorView> {
    match persist_action(
        persistor.last_credentials,
        persistor.server_name,
        persistor.url,
        client_id,
        credentials,
        now_ms,
    ) {
        PersistActionView::Save(stored) => save_outcome(
            world,
            persistor.home,
            persistor.server_name,
            stored,
            persistor.store_mode,
            now_ms,
        ).1,
        _ => Ok(()),
    }
}

/// The media after persisting.
pub open spec fn persist_world(
    persistor: OAuthPersistorView,
    world: OAuthWorld,
    client_id: Seq<char>,
    credentials: Option<OAuthTokenResponseView>,
    now_ms: u64,
) -> OAuthWorld {
    match persist_action(
        persistor.last_credentials,
        persistor.server_name,
        persistor.url,
        client_id,
        credentials,
        now_ms,
    ) {
        PersistActionView::Save(stored) => save_outcome(
            world,
            persistor.home,
            persistor.server_name,
            stored,
            persistor.store_mode,
            now_ms,
        ).0,
        PersistActionView::Delete => delete_outcome(
            world,
            persistor.home,
            persistor.store_mode,
            persistor.server_name,
            persistor.url,
        ).0,
        PersistActionView::Nothing => world,
    }
}

/// What counts as stored last after persisting: the saved tokens where the
/// save succeeded; nothing after a deletion, whether it succeeded or not;
/// else what counted before.
pub open spec fn persist_state(
    persistor: OAuthPersistorView,
    world: OAuthWorld,
    client_id: Seq<char>,
    credentials: Option<OAuthTokenResponseView>,
    now_ms: u64,
) -> Option<StoredOAuthTokensView> {
    match persist_action(
        persistor.last_credentials,
        persistor.server_name,
        persistor.url,
        client_id,
        credentials,
        now_ms,
    ) {
        PersistActionView::Save(stored) => if persist_report(
            persistor,
            world,
            client_id,
            credentials,
            now_ms,
        ) is Ok {
            Some(stored)
        } else {
            persistor.last_credentials
        },
        PersistActionView::Delete => None,
        PersistActionView::Nothing => persistor.last_credentials,
    }
}

impl OAuthPersistor {
    pub fn new(
        home: OAuthHome,
        server_name: String,
        url: String,
        store_mode: OAuthCredentialsStoreMode,
        initial_credentials: Option<StoredOAuthTokens>,
    ) -> (persistor: Self)
        ensures
            persistor@ == (OAuthPersistorView {
                home: home@,
                server_name: server_name@,
                url: url@,
                store_mode,
                last_credentials: tokens_view(initial_credentials),
            }),
    {
        OAuthPersistor { home, server_name, url, store_mode, last_credentials: initial_credentials }
    }

    /// The tokens that were stored last.
    pub fn last_credentials(&self) -> (last: Option<StoredOAuthTokens>)
        ensures
            tokens_view(last) == self@.last_credentials,
    {
        match &self.last_credentials {
            Some(tokens) => Some(tokens.clone()),
            None => None,
        }
    }

    /// The time of expiry of the tokens that were stored last.
    pub fn last_expires_at(&self) -> (expires_at: Option<u64>)
        ensures
            expires_at == self@.last_expires_at(),
    {
        match &self.last_credentials {
            Some(tokens) => tokens.expires_at,
            None => None,
        }
    }

    /// What is to be done with the store for what the authorization manager
    /// holds at `now_ms`.
    pub fn persist_decision(
        &self,
        client_id: String,
        credentials: Option<OAuthTokenResponse>,
        now_ms: u64,
    ) -> (action: PersistAction)
        ensures
            action@ == persist_action(
                self@.last_credentials,
                self@.server_name,
                self@.url,
                client_id@,
                response_view(credentials),
                now_ms,
            ),
    {
        match credentials {
            Some(credentials) => {
                let same_token = match &self.last_credentials {
                    Some(previous) => previous.token_response.0.same_as(&credentials),
                    None => false,
                };
                let expires_at = if same_token {
                    self.last_expires_at()
                } else {
                    compute_expires_at_millis_at(&credentials, now_ms)
                };
                let stored = StoredOAuthTokens {
                    server_name: self.server_name.clone(),
                    url: self.url.clone(),
                    client_id,
                    token_response: WrappedOAuthTokenResponse(credentials),
                    expires_at,
                };
                let unchanged = match &self.last_credentials {
                    Some(previous) => previous.same_as(&stored),
                    None => false,
                };
                if unchanged {
                    PersistAction::Nothing
                } else {
                    PersistAction::Save(stored)
                }
            },
            None => if self.last_credentials.is_some() {
                PersistAction::Delete
            } else {
                PersistAction::Nothing
            },
        }
    }

    /// Stores what the authorization manager holds at `now_ms`, if it has
    /// changed, and deletes what is stored if the manager holds nothing any
    /// more.
    pub fn persist_if_needed_at<K: KeyringStore<StoredOAuthTokens>, F: FileStore<FallbackFile>>(
        &mut self,
        stores: &mut OAuthStores<K, F>,
        client_id: String,
        credentials: Option<OAuthTokenResponse>,
        now_ms: u64,
    ) -> (persisted: Result<(), StoreError>)
        ensures
            saved_view(persisted) == persist_report(
                old(self)@,
                old(stores)@,
                client_id@,
                response_view(credentials),
                now_ms,
            ),
            final(stores)@ == persist_world(
                old(self)@,
                old(stores)@,
                client_id@,
                response_view(credentials),
                now_ms,
            ),
            final(self)@ == (OAuthPersistorView {
                last_credentials: persist_state(
                    old(self)@,
                    old(stores)@,
                    client_id@,
                    response_view(credentials),
                    now_ms,
                ),
                ..old(self)@
            }),
    {
        match self.persist_decision(client_id, credentials, now_ms) {
            PersistAction::Save(stored) => {
                match save_oauth_tokens_at(
                    stores,
                    &self.home,
                    self.server_name.as_str(),
                    &stored,
                    self.store_mode,
                    now_ms,
                ) {
                    Ok(()) => {},
                    Err(e) => {
                        return Err(e);
                    },
                }
                self.last_credentials = Some(stored);
                Ok(())
            },
            PersistAction::Delete => {
                self.last_credentials = None;
                let _ = delete_oauth_tokens(
                    stores,
                    &self.home,
                    self.server_name.as_str(),
                    self.url.as_str(),
                    self.store_mode,
                );
                Ok(())
            },
            PersistAction::Nothing => Ok(()),
        }
    }

    /// Stores what the authorization manager holds now, if it has changed.
    pub fn persist_if_needed<K: KeyringStore<StoredOAuthTokens>, F: FileStore<FallbackFile>>(
        &mut self,
        stores: &mut OAuthStores<K, F>,
        client_id: String,
        credentials: Option<OAuthTokenResponse>,
    ) -> (persisted: Result<(), StoreError>)
        ensures
            exists|now_ms: u64|
                {
                    &&& saved_view(persisted) == #[trigger] persist_report(
                        old(self)@,
                        old(stores)@,
                        client_id@,
                        response_view(credentials),
                        now_ms,
                    )
                    &&& final(stores)@ == persist_world(
                        old(self)@,
                        old(stores)@,
                        client_id@,
                        response_view(credentials),
                        now_ms,
                    )
                    &&& final(self)@ == (OAuthPersistorView {
                        last_credentials: persist_state(
                            old(self)@,
                            old(stores)@,
                            client_id@,
                            response_view(credentials),
                            now_ms,
                        ),
                        ..old(self)@
                    })
                },
    {
        let now_ms = now_millis();
        self.persist_if_needed_at(stores, client_id, credentials, now_ms)
    }

    /// Whether the authorization manager is to be asked for new tokens at
    /// `now_ms`: it is when the tokens that were stored last expire within
    /// thirty seconds or have expired. After the refresh the caller persists
    /// what the manager then holds.
    pub fn refresh_if_needed_at(&self, now_ms: u64) -> (action: RefreshAction)
        ensures
            action == (if needs_refresh_at(self@.last_expires_at(), now_ms) {
                RefreshAction::Refresh
            } else {
                RefreshAction::Nothing
            }),
    {
        if token_needs_refresh_at(self.last_expires_at(), now_ms) {
            RefreshAction::Refresh
        } else {
            RefreshAction::Nothing
        }
    }

    /// Whether the authorization manager is to be asked for new tokens now.
    pub fn refresh_if_needed(&self) -> (action: RefreshAction)
        ensures
            exists|now_ms: u64|
                action == (if #[trigger] needs_refresh_at(self@.last_expires_at(), now_ms) {
                    RefreshAction::Refresh
                } else {
                    RefreshAction::Nothing
                }),
    {
        let now_ms = now_millis();
        self.refresh_if_needed_at(now_ms)
    }

    /// The error to report where the authorization manager failed to
    /// refresh the tokens.
    pub fn refresh_failed(&self, why: &str) -> (e: StoreError)
        ensures
            e@ == (StoreErrorView {
                kind: StoreErrorKind::BackendUnavailable,
                message: REFRESH_CONTEXT@ + self@.server_name + CHAIN@ + why@,
            }),
    {
        StoreError {
            kind: StoreErrorKind::BackendUnavailable,
            message: crate::oauth::store::describe(
                REFRESH_CONTEXT,
                self.server_name.as_str(),
                why,
            ),
        }
    }
}

/// Persisting twice what the authorization manager holds writes once: after
/// a save that succeeded, the same answer of the manager leaves the store as
/// it is, at whatever time it comes.
pub proof fn lemma_persist_is_idempotent(
    persistor: OAuthPersistorView,
    world: OAuthWorld,
    client_id: Seq<char>,
    credentials: OAuthTokenResponseView,
    now_ms: u64,
    later_ms: u64,
)
    requires
        persist_report(persistor, world, client_id, Some(credentials), now_ms) is Ok,
    ensures
        persist_action(
            persist_state(persistor, world, client_id, Some(credentials), now_ms),
            persistor.server_name,
            persistor.url,
            client_id,
            Some(credentials),
            later_ms,
        ) == PersistActionView::Nothing,
{
}

/// Tokens that are not due are left alone, and tokens that are due are
/// refreshed once: after a refresh that brought tokens with a lifetime that
/// ends more than thirty seconds from now, and a save that succeeded, no
/// refresh is due.
pub proof fn lemma_refresh_cycle_ends(
    persistor: OAuthPersistorView,
    world: OAuthWorld,
    client_id: Seq<char>,
    credentials: OAuthTokenResponseView,
    now_ms: u64,
)
    requires
        persist_report(persistor, world, client_id, Some(credentials), now_ms) is Ok,
        persistor.last_credentials matches Some(previous) ==> previous.token_response
            != credentials,
        credentials.expires_in matches Some(seconds) && seconds * 1000 > 30_000 && now_ms
            + seconds * 1000 <= u64::MAX,
    ensures
        !needs_refresh_at(
            (OAuthPersistorView {
                last_credentials: persist_state(
                    persistor,
                    world,
                    client_id,
                    Some(credentials),
                    now_ms,
                ),
                ..persistor
            }).last_expires_at(),
            now_ms,
        ),
{
}

} // verus!
