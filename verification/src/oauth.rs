//! OAuth tokens of tool servers: what is stored for a server, where it is
//! stored, and when tokens are refreshed and stored again.

use crate::media::Document;
use crate::text::{clone_texts, same_optional_text, same_texts};
use vstd::prelude::*;

pub mod persist;
pub mod store;

verus! {

/// The lead before the declared expiry at which tokens are refreshed, in
/// milliseconds.
pub const REFRESH_SKEW_MILLIS: u64 = 30_000;

/// Where the tokens of tool servers are kept.
#[derive(Clone, Copy, Debug, PartialEq, Eq, Structural)]
pub enum OAuthCredentialsStoreMode {
    /// In the keyring where it works, else in the file.
    Auto,
    /// In the credentials file under the root directory.
    File,
    /// In the keyring; a failing keyring is an error.
    Keyring,
}

impl Default for OAuthCredentialsStoreMode {
    fn default() -> (mode: Self)
        ensures
            mode == OAuthCredentialsStoreMode::Auto,
    {
        OAuthCredentialsStoreMode::Auto
    }
}

/// The kind of an access token.
#[derive(Debug, PartialEq, Eq)]
pub enum TokenType {
    Bearer,
    Mac,
    Extension(String),
}

pub enum TokenTypeView {
    Bearer,
    Mac,
    Extension(Seq<char>),
}

impl View for TokenType {
    type V = TokenTypeView;

    open spec fn view(&self) -> TokenTypeView {
        match self {
            TokenType::Bearer => TokenTypeView::Bearer,
            TokenType::Mac => TokenTypeView::Mac,
            TokenType::Extension(name) => TokenTypeView::Extension(name@),
        }
    }
}

impl Clone for TokenType {
    fn clone(&self) -> (copy: Self)
        ensures
            copy@ == self@,
    {
        match self {
            TokenType::Bearer => TokenType::Bearer,
            TokenType::Mac => TokenType::Mac,
            TokenType::Extension(name) => TokenType::Extension(name.clone()),
        }
    }
}

/// What an authorization server answered to a token request: the access
/// token, its kind, its lifetime in seconds, the refresh token, the scopes,
/// and whatever else the server sent, as JSON text.
#[derive(Debug, PartialEq, Eq)]
pub struct OAuthTokenResponse {
    pub access_token: String,
    pub token_type: TokenType,
    pub expires_in: Option<u64>,
    pub refresh_token: Option<String>,
    pub scopes: Option<Vec<String>>,
    pub extra_fields: String,
}

pub struct OAuthTokenResponseView {
    pub access_token: Seq<char>,
    pub token_type: TokenTypeView,
    pub expires_in: Option<u64>,
    pub refresh_token: Option<Seq<char>>,
    pub scopes: Option<Seq<Seq<char>>>,
    pub extra_fields: Seq<char>,
}

impl View for OAuthTokenResponse {
    type V = OAuthTokenResponseView;

    open spec fn view(&self) -> OAuthTokenResponseView {
        OAuthTokenResponseView {
            access_token: self.access_token@,
            token_type: self.token_type@,
            expires_in: self.expires_in,
            refresh_token: self.refresh_token.deep_view(),
            scopes: self.scopes.deep_view(),
            extra_fields: self.extra_fields@,
        }
    }
}

impl TokenType {
    /// Whether the two kinds are the same.
    pub fn same_as(&self, other: &TokenType) -> (same: bool)
        ensures
            same == (self@ == other@),
    {
        match (self, other) {
            (TokenType::Bearer, TokenType::Bearer) => true,
            (TokenType::Mac, TokenType::Mac) => true,
            (TokenType::Extension(a), TokenType::Extension(b)) => *a == *b,
            _ => false,
        }
    }
}

impl Clone for OAuthTokenResponse {
    fn clone(&self) -> (copy: Self)
        ensures
            copy@ == self@,
    {
        OAuthTokenResponse {
            access_token: self.access_token.clone(),
            token_type: self.token_type.clone(),
            expires_in: self.expires_in,
            refresh_token: self.refresh_token.clone(),
            scopes: match &self.scopes {
                Some(scopes) => Some(clone_texts(scopes)),
                None => None,
            },
            extra_fields: self.extra_fields.clone(),
        }
    }
}

impl OAuthTokenResponse {
    /// A response with the access token and its kind, and nothing else.
    pub fn new(access_token: String, token_type: TokenType) -> (response: Self)
        ensures
            response@ == (OAuthTokenResponseView {
                access_token: access_token@,
                token_type: token_type@,
                expires_in: None,
                refresh_token: None,
                scopes: None,
                extra_fields: Seq::empty(),
            }),
    {
        OAuthTokenResponse {
            access_token,
            token_type,
            expires_in: None,
            refresh_token: None,
            scopes: None,
            extra_fields: String::new(),
        }
    }

    /// Sets the declared lifetime, in seconds.
    pub fn set_expires_in(&mut self, expires_in: Option<u64>)
        ensures
            final(self)@ == (OAuthTokenResponseView { expires_in, ..old(self)@ }),
    {
        self.expires_in = expires_in;
    }

    /// Sets the refresh token.
    pub fn set_refresh_token(&mut self, refresh_token: Option<String>)
        ensures
            final(self)@ == (OAuthTokenResponseView {
                refresh_token: refresh_token.deep_view(),
                ..old(self)@
            }),
    {
        self.refresh_token = refresh_token;
    }

    /// Sets the scopes.
    pub fn set_scopes(&mut self, scopes: Option<Vec<String>>)
        ensures
            final(self)@ == (OAuthTokenResponseView { scopes: scopes.deep_view(), ..old(self)@ }),
    {
        self.scopes = scopes;
    }

    /// Whether the two responses are the same, field by field.
    pub fn same_as(&self, other: &OAuthTokenResponse) -> (same: bool)
        ensures
            same == (self@ == other@),
    {
        let same_scopes = match (&self.scopes, &other.scopes) {
            (Some(a), Some(b)) => same_texts(a, b),
            (None, None) => true,
            _ => false,
        };
        self.access_token == other.access_token && self.token_type.same_as(&other.token_type)
            && self.expires_in == other.expires_in && same_optional_text(
            &self.refresh_token,
            &other.refresh_token,
        ) && same_scopes && self.extra_fields == other.extra_fields
    }
}

/// A token response that is compared by what it holds.
#[derive(Debug, PartialEq, Eq)]
pub struct WrappedOAuthTokenResponse(pub OAuthTokenResponse);

impl View for WrappedOAuthTokenResponse {
    type V = OAuthTokenResponseView;

    open spec fn view(&self) -> OAuthTokenResponseView {
        self.0@
    }
}

impl Clone for WrappedOAuthTokenResponse {
    fn clone(&self) -> (copy: Self)
        ensures
            copy@ == self@,
    {
        WrappedOAuthTokenResponse(self.0.clone())
    }
}

/// The tokens stored for one server.
#[derive(Debug, PartialEq, Eq)]
pub struct StoredOAuthTokens {
    pub server_name: String,
    pub url: String,
    pub client_id: String,
    pub token_response: WrappedOAuthTokenResponse,
    /// The time at which the access token expires, in milliseconds since
    /// the Unix epoch.
    pub expires_at: Option<u64>,
}

pub struct StoredOAuthTokensView {
    pub server_name: Seq<char>,
    pub url: Seq<char>,
    pub client_id: Seq<char>,
    pub token_response: OAuthTokenResponseView,
    pub expires_at: Option<u64>,
}

impl View for StoredOAuthTokens {
    type V = StoredOAuthTokensView;

    open spec fn view(&self) -> StoredOAuthTokensView {
        StoredOAuthTokensView {
            server_name: self.server_name@,
            url: self.url@,
            client_id: self.client_id@,
            token_response: self.token_response@,
            expires_at: self.expires_at,
        }
    }
}

impl Clone for StoredOAuthTokens {
    fn clone(&self) -> (copy: Self)
        ensures
            copy@ == self@,
    {
        StoredOAuthTokens {
            server_name: self.server_name.clone(),
            url: self.url.clone(),
            client_id: self.client_id.clone(),
            token_response: self.token_response.clone(),
            expires_at: self.expires_at,
        }
    }
}

impl Document for StoredOAuthTokens {
    fn duplicate(&self) -> (copy: Self) {
        self.clone()
    }
}

impl StoredOAuthTokens {
    /// Whether the two hold the same, field by field.
    pub fn same_as(&self, other: &StoredOAuthTokens) -> (same: bool)
        ensures
            same == (self@ == other@),
    {
        self.server_name == other.server_name && self.url == other.url && self.client_id
            == other.client_id && self.token_response.0.same_as(&other.token_response.0)
            && self.expires_at == other.expires_at
    }
}

// ---------------------------------------------------------------------
// Expiry
// ---------------------------------------------------------------------

/// `std::time::SystemTime::now`, as the milliseconds since the Unix epoch,
/// and zero where the clock stands before the epoch. Nothing is claimed of
/// it.
#[verifier::external_body]
pub(crate) fn system_time_millis() -> (millis: u128) {
    std::time::SystemTime::now().duration_since(std::time::UNIX_EPOCH).unwrap_or_else(
        |_| std::time::Duration::from_secs(0),
    ).as_millis()
}

/// A count of milliseconds as a time that can be written: the count
/// itself, or the largest time where the count is beyond it.
pub open spec fn saturated_millis(millis: u128) -> u64 {
    if millis > u64::MAX {
        u64::MAX
    } else {
        millis as u64
    }
}

/// The time that a reading of the clock stands for.
pub fn saturate_millis(millis: u128) -> (now_ms: u64)
    ensures
        now_ms == saturated_millis(millis),
{
    if millis > 0xffff_ffff_ffff_ffff {
        0xffff_ffff_ffff_ffff
    } else {
        millis as u64
    }
}

/// The time by the clock, in milliseconds since the Unix epoch. What the
/// clock reads is not known beforehand: every function that asks for the
/// time says what holds at whatever time it was given.
pub(crate) fn now_millis() -> (now_ms: u64) {
    saturate_millis(system_time_millis())
}

/// The time of expiry of tokens that are received at `now_ms` with the
/// declared lifetime: the two added, and the largest time that can be
/// written where the sum is beyond it. Tokens without a declared lifetime,
/// or with one that cannot be counted in seconds from the epoch, have none.
pub open spec fn expires_at_from(expires_in: Option<u64>, now_ms: u64) -> Option<u64> {
    match expires_in {
        None => None,
        Some(seconds) => if now_ms / 1000 + seconds > u64::MAX {
            None
        } else if now_ms + seconds * 1000 > u64::MAX {
            Some(u64::MAX)
        } else {
            Some((now_ms + seconds * 1000) as u64)
        },
    }
}

/// The lifetime that is left at `now_ms` of tokens that expire at
/// `expires_at`, in whole seconds; none where they have expired.
pub open spec fn expires_in_at(expires_at: u64, now_ms: u64) -> Option<u64> {
    if expires_at <= now_ms {
        None
    } else {
        Some(((expires_at - now_ms) / 1000) as u64)
    }
}

/// Whether tokens that expire at `expires_at` are to be refreshed at
/// `now_ms`: they are where they expire within the lead or have expired.
/// Tokens without a time of expiry are never refreshed ahead of time.
pub open spec fn needs_refresh_at(expires_at: Option<u64>, now_ms: u64) -> bool {
    match expires_at {
        None => false,
        Some(expires_at) => now_ms + REFRESH_SKEW_MILLIS >= expires_at,
    }
}

pub fn compute_expires_at_millis_at(response: &OAuthTokenResponse, now_ms: u64) -> (expires_at:
    Option<u64>)
    ensures
        expires_at == expires_at_from(response@.expires_in, now_ms),
{
    let seconds = match response.expires_in {
        Some(seconds) => seconds,
        None => {
            return None;
        },
    };
    if (now_ms / 1000) as u128 + seconds as u128 > 0xffff_ffff_ffff_ffff {
        return None;
    }
    let millis: u128 = now_ms as u128 + seconds as u128 * 1000;
    if millis > 0xffff_ffff_ffff_ffff {
        Some(0xffff_ffff_ffff_ffff)
    } else {
        Some(millis as u64)
    }
}

/// The time of expiry of tokens that are received now.
pub fn compute_expires_at_millis(response: &OAuthTokenResponse) -> (expires_at: Option<u64>)
    ensures
        exists|now_ms: u64| expires_at == #[trigger] expires_at_from(response@.expires_in, now_ms),
{
    let now_ms = now_millis();
    compute_expires_at_millis_at(response, now_ms)
}

pub fn expires_in_from_timestamp_at(expires_at: u64, now_ms: u64) -> (expires_in: Option<u64>)
    ensures
        expires_in == expires_in_at(expires_at, now_ms),
{
    if expires_at <= now_ms {
        None
    } else {
        Some((expires_at - now_ms) / 1000)
    }
}

/// The lifetime that is left now.
pub fn expires_in_from_timestamp(expires_at: u64) -> (expires_in: Option<u64>)
    ensures
        exists|now_ms: u64| expires_in == #[trigger] expires_in_at(expires_at, now_ms),
{
    let now_ms = now_millis();
    expires_in_from_timestamp_at(expires_at, now_ms)
}

pub fn token_needs_refresh_at(expires_at: Option<u64>, now_ms: u64) -> (needed: bool)
    ensures
        needed == needs_refresh_at(expires_at, now_ms),
{
    match expires_at {
        None => false,
        Some(expires_at) => now_ms.saturating_add(REFRESH_SKEW_MILLIS) >= expires_at,
    }
}

/// Whether the tokens are to be refreshed now.
pub fn token_needs_refresh(expires_at: Option<u64>) -> (needed: bool)
    ensures
        exists|now_ms: u64| needed == #[trigger] needs_refresh_at(expires_at, now_ms),
        expires_at is None ==> !needed,
{
    let now_ms = now_millis();
    token_needs_refresh_at(expires_at, now_ms)
}

/// The stored tokens as they are handed out at `now_ms`: where they have a
/// time of expiry, the declared lifetime is what is left of it, and absent
/// where they have expired; tokens without a time of expiry are handed out
/// as they are.
pub open spec fn refreshed_lifetime(tokens: StoredOAuthTokensView, now_ms: u64) -> StoredOAuthTokensView {
    match tokens.expires_at {
        None => tokens,
        Some(expires_at) => StoredOAuthTokensView {
            token_response: OAuthTokenResponseView {
                expires_in: expires_in_at(expires_at, now_ms),
                ..tokens.token_response
            },
            ..tokens
        },
    }
}

pub fn refresh_expires_in_from_timestamp(tokens: &mut StoredOAuthTokens, now_ms: u64)
    ensures
        final(tokens)@ == refreshed_lifetime(old(tokens)@, now_ms),
{
    match tokens.expires_at {
        None => {},
        Some(expires_at) => {
            let expires_in = expires_in_from_timestamp_at(expires_at, now_ms);
            tokens.token_response.0.set_expires_in(expires_in);
        },
    }
}

/// Tokens that were stored with a lifetime of a minute and are loaded at
/// once have sixty seconds left.
pub proof fn lemma_expiry_round_trip(now_ms: u64)
    requires
        now_ms + 60_000 <= u64::MAX,
    ensures
        expires_in_at((now_ms + 60_000) as u64, now_ms) == Some(60u64),
        expires_at_from(Some(60u64), now_ms) == Some((now_ms + 60_000) as u64),
{
}

/// The lifetime that is left does not grow as time goes on, and none is
/// left from the time of expiry on.
pub proof fn lemma_expires_in_decreases(expires_at: u64, earlier: u64, later: u64)
    requires
        earlier <= later,
    ensures
        later >= expires_at ==> expires_in_at(expires_at, later) is None,
        expires_in_at(expires_at, later) matches Some(left) ==> expires_in_at(
            expires_at,
            earlier,
        ) matches Some(before) && left <= before,
        expires_in_at(expires_at, later) matches Some(left) ==> left * 1000 <= expires_at - later,
{
}

/// Tokens are refreshed exactly from thirty seconds before their expiry
/// on, and tokens without a time of expiry never.
pub proof fn lemma_refresh_gate(expires_at: u64, now_ms: u64)
    ensures
        !needs_refresh_at(None, now_ms),
        needs_refresh_at(Some(expires_at), now_ms) <==> expires_at - now_ms <= 30_000,
        now_ms >= expires_at ==> needs_refresh_at(Some(expires_at), now_ms),
{
}

} // verus!
