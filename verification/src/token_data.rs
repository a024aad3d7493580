//! The values that the stores hold: authentication modes, timestamps and
//! token sets, each with the mathematical view that contracts speak of.

use vstd::prelude::*;

verus! {

/// How an account authenticates.
#[derive(Clone, Copy, Debug, PartialEq, Eq, Structural)]
pub enum AuthMode {
    ApiKey,
    ChatGPT,
    ChatgptAuthTokens,
}

impl AuthMode {
    /// Whether the mode belongs to the ChatGPT family.
    pub open spec fn spec_is_chatgpt(self) -> bool {
        self != AuthMode::ApiKey
    }

    #[verifier::when_used_as_spec(spec_is_chatgpt)]
    pub fn is_chatgpt(self) -> (b: bool)
        ensures
            b == self.spec_is_chatgpt(),
    {
        match self {
            AuthMode::ApiKey => false,
            AuthMode::ChatGPT => true,
            AuthMode::ChatgptAuthTokens => true,
        }
    }
}

/// A point in time: whole seconds since the Unix epoch and the nanoseconds
/// within that second.
#[derive(Clone, Copy, Debug, PartialEq, Eq, Structural)]
pub struct Timestamp {
    pub secs: i64,
    pub nanos: u32,
}

/// What an identity token says of its holder.
#[derive(Debug, PartialEq, Eq)]
pub struct IdTokenInfo {
    pub email: Option<String>,
    pub chatgpt_plan_type: Option<String>,
    pub raw_jwt: String,
}

pub struct IdTokenInfoView {
    pub email: Option<Seq<char>>,
    pub chatgpt_plan_type: Option<Seq<char>>,
    pub raw_jwt: Seq<char>,
}

impl DeepView for IdTokenInfo {
    type V = IdTokenInfoView;

    open spec fn deep_view(&self) -> IdTokenInfoView {
        IdTokenInfoView {
            email: self.email.deep_view(),
            chatgpt_plan_type: self.chatgpt_plan_type.deep_view(),
            raw_jwt: self.raw_jwt.deep_view(),
        }
    }
}

impl View for IdTokenInfo {
    type V = IdTokenInfoView;

    open spec fn view(&self) -> IdTokenInfoView {
        self.deep_view()
    }
}

impl Clone for IdTokenInfo {
    fn clone(&self) -> (copy: Self)
        ensures
            copy@ == self@,
    {
        IdTokenInfo {
            email: self.email.clone(),
            chatgpt_plan_type: self.chatgpt_plan_type.clone(),
            raw_jwt: self.raw_jwt.clone(),
        }
    }
}

/// The tokens of a signed-in account.
#[derive(Debug, PartialEq, Eq)]
pub struct TokenData {
    pub id_token: IdTokenInfo,
    pub access_token: String,
    pub refresh_token: String,
    pub account_id: Option<String>,
}

pub struct TokenDataView {
    pub id_token: IdTokenInfoView,
    pub access_token: Seq<char>,
    pub refresh_token: Seq<char>,
    pub account_id: Option<Seq<char>>,
}

impl DeepView for TokenData {
    type V = TokenDataView;

    open spec fn deep_view(&self) -> TokenDataView {
        TokenDataView {
            id_token: self.id_token.deep_view(),
            access_token: self.access_token.deep_view(),
            refresh_token: self.refresh_token.deep_view(),
            account_id: self.account_id.deep_view(),
        }
    }
}

impl View for TokenData {
    type V = TokenDataView;

    open spec fn view(&self) -> TokenDataView {
        self.deep_view()
    }
}

impl Clone for TokenData {
    fn clone(&self) -> (copy: Self)
        ensures
            copy@ == self@,
    {
        TokenData {
            id_token: self.id_token.clone(),
            access_token: self.access_token.clone(),
            refresh_token: self.refresh_token.clone(),
            account_id: self.account_id.clone(),
        }
    }
}

} // verus!
