//! The credential set of the command-line tool itself.

use crate::media::Document;
use crate::token_data::{AuthMode, Timestamp, TokenData, TokenDataView};
use vstd::prelude::*;

pub mod storage;

verus! {

/// The credentials in use: the mode, and the API key or the tokens that go
/// with it. There is one per root directory.
#[derive(Debug, PartialEq, Eq)]
pub struct AuthDotJson {
    pub auth_mode: Option<AuthMode>,
    pub openai_api_key: Option<String>,
    pub tokens: Option<TokenData>,
    pub last_refresh: Option<Timestamp>,
}

pub struct AuthDotJsonView {
    pub auth_mode: Option<AuthMode>,
    pub openai_api_key: Option<Seq<char>>,
    pub tokens: Option<TokenDataView>,
    pub last_refresh: Option<Timestamp>,
}

impl DeepView for AuthDotJson {
    type V = AuthDotJsonView;

    open spec fn deep_view(&self) -> AuthDotJsonView {
        AuthDotJsonView {
            auth_mode: self.auth_mode,
            openai_api_key: self.openai_api_key.deep_view(),
            tokens: self.tokens.deep_view(),
            last_refresh: self.last_refresh,
        }
    }
}

impl View for AuthDotJson {
    type V = AuthDotJsonView;

    open spec fn view(&self) -> AuthDotJsonView {
        self.deep_view()
    }
}

impl Clone for AuthDotJson {
    fn clone(&self) -> (copy: Self)
        ensures
            copy@ == self@,
    {
        AuthDotJson {
            auth_mode: self.auth_mode,
            openai_api_key: self.openai_api_key.clone(),
            tokens: self.tokens.clone(),
            last_refresh: self.last_refresh,
        }
    }
}

impl Document for AuthDotJson {
    fn duplicate(&self) -> (copy: Self) {
        self.clone()
    }
}

} // verus!
