//! Client-side toolkit for building OAuth 2.0 protocol requests and
//! interpreting their responses.
//!
//! Each grant-type request is a struct implementing the [`OAuthParams`]
//! capability trait; one shared algorithm renders any of them into the
//! ordered `(key, value)` parameter list that goes on the wire. Token
//! responses are normalized into [`AuthCodeToken`], whose validity is a
//! pure function of its expiry field and the seconds elapsed since it was
//! issued.

use vstd::prelude::*;

mod auth_code;
mod auth_token_error;
mod client_cred_grant_token_request;
mod clock;
mod code_verifier;
mod internal_traits;
mod owner_password_token_request;
mod refresh_token_request;
mod scope;
mod token_response;
mod url_encode;
mod utils;

pub use auth_code::{
    token_validity, AuthCodeAccessTokenRequest, AuthCodeError, AuthCodeErrorKind, AuthCodeRequest,
    AuthCodeToken,
};
pub use auth_token_error::{AuthTokenError, AuthTokenErrorKind};
pub use client_cred_grant_token_request::ClientCredentialsGrantAuthTokenRequest;
pub use code_verifier::{ChallengMethod, CodeVerifier, Unreserved};
pub use internal_traits::{OAuthParams, ParamsView};
pub use owner_password_token_request::OwnerPasswordAccessTokenRequest;
pub use refresh_token_request::RefreshTokenRequest;
pub use scope::ScopeValue;
pub use token_response::{
    interpret_token_response, ErrorResponseFields, TokenResponseError, TokenResponseFields,
};
pub use url_encode::EncodingError;
pub use utils::append_to_vec;

use crate::scope::spec_join_spaces;
use crate::utils::{opt_str_view, seq_str_view};

verus! {

/// The observable state of an access token: every field that equality and
/// the accessors speak of. The issuance instant is deliberately absent.
#[verifier::ext_equal]
pub struct TokenView {
    pub access_token: Seq<char>,
    pub token_type: Seq<char>,
    pub refresh_token: Option<Seq<char>>,
    pub expires_in: Option<u32>,
    pub scope: Option<Seq<Seq<char>>>,
}

/// Capability for access-token representations: mutators used right after
/// construction, accessors, and an expiry check.
pub trait Token: Sized {
    /// The abstract value of the token.
    spec fn token_view(&self) -> TokenView;

    fn set_refresh_token(&mut self, refresh_token: String)
        ensures
            final(self).token_view() == (TokenView {
                refresh_token: Some(refresh_token@),
                ..old(self).token_view()
            }),
    ;

    fn set_exprires_in(&mut self, expires_in: u32)
        ensures
            final(self).token_view() == (TokenView {
                expires_in: Some(expires_in),
                ..old(self).token_view()
            }),
    ;

    fn set_scope(&mut self, scopes: Vec<String>)
        ensures
            final(self).token_view() == (TokenView {
                scope: Some(seq_str_view(scopes@)),
                ..old(self).token_view()
            }),
    ;

    fn access_token(&self) -> (r: String)
        ensures
            r@ == self.token_view().access_token,
    ;

    fn refresh_token(&self) -> (r: Option<String>)
        ensures
            opt_str_view(r) == self.token_view().refresh_token,
    ;

    fn token_type(&self) -> (r: String)
        ensures
            r@ == self.token_view().token_type,
    ;

    /// The scope list joined with single spaces, or `None` if the token
    /// carries no scope at all.
    fn scopes(&self) -> (r: Option<String>)
        ensures
            match self.token_view().scope {
                Some(l) => r matches Some(s) && s@ == spec_join_spaces(l),
                None => r is None,
            },
    ;

    /// A token without expiry information is always usable (fail open).
    fn is_valid(&self) -> (r: bool)
        ensures
            self.token_view().expires_in is None ==> r,
    ;
}

} // verus!
