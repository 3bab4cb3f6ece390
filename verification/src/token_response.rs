//! Interpretation of one transport response: a 2xx status with a
//! schema-valid body yields a token, anything else a typed or decoding
//! failure. Parsing the raw bytes into plain fields is the caller's job;
//! every decision taken on those fields is made — and specified — here.

use vstd::prelude::*;

use crate::auth_code::AuthCodeToken;
use crate::auth_token_error::{AuthTokenError, AuthTokenErrorKind};
use crate::scope::{
    lemma_split_join_roundtrip, spec_join_spaces, spec_normalize_scope, wf_scope_list, ScopeValue,
};
use crate::utils::{opt_str_view, seq_str_view};
use crate::{Token, TokenView};

verus! {

/// The fields of a token response body that passed schema validation,
/// still in wire shape: the scope may be either a string or a list.
pub struct TokenResponseFields {
    pub access_token: String,
    pub token_type: String,
    pub refresh_token: Option<String>,
    pub expires_in: Option<u32>,
    pub scope: Option<ScopeValue>,
}

/// The normalized token such fields describe.
pub open spec fn spec_token_of_fields(f: TokenResponseFields) -> TokenView {
    TokenView {
        access_token: f.access_token@,
        token_type: f.token_type@,
        refresh_token: opt_str_view(f.refresh_token),
        expires_in: f.expires_in,
        scope: match f.scope {
            Some(v) => Some(spec_normalize_scope(v)),
            None => None,
        },
    }
}

/// Dual-shape agreement: when the other fields coincide, a response that
/// carries a well-formed scope list space-joined in one string and a
/// response that carries it as the native list describe the very same
/// token.
pub proof fn lemma_scope_shapes_agree(
    text: TokenResponseFields,
    list: TokenResponseFields,
    words: Seq<Seq<char>>,
)
    requires
        wf_scope_list(words),
        text.scope matches Some(ScopeValue::Text(s)) && s@ == spec_join_spaces(words),
        list.scope matches Some(ScopeValue::List(l)) && seq_str_view(l@) == words,
        text.access_token@ == list.access_token@,
        text.token_type@ == list.token_type@,
        opt_str_view(text.refresh_token) == opt_str_view(list.refresh_token),
        text.expires_in == list.expires_in,
    ensures
        spec_token_of_fields(text) == spec_token_of_fields(list),
{
    lemma_split_join_roundtrip(words);
    assert(spec_token_of_fields(text) =~= spec_token_of_fields(list));
}

/// The fields of an error response body that passed schema validation;
/// the tag is still the raw wire string.
pub struct ErrorResponseFields {
    pub error: String,
    pub error_description: Option<String>,
    pub error_uri: Option<String>,
}

/// Why a token request did not produce a token.
#[derive(Debug)]
pub enum TokenResponseError {
    /// The endpoint answered with a well-formed error object.
    Protocol(AuthTokenError),
    /// The body did not match the expected schema.
    Decoding,
}

/// Interprets one transport response. A 2xx status with schema-valid
/// token fields is the only success; on every other path the caller gets
/// either the typed protocol error or a decoding failure — never a
/// half-built token, and never a panic.
pub fn interpret_token_response(
    status: u16,
    token_fields: Option<TokenResponseFields>,
    error_fields: Option<ErrorResponseFields>,
) -> (r: Result<AuthCodeToken, TokenResponseError>)
    ensures
        200 <= status < 300 ==> match token_fields {
            Some(f) => r matches Ok(t) && t.token_view() == spec_token_of_fields(f),
            None => r matches Err(TokenResponseError::Decoding),
        },
        !(200 <= status < 300) ==> match error_fields {
            Some(f) => match AuthTokenErrorKind::spec_of_tag(f.error@) {
                Some(k) => r matches Err(TokenResponseError::Protocol(e)) && e.spec_kind() == k
                    && e.spec_description() == opt_str_view(f.error_description) && e.spec_uri()
                    == opt_str_view(f.error_uri),
                None => r matches Err(TokenResponseError::Decoding),
            },
            None => r matches Err(TokenResponseError::Decoding),
        },
{
    if 200 <= status && status < 300 {
        match token_fields {
            Some(f) => Ok(AuthCodeToken::from_response_fields(f)),
            None => Err(TokenResponseError::Decoding),
        }
    } else {
        match error_fields {
            Some(f) => {
                let ErrorResponseFields { error, error_description, error_uri } = f;
                match AuthTokenErrorKind::from_wire_tag(error.as_str()) {
                    Some(k) => Err(
                        TokenResponseError::Protocol(
                            AuthTokenError::new(k, error_description, error_uri),
                        ),
                    ),
                    None => Err(TokenResponseError::Decoding),
                }
            },
            None => Err(TokenResponseError::Decoding),
        }
    }
}

} // verus!
