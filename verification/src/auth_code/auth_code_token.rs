//! The access token of the authorization-code grant, with its issuance
//! instant and the pure validity decision.

use vstd::prelude::*;

use crate::clock;
use crate::scope::{join_scopes, normalize_scope};
use crate::token_response::{spec_token_of_fields, TokenResponseFields};
use crate::utils;
use crate::utils::{opt_str_view, opt_vec_str_view, seq_str_view};
use crate::{Token, TokenView};

verus! {

/// Whether a token is usable: no expiry information or an unreadable
/// clock both count as valid (fail open, by design), otherwise the whole
/// seconds elapsed since issuance must be strictly below `expires_in`.
pub open spec fn spec_token_validity(expires_in: Option<u32>, elapsed: Option<u64>) -> bool {
    match expires_in {
        None => true,
        Some(e) => match elapsed {
            None => true,
            Some(sec) => sec < e as u64,
        },
    }
}

/// The validity decision as executable code: every clock outcome is an
/// argument, so the decision itself is exact.
pub fn token_validity(expires_in: Option<u32>, elapsed_secs: Option<u64>) -> (r: bool)
    ensures
        r == spec_token_validity(expires_in, elapsed_secs),
{
    match expires_in {
        None => true,
        Some(e) => match elapsed_secs {
            None => true,
            Some(sec) => sec < (e as u64),
        },
    }
}

/// An access token as the library holds it: the scope already normalized
/// to a list, and the issuance instant captured once at construction and
/// never mutated. The instant takes no part in equality.
#[derive(Debug)]
pub struct AuthCodeToken {
    access_token: String,
    token_type: String,
    refresh_token: Option<String>,
    expires_in: Option<u32>,
    scope: Option<Vec<String>>,
    generated_time: std::time::SystemTime,
}

impl Token for AuthCodeToken {
    closed spec fn token_view(&self) -> TokenView {
        TokenView {
            access_token: self.access_token@,
            token_type: self.token_type@,
            refresh_token: opt_str_view(self.refresh_token),
            expires_in: self.expires_in,
            scope: opt_vec_str_view(self.scope),
        }
    }

    fn set_refresh_token(&mut self, refresh_token: String) {
        let ghost v0 = self.token_view();
        let ghost gs = refresh_token@;
        self.refresh_token = Some(refresh_token);
        proof {
            assert(self.token_view() =~= (TokenView { refresh_token: Some(gs), ..v0 }));
        }
    }

    fn set_exprires_in(&mut self, expires_in: u32) {
        let ghost v0 = self.token_view();
        self.expires_in = Some(expires_in);
        proof {
            assert(self.token_view() =~= (TokenView { expires_in: Some(expires_in), ..v0 }));
        }
    }

    fn set_scope(&mut self, scopes: Vec<String>) {
        let ghost v0 = self.token_view();
        let ghost gs = seq_str_view(scopes@);
        self.scope = Some(scopes);
        proof {
            assert(self.token_view() =~= (TokenView { scope: Some(gs), ..v0 }));
        }
    }

    fn access_token(&self) -> (r: String) {
        self.access_token.clone()
    }

    fn refresh_token(&self) -> (r: Option<String>) {
        match &self.refresh_token {
            Some(s) => Some(s.clone()),
            None => None,
        }
    }

    fn token_type(&self) -> (r: String) {
        self.token_type.clone()
    }

    fn scopes(&self) -> (r: Option<String>) {
        match &self.scope {
            Some(v) => Some(join_scopes(v)),
            None => None,
        }
    }

    fn is_valid(&self) -> (r: bool) {
        token_validity(self.expires_in, clock::elapsed_secs(&self.generated_time))
    }
}

impl AuthCodeToken {
    /// A fresh token with the required fields, issued now; every optional
    /// field starts absent.
    pub fn new(access_token: String, token_type: String) -> (r: Self)
        ensures
            r.token_view() == (TokenView {
                access_token: access_token@,
                token_type: token_type@,
                refresh_token: None,
                expires_in: None,
                scope: None,
            }),
    {
        let r = AuthCodeToken {
            access_token,
            token_type,
            refresh_token: None,
            expires_in: None,
            scope: None,
            generated_time: clock::system_time_now(),
        };
        proof {
            assert(r.token_view() =~= (TokenView {
                access_token: r.access_token@,
                token_type: r.token_type@,
                refresh_token: None,
                expires_in: None,
                scope: None,
            }));
        }
        r
    }

    /// Like [`Self::new`], but with the issuance instant supplied by the
    /// caller instead of read from the clock.
    pub fn new_issued_at(
        access_token: String,
        token_type: String,
        issued: std::time::SystemTime,
    ) -> (r: Self)
        ensures
            r.token_view() == (TokenView {
                access_token: access_token@,
                token_type: token_type@,
                refresh_token: None,
                expires_in: None,
                scope: None,
            }),
    {
        let r = AuthCodeToken {
            access_token,
            token_type,
            refresh_token: None,
            expires_in: None,
            scope: None,
            generated_time: issued,
        };
        proof {
            assert(r.token_view() =~= (TokenView {
                access_token: r.access_token@,
                token_type: r.token_type@,
                refresh_token: None,
                expires_in: None,
                scope: None,
            }));
        }
        r
    }

    /// The token a schema-valid response body describes, issued now; the
    /// dual-shape scope field is normalized to a list.
    pub fn from_response_fields(fields: TokenResponseFields) -> (r: Self)
        ensures
            r.token_view() == spec_token_of_fields(fields),
    {
        let ghost gf = fields;
        let TokenResponseFields { access_token, token_type, refresh_token, expires_in, scope } =
            fields;
        let scope = match scope {
            Some(v) => Some(normalize_scope(v)),
            None => None,
        };
        let r = AuthCodeToken {
            access_token,
            token_type,
            refresh_token,
            expires_in,
            scope,
            generated_time: clock::system_time_now(),
        };
        proof {
            assert(r.token_view() =~= spec_token_of_fields(gf));
        }
        r
    }
}

impl PartialEq for AuthCodeToken {
    /// Tokens are equal when every field but the issuance instant agrees.
    fn eq(&self, other: &Self) -> (r: bool) {
        let r1 = utils::str_eq(self.access_token.as_str(), other.access_token.as_str());
        let r2 = utils::str_eq(self.token_type.as_str(), other.token_type.as_str());
        let r3 = utils::opt_str_eq(&self.refresh_token, &other.refresh_token);
        let r4 = utils::opt_u32_eq(&self.expires_in, &other.expires_in);
        let r5 = utils::opt_vec_str_eq(&self.scope, &other.scope);
        let r = r1 && r2 && r3 && r4 && r5;
        proof {
            if self.token_view() == other.token_view() {
                assert(r1 && r2 && r3 && r4 && r5);
            }
            if r {
                assert(self.token_view() =~= other.token_view());
            }
        }
        r
    }
}

impl vstd::std_specs::cmp::PartialEqSpecImpl for AuthCodeToken {
    open spec fn obeys_eq_spec() -> bool {
        true
    }

    open spec fn eq_spec(&self, other: &AuthCodeToken) -> bool {
        self.token_view() == other.token_view()
    }
}

} // verus!
