//! The token-endpoint request of the refresh-token grant. Unlike the other
//! variants it renders its fixed pairs directly, with the refresh token
//! right after the grant type.

use vstd::prelude::*;

use crate::internal_traits::{append_scopes_spec, push_extra_spec, push_scope_spec};
use crate::utils;
use crate::utils::{
    extra_pairs, opt_pairs_view, opt_vec_str_view, pairs_str_view, scope_pairs, seq_str_view,
    spec_headers,
};

verus! {

/// Token request of the refresh-token grant: the grant type is fixed to
/// `refresh_token`, and the refresh token itself is required.
pub struct RefreshTokenRequest {
    refresh_token: String,
    extras: Option<Vec<(String, String)>>,
    scope: Option<Vec<String>>,
}

/// The rendered parameter list of a refresh request: the two fixed pairs,
/// then the space-joined scope (omitted when absent or empty), then the
/// extras verbatim.
pub open spec fn spec_refresh_render(
    refresh_token: Seq<char>,
    scope: Option<Seq<Seq<char>>>,
    extras: Option<Seq<(Seq<char>, Seq<char>)>>,
) -> Seq<(Seq<char>, Seq<char>)> {
    seq![(("grant_type")@, ("refresh_token")@), (("refresh_token")@, refresh_token)]
        + scope_pairs(scope) + extra_pairs(extras)
}

impl RefreshTokenRequest {
    /// The refresh token this request will present.
    pub closed spec fn spec_refresh_token(&self) -> Seq<char> {
        self.refresh_token@
    }

    /// The optional scope list.
    pub closed spec fn spec_scope(&self) -> Option<Seq<Seq<char>>> {
        opt_vec_str_view(self.scope)
    }

    /// The optional extras list.
    pub closed spec fn spec_extras(&self) -> Option<Seq<(Seq<char>, Seq<char>)>> {
        opt_pairs_view(self.extras)
    }

    /// A fresh request carrying the refresh token.
    pub fn new(refresh_token: String) -> (r: Self)
        ensures
            r.spec_refresh_token() == refresh_token@,
            r.spec_scope() is None,
            r.spec_extras() is None,
    {
        Self { refresh_token, extras: None, scope: None }
    }

    /// Appends one extra pair, consuming and returning the request so the
    /// calls chain; duplicate keys are kept.
    pub fn extra_params(self, k: String, v: String) -> (r: Self)
        ensures
            r.spec_refresh_token() == self.spec_refresh_token(),
            r.spec_scope() == self.spec_scope(),
            r.spec_extras() == Some(push_extra_spec(self.spec_extras(), k@, v@)),
    {
        let mut this = self;
        utils::push_extra_vec(&mut this.extras, k, v);
        this
    }

    /// Appends one scope value, creating the list if absent.
    pub fn add_scope(&mut self, scope: String)
        ensures
            final(self).spec_refresh_token() == old(self).spec_refresh_token(),
            final(self).spec_scope() == Some(push_scope_spec(old(self).spec_scope(), scope@)),
            final(self).spec_extras() == old(self).spec_extras(),
    {
        utils::push_scope_vec(&mut self.scope, scope);
    }

    /// Appends a sequence of scope values in order, creating the list if
    /// absent (so the list is present afterwards even when `scopes` is
    /// empty).
    pub fn add_scopes(&mut self, scopes: Vec<String>)
        ensures
            final(self).spec_refresh_token() == old(self).spec_refresh_token(),
            final(self).spec_scope() == Some(
                append_scopes_spec(old(self).spec_scope(), seq_str_view(scopes@)),
            ),
            final(self).spec_extras() == old(self).spec_extras(),
    {
        utils::append_scopes_vec(&mut self.scope, scopes);
    }

    /// The fixed `Content-Type` header for form-encoded request bodies.
    pub fn get_headers(&self) -> (r: Vec<(String, String)>)
        ensures
            pairs_str_view(r@) == spec_headers(),
    {
        utils::get_headers()
    }

    /// Renders this request into the ordered parameter list.
    pub fn get_request_params_as_vec(&self) -> (params: Vec<(String, String)>)
        ensures
            pairs_str_view(params@) == spec_refresh_render(
                self.spec_refresh_token(),
                self.spec_scope(),
                self.spec_extras(),
            ),
    {
        let mut params: Vec<(String, String)> = Vec::new();
        params.push(("grant_type".to_owned(), "refresh_token".to_owned()));
        params.push(("refresh_token".to_owned(), self.refresh_token.clone()));
        proof {
            assert(pairs_str_view(params@) =~= seq![
                (("grant_type")@, ("refresh_token")@),
                (("refresh_token")@, self.refresh_token@),
            ]);
        }
        utils::push_scope_field(&mut params, self.scope.as_ref());
        utils::push_extra_fields(&mut params, self.extras.as_ref());
        proof {
            assert(pairs_str_view(params@) =~= spec_refresh_render(
                self.spec_refresh_token(),
                self.spec_scope(),
                self.spec_extras(),
            ));
        }
        params
    }
}

} // verus!
