//! The token-endpoint request of the client-credentials grant.

use vstd::prelude::*;

use crate::internal_traits::{
    append_scopes_spec, push_extra_spec, push_scope_spec, OAuthParams, ParamsView,
};
use crate::utils;
use crate::utils::{opt_pairs_view, opt_vec_str_view, pairs_str_view, seq_str_view, spec_headers,
    spec_render};

verus! {

/// Token request of the client-credentials grant: the grant type is fixed
/// to `client_credentials`; only scope and extras can be set.
pub struct ClientCredentialsGrantAuthTokenRequest {
    extras: Option<Vec<(String, String)>>,
    scope: Option<Vec<String>>,
}

impl OAuthParams for ClientCredentialsGrantAuthTokenRequest {
    closed spec fn params_view(&self) -> ParamsView {
        ParamsView {
            grant_type: Some(("client_credentials")@),
            response_type: None,
            redirect_url: None,
            client_id: None,
            client_secret: None,
            scope: opt_vec_str_view(self.scope),
            state: None,
            extras: opt_pairs_view(self.extras),
            username: None,
            password: None,
            code: None,
            refresh_token: None,
        }
    }

    fn get_grant_type(&self) -> (r: Option<String>) {
        Some("client_credentials".to_owned())
    }

    fn get_response_type(&self) -> (r: Option<String>) {
        None
    }

    fn get_redirect_url(&self) -> (r: Option<String>) {
        None
    }

    fn get_client_id(&self) -> (r: Option<String>) {
        None
    }

    fn get_client_secret(&self) -> (r: Option<String>) {
        None
    }

    fn get_scopes_ref(&self) -> (r: Option<&Vec<String>>) {
        self.scope.as_ref()
    }

    fn get_state(&self) -> (r: Option<String>) {
        None
    }

    fn get_extra_params_ref(&self) -> (r: Option<&Vec<(String, String)>>) {
        self.extras.as_ref()
    }

    fn get_username(&self) -> (r: Option<String>) {
        None
    }

    fn get_password(&self) -> (r: Option<String>) {
        None
    }

    fn get_code(&self) -> (r: Option<String>) {
        None
    }

    fn get_refresh_token(&self) -> (r: Option<String>) {
        None
    }

    fn push_scope(&mut self, scope: String) {
        let ghost p0 = self.params_view();
        let ghost gs = scope@;
        utils::push_scope_vec(&mut self.scope, scope);
        proof {
            assert(self.params_view() =~= (ParamsView {
                scope: Some(push_scope_spec(p0.scope, gs)),
                ..p0
            }));
        }
    }

    fn append_scopes(&mut self, scopes: Vec<String>) {
        let ghost p0 = self.params_view();
        let ghost gs = seq_str_view(scopes@);
        utils::append_scopes_vec(&mut self.scope, scopes);
        proof {
            assert(self.params_view() =~= (ParamsView {
                scope: Some(append_scopes_spec(p0.scope, gs)),
                ..p0
            }));
        }
    }

    fn push_extra_param(&mut self, key: String, value: String) {
        let ghost p0 = self.params_view();
        let ghost gk = key@;
        let ghost gv = value@;
        utils::push_extra_vec(&mut self.extras, key, value);
        proof {
            assert(self.params_view() =~= (ParamsView {
                extras: Some(push_extra_spec(p0.extras, gk, gv)),
                ..p0
            }));
        }
    }
}

impl ClientCredentialsGrantAuthTokenRequest {
    /// A fresh request with no scope and no extras yet.
    pub fn new() -> (r: Self)
        ensures
            r.params_view() == (ParamsView {
                grant_type: Some(("client_credentials")@),
                response_type: None,
                redirect_url: None,
                client_id: None,
                client_secret: None,
                scope: None,
                state: None,
                extras: None,
                username: None,
                password: None,
                code: None,
                refresh_token: None,
            }),
    {
        Self { extras: None, scope: None }
    }

    /// Appends one scope value, creating the list if absent.
    pub fn add_scope(&mut self, scope: String)
        ensures
            final(self).params_view() == (ParamsView {
                scope: Some(push_scope_spec(old(self).params_view().scope, scope@)),
                ..old(self).params_view()
            }),
    {
        utils::add_scope(self, scope);
    }

    /// Appends a sequence of scope values, preserving their order.
    pub fn add_scopes(&mut self, scopes: Vec<String>)
        ensures
            final(self).params_view() == (ParamsView {
                scope: Some(
                    append_scopes_spec(old(self).params_view().scope, seq_str_view(scopes@)),
                ),
                ..old(self).params_view()
            }),
    {
        utils::add_scopes(self, scopes);
    }

    /// Appends one extra pair; duplicate keys are kept.
    pub fn add_extra_param(&mut self, key: String, value: String)
        ensures
            final(self).params_view() == (ParamsView {
                extras: Some(push_extra_spec(old(self).params_view().extras, key@, value@)),
                ..old(self).params_view()
            }),
    {
        utils::add_extra_param(self, key, value);
    }

    /// Renders this request into the ordered parameter list.
    pub fn get_request_params_as_vec(&self) -> (params: Vec<(String, String)>)
        ensures
            pairs_str_view(params@) == spec_render(self.params_view()),
    {
        utils::get_request_params_as_vec(self)
    }

    /// The fixed `Content-Type` header for form-encoded request bodies.
    pub fn get_headers(&self) -> (r: Vec<(String, String)>)
        ensures
            pairs_str_view(r@) == spec_headers(),
    {
        utils::get_headers()
    }
}

} // verus!
