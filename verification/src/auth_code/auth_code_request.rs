//! The request sent to the authorization endpoint in the
//! authorization-code grant.

use vstd::prelude::*;

use crate::internal_traits::{
    append_scopes_spec, push_extra_spec, push_scope_spec, OAuthParams, ParamsView,
};
use crate::url_encode::{pairs_all_ascii, spec_query_string, EncodingError};
use crate::utils;
use crate::utils::{
    opt_pairs_view, opt_str_view, opt_vec_str_view, pairs_str_view, seq_str_view, spec_headers,
    spec_render,
};

verus! {

/// Authorization-endpoint request of the authorization-code grant: the
/// client id and response type are required, everything else defaults to
/// absent.
#[derive(Debug)]
pub struct AuthCodeRequest {
    client_id: String,
    response_type: String,
    redirect_url: Option<String>,
    scope: Option<Vec<String>>,
    state: Option<String>,
    extras: Option<Vec<(String, String)>>,
}

impl OAuthParams for AuthCodeRequest {
    closed spec fn params_view(&self) -> ParamsView {
        ParamsView {
            grant_type: None,
            response_type: Some(self.response_type@),
            redirect_url: opt_str_view(self.redirect_url),
            client_id: Some(self.client_id@),
            client_secret: None,
            scope: opt_vec_str_view(self.scope),
            state: opt_str_view(self.state),
            extras: opt_pairs_view(self.extras),
            username: None,
            password: None,
            code: None,
            refresh_token: None,
        }
    }

    fn get_grant_type(&self) -> (r: Option<String>) {
        None
    }

    fn get_response_type(&self) -> (r: Option<String>) {
        Some(self.response_type.clone())
    }

    fn get_redirect_url(&self) -> (r: Option<String>) {
        match &self.redirect_url {
            Some(s) => Some(s.clone()),
            None => None,
        }
    }

    fn get_client_id(&self) -> (r: Option<String>) {
        Some(self.client_id.clone())
    }

    fn get_client_secret(&self) -> (r: Option<String>) {
        None
    }

    fn get_scopes_ref(&self) -> (r: Option<&Vec<String>>) {
        self.scope.as_ref()
    }

    fn get_state(&self) -> (r: Option<String>) {
        match &self.state {
            Some(s) => Some(s.clone()),
            None => None,
        }
    }

    fn get_extra_params_ref(&self) -> (r: Option<&Vec<(String, String)>>) {
        self.extras.as_ref()
    }

    fn get_username(&self) -> (r: Option<String>) {
        None
    }

    fn get_password(&self) -> (r: Option<String>) {
        None
    }

    fn get_code(&self) -> (r: Option<String>) {
        None
    }

    fn get_refresh_token(&self) -> (r: Option<String>) {
        None
    }

    fn push_scope(&mut self, scope: String) {
        let ghost p0 = self.params_view();
        let ghost gs = scope@;
        utils::push_scope_vec(&mut self.scope, scope);
        proof {
            assert(self.params_view() =~= (ParamsView {
                scope: Some(push_scope_spec(p0.scope, gs)),
                ..p0
            }));
        }
    }

    fn append_scopes(&mut self, scopes: Vec<String>) {
        let ghost p0 = self.params_view();
        let ghost gs = seq_str_view(scopes@);
        utils::append_scopes_vec(&mut self.scope, scopes);
        proof {
            assert(self.params_view() =~= (ParamsView {
                scope: Some(append_scopes_spec(p0.scope, gs)),
                ..p0
            }));
        }
    }

    fn push_extra_param(&mut self, key: String, value: String) {
        let ghost p0 = self.params_view();
        let ghost gk = key@;
        let ghost gv = value@;
        utils::push_extra_vec(&mut self.extras, key, value);
        proof {
            assert(self.params_view() =~= (ParamsView {
                extras: Some(push_extra_spec(p0.extras, gk, gv)),
                ..p0
            }));
        }
    }
}

impl Default for AuthCodeRequest {
    /// The all-empty request: both required fields empty, everything else
    /// absent.
    fn default() -> (r: Self)
        ensures
            r.params_view() == (ParamsView {
                grant_type: None,
                response_type: Some(Seq::empty()),
                redirect_url: None,
                client_id: Some(Seq::empty()),
                client_secret: None,
                scope: None,
                state: None,
                extras: None,
                username: None,
                password: None,
                code: None,
                refresh_token: None,
            }),
    {
        AuthCodeRequest {
            client_id: String::new(),
            response_type: String::new(),
            redirect_url: None,
            scope: None,
            state: None,
            extras: None,
        }
    }
}

impl PartialEq for AuthCodeRequest {
    /// Requests are equal when all their fields agree.
    fn eq(&self, other: &Self) -> (r: bool) {
        let r1 = utils::str_eq(self.client_id.as_str(), other.client_id.as_str());
        let r2 = utils::str_eq(self.response_type.as_str(), other.response_type.as_str());
        let r3 = utils::opt_str_eq(&self.redirect_url, &other.redirect_url);
        let r4 = utils::opt_vec_str_eq(&self.scope, &other.scope);
        let r5 = utils::opt_str_eq(&self.state, &other.state);
        let r6 = utils::opt_pairs_eq(&self.extras, &other.extras);
        let r = r1 && r2 && r3 && r4 && r5 && r6;
        proof {
            if self.params_view() == other.params_view() {
                assert(r1 && r2 && r3 && r4 && r5 && r6);
            }
            if r {
                assert(self.params_view() =~= other.params_view());
            }
        }
        r
    }
}

impl vstd::std_specs::cmp::PartialEqSpecImpl for AuthCodeRequest {
    open spec fn obeys_eq_spec() -> bool {
        true
    }

    open spec fn eq_spec(&self, other: &AuthCodeRequest) -> bool {
        self.params_view() == other.params_view()
    }
}

impl AuthCodeRequest {
    /// A fresh request carrying only the two required fields.
    pub fn new(client_id: String, response_type: String) -> (r: Self)
        ensures
            r.params_view() == (ParamsView {
                grant_type: None,
                response_type: Some(response_type@),
                redirect_url: None,
                client_id: Some(client_id@),
                client_secret: None,
                scope: None,
                state: None,
                extras: None,
                username: None,
                password: None,
                code: None,
                refresh_token: None,
            }),
    {
        Self {
            client_id,
            response_type,
            redirect_url: None,
            scope: None,
            state: None,
            extras: None,
        }
    }

    /// Sets (or replaces) the redirect URL.
    pub fn set_redirect_url(&mut self, redirect_url: String)
        ensures
            final(self).params_view() == (ParamsView {
                redirect_url: Some(redirect_url@),
                ..old(self).params_view()
            }),
    {
        let ghost p0 = self.params_view();
        let ghost gs = redirect_url@;
        self.redirect_url = Some(redirect_url);
        proof {
            assert(self.params_view() =~= (ParamsView { redirect_url: Some(gs), ..p0 }));
        }
    }

    /// Sets (or replaces) the opaque state value.
    pub fn set_state(&mut self, state: String)
        ensures
            final(self).params_view() == (ParamsView {
                state: Some(state@),
                ..old(self).params_view()
            }),
    {
        let ghost p0 = self.params_view();
        let ghost gs = state@;
        self.state = Some(state);
        proof {
            assert(self.params_view() =~= (ParamsView { state: Some(gs), ..p0 }));
        }
    }

    /// Appends one scope value, creating the list if absent.
    pub fn add_scope(&mut self, scope: String)
        ensures
            final(self).params_view() == (ParamsView {
                scope: Some(push_scope_spec(old(self).params_view().scope, scope@)),
                ..old(self).params_view()
            }),
    {
        utils::add_scope(self, scope);
    }

    /// Appends a sequence of scope values, preserving their order.
    pub fn add_scopes(&mut self, scopes: Vec<String>)
        ensures
            final(self).params_view() == (ParamsView {
                scope: Some(
                    append_scopes_spec(old(self).params_view().scope, seq_str_view(scopes@)),
                ),
                ..old(self).params_view()
            }),
    {
        utils::add_scopes(self, scopes);
    }

    /// Appends one extra pair; duplicate keys are kept.
    pub fn add_extra_param(&mut self, key: String, value: String)
        ensures
            final(self).params_view() == (ParamsView {
                extras: Some(push_extra_spec(old(self).params_view().extras, key@, value@)),
                ..old(self).params_view()
            }),
    {
        utils::add_extra_param(self, key, value);
    }

    /// Renders this request into the ordered parameter list.
    pub fn get_request_params_as_vec(&self) -> (params: Vec<(String, String)>)
        ensures
            pairs_str_view(params@) == spec_render(self.params_view()),
    {
        utils::get_request_params_as_vec(self)
    }

    /// The fixed `Content-Type` header for form-encoded request bodies.
    pub fn get_headers(&self) -> (r: Vec<(String, String)>)
        ensures
            pairs_str_view(r@) == spec_headers(),
    {
        utils::get_headers()
    }

    /// Appends the rendered parameters to the authorization endpoint URL
    /// as a percent-encoded query string; fails exactly when some
    /// rendered key or value cannot be percent-encoded.
    pub fn get_prepared_url(&self, auth_url: &str) -> (r: Result<String, EncodingError>)
        ensures
            r matches Ok(u) ==> pairs_all_ascii(spec_render(self.params_view())) && u@ == auth_url@
                + seq!['?'] + spec_query_string(spec_render(self.params_view())),
            r matches Err(_) ==> !pairs_all_ascii(spec_render(self.params_view())),
    {
        let params = utils::get_request_params_as_vec(self);
        match crate::url_encode::render_query_string(&params) {
            Ok(q) => {
                let mut u = auth_url.to_owned();
                u.append("?");
                u.append(q.as_str());
                proof {
                    reveal_strlit("?");
                    assert(("?")@ =~= seq!['?']);
                    assert(u@ =~= auth_url@ + seq!['?'] + spec_query_string(
                        spec_render(self.params_view()),
                    ));
                }
                Ok(u)
            },
            Err(e) => Err(e),
        }
    }
}

} // verus!
