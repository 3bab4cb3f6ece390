//! The capability trait every request variant implements: per-field
//! optional accessors plus the two in-place mutators, all tied to one
//! abstract record of the request's fields.

use vstd::prelude::*;

use crate::utils::{opt_str_view, pairs_str_view, seq_str_view};

verus! {

/// The abstract value of a request: every field the renderer may emit.
/// A variant that does not carry a field maps it to `None`.
#[verifier::ext_equal]
pub struct ParamsView {
    pub grant_type: Option<Seq<char>>,
    pub response_type: Option<Seq<char>>,
    pub redirect_url: Option<Seq<char>>,
    pub client_id: Option<Seq<char>>,
    pub client_secret: Option<Seq<char>>,
    pub scope: Option<Seq<Seq<char>>>,
    pub state: Option<Seq<char>>,
    pub extras: Option<Seq<(Seq<char>, Seq<char>)>>,
    pub username: Option<Seq<char>>,
    pub password: Option<Seq<char>>,
    pub code: Option<Seq<char>>,
    pub refresh_token: Option<Seq<char>>,
}

/// A scope list after one value was appended: the list is created on first
/// use, so an absent list behaves as an empty one.
pub open spec fn push_scope_spec(scope: Option<Seq<Seq<char>>>, s: Seq<char>) -> Seq<Seq<char>> {
    match scope {
        Some(l) => l.push(s),
        None => seq![s],
    }
}

/// A scope list after a sequence of values was appended in order; as with
/// a single append, an absent list is created first, so the result is
/// present even when nothing was appended.
pub open spec fn append_scopes_spec(
    scope: Option<Seq<Seq<char>>>,
    items: Seq<Seq<char>>,
) -> Seq<Seq<char>> {
    match scope {
        Some(l) => l + items,
        None => items,
    }
}

/// An extras list after one pair was appended; duplicate keys are kept.
pub open spec fn push_extra_spec(
    extras: Option<Seq<(Seq<char>, Seq<char>)>>,
    key: Seq<char>,
    value: Seq<char>,
) -> Seq<(Seq<char>, Seq<char>)> {
    match extras {
        Some(l) => l.push((key, value)),
        None => seq![(key, value)],
    }
}

/// Appending the same scope value twice yields two entries: scope lists
/// are not deduplicated.
pub proof fn lemma_add_scope_no_dedup(scope: Option<Seq<Seq<char>>>, s: Seq<char>)
    ensures
        push_scope_spec(Some(push_scope_spec(scope, s)), s) == match scope {
            Some(l) => l + seq![s, s],
            None => seq![s, s],
        },
{
    match scope {
        Some(l) => {
            assert(l.push(s).push(s) =~= l + seq![s, s]);
        },
        None => {
            assert(seq![s].push(s) =~= seq![s, s]);
        },
    }
}

/// Capability exposed by every request variant: optional accessors for the
/// fields the renderer walks, and in-place mutators for the two growable
/// lists. All of them are tied to [`Self::params_view`], so the shared
/// rendering algorithm can be specified once for every implementor.
pub trait OAuthParams: Sized {
    /// The abstract record of this request's fields.
    spec fn params_view(&self) -> ParamsView;

    fn get_grant_type(&self) -> (r: Option<String>)
        ensures
            opt_str_view(r) == self.params_view().grant_type,
    ;

    fn get_response_type(&self) -> (r: Option<String>)
        ensures
            opt_str_view(r) == self.params_view().response_type,
    ;

    fn get_redirect_url(&self) -> (r: Option<String>)
        ensures
            opt_str_view(r) == self.params_view().redirect_url,
    ;

    fn get_client_id(&self) -> (r: Option<String>)
        ensures
            opt_str_view(r) == self.params_view().client_id,
    ;

    fn get_client_secret(&self) -> (r: Option<String>)
        ensures
            opt_str_view(r) == self.params_view().client_secret,
    ;

    fn get_scopes_ref(&self) -> (r: Option<&Vec<String>>)
        ensures
            match r {
                Some(v) => self.params_view().scope == Some(seq_str_view(v@)),
                None => self.params_view().scope is None,
            },
    ;

    fn get_state(&self) -> (r: Option<String>)
        ensures
            opt_str_view(r) == self.params_view().state,
    ;

    fn get_extra_params_ref(&self) -> (r: Option<&Vec<(String, String)>>)
        ensures
            match r {
                Some(v) => self.params_view().extras == Some(pairs_str_view(v@)),
                None => self.params_view().extras is None,
            },
    ;

    fn get_username(&self) -> (r: Option<String>)
        ensures
            opt_str_view(r) == self.params_view().username,
    ;

    fn get_password(&self) -> (r: Option<String>)
        ensures
            opt_str_view(r) == self.params_view().password,
    ;

    fn get_code(&self) -> (r: Option<String>)
        ensures
            opt_str_view(r) == self.params_view().code,
    ;

    fn get_refresh_token(&self) -> (r: Option<String>)
        ensures
            opt_str_view(r) == self.params_view().refresh_token,
    ;

    /// Appends one scope value, creating the list if absent. No other
    /// field changes.
    fn push_scope(&mut self, scope: String)
        ensures
            final(self).params_view() == (ParamsView {
                scope: Some(push_scope_spec(old(self).params_view().scope, scope@)),
                ..old(self).params_view()
            }),
    ;

    /// Appends a sequence of scope values in order, creating the list if
    /// absent (so the list is present afterwards even when `scopes` is
    /// empty). No other field changes.
    fn append_scopes(&mut self, scopes: Vec<String>)
        ensures
            final(self).params_view() == (ParamsView {
                scope: Some(
                    append_scopes_spec(old(self).params_view().scope, seq_str_view(scopes@)),
                ),
                ..old(self).params_view()
            }),
    ;

    /// Appends one extra pair, creating the list if absent; duplicate keys
    /// are kept. No other field changes.
    fn push_extra_param(&mut self, key: String, value: String)
        ensures
            final(self).params_view() == (ParamsView {
                extras: Some(
                    push_extra_spec(old(self).params_view().extras, key@, value@),
                ),
                ..old(self).params_view()
            }),
    ;
}

} // verus!
