//! Shared helpers: the one parameter-rendering algorithm every request
//! variant uses, the mutating helpers they share, and the spec-level views
//! of optional strings and string lists.

use vstd::prelude::*;

use vstd::string::StrSliceExecFns;

use crate::internal_traits::{
    append_scopes_spec, push_extra_spec, push_scope_spec, OAuthParams, ParamsView,
};
use crate::scope::{join_scopes, spec_join_spaces};

verus! {

/// The abstract value of an optional owned string.
pub open spec fn opt_str_view(o: Option<String>) -> Option<Seq<char>> {
    match o {
        Some(s) => Some(s@),
        None => None,
    }
}

/// The abstract value of a list of owned strings.
pub open spec fn seq_str_view(v: Seq<String>) -> Seq<Seq<char>> {
    v.map_values(|s: String| s@)
}

/// The abstract value of a list of owned key/value pairs.
pub open spec fn pairs_str_view(v: Seq<(String, String)>) -> Seq<(Seq<char>, Seq<char>)> {
    v.map_values(|p: (String, String)| (p.0@, p.1@))
}

/// The abstract value of an optional borrowed scope list.
pub open spec fn opt_scopes_view(o: Option<&Vec<String>>) -> Option<Seq<Seq<char>>> {
    match o {
        Some(v) => Some(seq_str_view(v@)),
        None => None,
    }
}

/// The abstract value of an optional borrowed extras list.
pub open spec fn opt_extras_view(o: Option<&Vec<(String, String)>>) -> Option<
    Seq<(Seq<char>, Seq<char>)>,
> {
    match o {
        Some(v) => Some(pairs_str_view(v@)),
        None => None,
    }
}

/// The abstract value of an optional owned scope list.
pub open spec fn opt_vec_str_view(o: Option<Vec<String>>) -> Option<Seq<Seq<char>>> {
    match o {
        Some(v) => Some(seq_str_view(v@)),
        None => None,
    }
}

/// The abstract value of an optional owned extras list.
pub open spec fn opt_pairs_view(o: Option<Vec<(String, String)>>) -> Option<
    Seq<(Seq<char>, Seq<char>)>,
> {
    match o {
        Some(v) => Some(pairs_str_view(v@)),
        None => None,
    }
}

/// Compares two strings character by character.
pub(crate) fn str_eq(a: &str, b: &str) -> (r: bool)
    ensures
        r == (a@ == b@),
{
    let na = a.unicode_len();
    let nb = b.unicode_len();
    if na != nb {
        return false;
    }
    let mut i: usize = 0;
    while i < na
        invariant
            i <= na,
            na == a@.len(),
            na == b@.len(),
            forall|k: int| 0 <= k < i ==> a@[k] == b@[k],
        decreases na - i,
    {
        if a.get_char(i) != b.get_char(i) {
            return false;
        }
        i = i + 1;
    }
    proof {
        assert(a@ =~= b@);
    }
    true
}

/// Appends every element of `items` to `v`, in order.
pub fn append_to_vec<T>(v: &mut Vec<T>, items: Vec<T>)
    ensures
        final(v)@ == old(v)@ + items@,
{
    let mut items = items;
    v.append(&mut items);
}

/// Compares two optional strings by their characters.
pub(crate) fn opt_str_eq(a: &Option<String>, b: &Option<String>) -> (r: bool)
    ensures
        r == (opt_str_view(*a) == opt_str_view(*b)),
{
    match (a, b) {
        (Some(x), Some(y)) => str_eq(x.as_str(), y.as_str()),
        (None, None) => true,
        _ => false,
    }
}

/// Compares two optional integers.
pub(crate) fn opt_u32_eq(a: &Option<u32>, b: &Option<u32>) -> (r: bool)
    ensures
        r == (*a == *b),
{
    match (*a, *b) {
        (Some(x), Some(y)) => x == y,
        (None, None) => true,
        _ => false,
    }
}

/// Compares two string lists element by element.
pub(crate) fn vec_str_eq(a: &Vec<String>, b: &Vec<String>) -> (r: bool)
    ensures
        r == (seq_str_view(a@) == seq_str_view(b@)),
{
    if a.len() != b.len() {
        proof {
            assert(seq_str_view(a@).len() != seq_str_view(b@).len());
        }
        return false;
    }
    let n = a.len();
    let mut i: usize = 0;
    while i < n
        invariant
            i <= n,
            n == a@.len(),
            n == b@.len(),
            forall|k: int| 0 <= k < i ==> a@[k]@ == b@[k]@,
        decreases n - i,
    {
        if !str_eq(a[i].as_str(), b[i].as_str()) {
            proof {
                assert(seq_str_view(a@)[i as int] != seq_str_view(b@)[i as int]);
            }
            return false;
        }
        i = i + 1;
    }
    proof {
        assert(seq_str_view(a@) =~= seq_str_view(b@));
    }
    true
}

/// Compares two optional string lists.
pub(crate) fn opt_vec_str_eq(a: &Option<Vec<String>>, b: &Option<Vec<String>>) -> (r: bool)
    ensures
        r == (opt_vec_str_view(*a) == opt_vec_str_view(*b)),
{
    match (a, b) {
        (Some(x), Some(y)) => vec_str_eq(x, y),
        (None, None) => true,
        _ => false,
    }
}

/// Compares two pair lists element by element.
pub(crate) fn pairs_vec_eq(a: &Vec<(String, String)>, b: &Vec<(String, String)>) -> (r: bool)
    ensures
        r == (pairs_str_view(a@) == pairs_str_view(b@)),
{
    if a.len() != b.len() {
        proof {
            assert(pairs_str_view(a@).len() != pairs_str_view(b@).len());
        }
        return false;
    }
    let n = a.len();
    let mut i: usize = 0;
    while i < n
        invariant
            i <= n,
            n == a@.len(),
            n == b@.len(),
            forall|k: int| 0 <= k < i ==> a@[k].0@ == b@[k].0@ && a@[k].1@ == b@[k].1@,
        decreases n - i,
    {
        let x = &a[i];
        let y = &b[i];
        if !str_eq(x.0.as_str(), y.0.as_str()) || !str_eq(x.1.as_str(), y.1.as_str()) {
            proof {
                assert(pairs_str_view(a@)[i as int] != pairs_str_view(b@)[i as int]);
            }
            return false;
        }
        i = i + 1;
    }
    proof {
        assert(pairs_str_view(a@) =~= pairs_str_view(b@));
    }
    true
}

/// Compares two optional pair lists.
pub(crate) fn opt_pairs_eq(
    a: &Option<Vec<(String, String)>>,
    b: &Option<Vec<(String, String)>>,
) -> (r: bool)
    ensures
        r == (opt_pairs_view(*a) == opt_pairs_view(*b)),
{
    match (a, b) {
        (Some(x), Some(y)) => pairs_vec_eq(x, y),
        (None, None) => true,
        _ => false,
    }
}

/// Appends one scope value to an optional scope list, creating the list if
/// absent.
pub(crate) fn push_scope_vec(scope: &mut Option<Vec<String>>, s: String)
    ensures
        opt_vec_str_view(*final(scope)) == Some(
            push_scope_spec(opt_vec_str_view(*old(scope)), s@),
        ),
{
    let ghost gs = s@;
    let ghost before = opt_vec_str_view(*scope);
    match scope {
        Some(v) => {
            v.push(s);
            proof {
                assert(seq_str_view(v@) =~= push_scope_spec(before, gs));
            }
        },
        None => {
            let mut v: Vec<String> = Vec::new();
            v.push(s);
            proof {
                assert(seq_str_view(v@) =~= push_scope_spec(before, gs));
            }
            *scope = Some(v);
        },
    }
}

/// Appends a sequence of scope values to an optional scope list, creating
/// the list first if absent, so the list is present afterwards even when
/// `items` is empty.
pub(crate) fn append_scopes_vec(scope: &mut Option<Vec<String>>, items: Vec<String>)
    ensures
        opt_vec_str_view(*final(scope)) == Some(
            append_scopes_spec(opt_vec_str_view(*old(scope)), seq_str_view(items@)),
        ),
{
    let ghost before = opt_vec_str_view(*scope);
    let ghost gitems = seq_str_view(items@);
    match scope {
        Some(v) => {
            let ghost prev = v@;
            append_to_vec(v, items);
            proof {
                assert(seq_str_view(v@) =~= seq_str_view(prev) + gitems);
            }
        },
        None => {
            let mut v: Vec<String> = Vec::new();
            append_to_vec(&mut v, items);
            proof {
                assert(seq_str_view(v@) =~= gitems);
            }
            *scope = Some(v);
        },
    }
}

/// Appends one pair to an optional extras list, creating the list if
/// absent; duplicate keys are kept.
pub(crate) fn push_extra_vec(extras: &mut Option<Vec<(String, String)>>, key: String, val: String)
    ensures
        opt_pairs_view(*final(extras)) == Some(
            push_extra_spec(opt_pairs_view(*old(extras)), key@, val@),
        ),
{
    let ghost gk = key@;
    let ghost gv = val@;
    let ghost before = opt_pairs_view(*extras);
    match extras {
        Some(v) => {
            v.push((key, val));
            proof {
                assert(pairs_str_view(v@) =~= push_extra_spec(before, gk, gv));
            }
        },
        None => {
            let mut v: Vec<(String, String)> = Vec::new();
            v.push((key, val));
            proof {
                assert(pairs_str_view(v@) =~= push_extra_spec(before, gk, gv));
            }
            *extras = Some(v);
        },
    }
}

/// One rendered pair for a plain optional field, or nothing if absent.
pub open spec fn field_pairs(name: Seq<char>, v: Option<Seq<char>>) -> Seq<
    (Seq<char>, Seq<char>),
> {
    match v {
        Some(s) => seq![(name, s)],
        None => Seq::empty(),
    }
}

/// The rendered form of the scope field: one space-joined pair, omitted
/// entirely when the list is absent or empty.
pub open spec fn scope_pairs(scope: Option<Seq<Seq<char>>>) -> Seq<(Seq<char>, Seq<char>)> {
    match scope {
        Some(l) => if l.len() > 0 {
            seq![(("scope")@, spec_join_spaces(l))]
        } else {
            Seq::empty()
        },
        None => Seq::empty(),
    }
}

/// The rendered form of the extras: every pair verbatim, in insertion order.
pub open spec fn extra_pairs(extras: Option<Seq<(Seq<char>, Seq<char>)>>) -> Seq<
    (Seq<char>, Seq<char>),
> {
    match extras {
        Some(l) => l,
        None => Seq::empty(),
    }
}

/// The one rendering order every request shares: present fields in their
/// declared order, extras verbatim after `state`; absent fields leave no
/// trace.
pub open spec fn spec_render(p: ParamsView) -> Seq<(Seq<char>, Seq<char>)> {
    field_pairs(("grant_type")@, p.grant_type) + field_pairs(("response_type")@, p.response_type)
        + field_pairs(("redirect_uri")@, p.redirect_url) + field_pairs(
        ("client_id")@,
        p.client_id,
    ) + field_pairs(("client_secret")@, p.client_secret) + scope_pairs(p.scope) + field_pairs(
        ("state")@,
        p.state,
    ) + extra_pairs(p.extras) + field_pairs(("username")@, p.username) + field_pairs(
        ("password")@,
        p.password,
    ) + field_pairs(("code")@, p.code) + field_pairs(("refresh_token")@, p.refresh_token)
}

/// Appends one scope value to the request, creating the list if absent.
pub(crate) fn add_scope<R: OAuthParams>(oauth_req: &mut R, scope: String)
    ensures
        final(oauth_req).params_view() == (ParamsView {
            scope: Some(push_scope_spec(old(oauth_req).params_view().scope, scope@)),
            ..old(oauth_req).params_view()
        }),
{
    oauth_req.push_scope(scope);
}

/// Appends a sequence of scope values, preserving their order.
pub(crate) fn add_scopes<R: OAuthParams>(oauth_req: &mut R, scopes: Vec<String>)
    ensures
        final(oauth_req).params_view() == (ParamsView {
            scope: Some(
                append_scopes_spec(old(oauth_req).params_view().scope, seq_str_view(scopes@)),
            ),
            ..old(oauth_req).params_view()
        }),
{
    oauth_req.append_scopes(scopes);
}

/// Appends one extra pair to the request; duplicate keys are kept.
pub(crate) fn add_extra_param<R: OAuthParams>(oauth_req: &mut R, key: String, val: String)
    ensures
        final(oauth_req).params_view() == (ParamsView {
            extras: Some(push_extra_spec(old(oauth_req).params_view().extras, key@, val@)),
            ..old(oauth_req).params_view()
        }),
{
    oauth_req.push_extra_param(key, val);
}

/// Pushes one `(name, value)` pair if the field is present, nothing
/// otherwise.
pub(crate) fn push_field(params: &mut Vec<(String, String)>, name: &str, v: Option<String>)
    ensures
        pairs_str_view(final(params)@) == pairs_str_view(old(params)@) + field_pairs(
            name@,
            opt_str_view(v),
        ),
{
    let ghost gv = opt_str_view(v);
    match v {
        Some(s) => {
            let ghost prev = params@;
            params.push((name.to_owned(), s));
            proof {
                assert(pairs_str_view(params@) =~= pairs_str_view(prev) + field_pairs(name@, gv));
            }
        },
        None => {
            proof {
                assert(pairs_str_view(params@) =~= pairs_str_view(params@) + field_pairs(
                    name@,
                    gv,
                ));
            }
        },
    }
}

/// Pushes the single space-joined `scope` pair, unless the list is absent
/// or empty.
pub(crate) fn push_scope_field(params: &mut Vec<(String, String)>, v: Option<&Vec<String>>)
    ensures
        pairs_str_view(final(params)@) == pairs_str_view(old(params)@) + scope_pairs(
            opt_scopes_view(v),
        ),
{
    let ghost gv = opt_scopes_view(v);
    match v {
        Some(list) => {
            if list.len() > 0 {
                let ghost prev = params@;
                let joined = join_scopes(list);
                params.push(("scope".to_owned(), joined));
                proof {
                    assert(pairs_str_view(params@) =~= pairs_str_view(prev) + scope_pairs(gv));
                }
            } else {
                proof {
                    assert(pairs_str_view(params@) =~= pairs_str_view(params@) + scope_pairs(gv));
                }
            }
        },
        None => {
            proof {
                assert(pairs_str_view(params@) =~= pairs_str_view(params@) + scope_pairs(gv));
            }
        },
    }
}

/// Pushes every extra pair verbatim, in insertion order.
pub(crate) fn push_extra_fields(params: &mut Vec<(String, String)>, v: Option<&Vec<(String, String)>>)
    ensures
        pairs_str_view(final(params)@) == pairs_str_view(old(params)@) + extra_pairs(
            opt_extras_view(v),
        ),
{
    match v {
        Some(list) => {
            let n = list.len();
            let mut i: usize = 0;
            while i < n
                invariant
                    i <= n,
                    n == list@.len(),
                    pairs_str_view(params@) =~= pairs_str_view(old(params)@) + pairs_str_view(
                        list@.take(i as int),
                    ),
                decreases n - i,
            {
                let ghost prev = params@;
                let pair = &list[i];
                params.push((pair.0.clone(), pair.1.clone()));
                proof {
                    assert(pairs_str_view(params@) =~= pairs_str_view(prev).push(
                        (list@[i as int].0@, list@[i as int].1@),
                    ));
                    assert(pairs_str_view(list@.take(i + 1)) =~= pairs_str_view(
                        list@.take(i as int),
                    ).push((list@[i as int].0@, list@[i as int].1@)));
                    assert(pairs_str_view(params@) =~= pairs_str_view(old(params)@)
                        + pairs_str_view(list@.take(i + 1)));
                }
                i = i + 1;
            }
            proof {
                assert(list@.take(n as int) =~= list@);
            }
        },
        None => {
            proof {
                assert(pairs_str_view(params@) =~= pairs_str_view(params@) + extra_pairs(
                    opt_extras_view(v),
                ));
            }
        },
    }
}

/// Renders the request into the ordered `(key, value)` list described by
/// [`spec_render`].
pub(crate) fn get_request_params_as_vec<R: OAuthParams>(oauth_req: &R) -> (params: Vec<
    (String, String),
>)
    ensures
        pairs_str_view(params@) == spec_render(oauth_req.params_view()),
{
    let ghost p = oauth_req.params_view();
    let mut params: Vec<(String, String)> = Vec::new();
    proof {
        assert(pairs_str_view(params@) =~= Seq::<(Seq<char>, Seq<char>)>::empty());
    }
    let ghost empty = pairs_str_view(params@);
    push_field(&mut params, "grant_type", oauth_req.get_grant_type());
    push_field(&mut params, "response_type", oauth_req.get_response_type());
    push_field(&mut params, "redirect_uri", oauth_req.get_redirect_url());
    push_field(&mut params, "client_id", oauth_req.get_client_id());
    push_field(&mut params, "client_secret", oauth_req.get_client_secret());
    push_scope_field(&mut params, oauth_req.get_scopes_ref());
    push_field(&mut params, "state", oauth_req.get_state());
    push_extra_fields(&mut params, oauth_req.get_extra_params_ref());
    push_field(&mut params, "username", oauth_req.get_username());
    push_field(&mut params, "password", oauth_req.get_password());
    push_field(&mut params, "code", oauth_req.get_code());
    push_field(&mut params, "refresh_token", oauth_req.get_refresh_token());
    proof {
        assert(pairs_str_view(params@) =~= spec_render(p));
    }
    params
}

/// The fixed header pair every token request sends.
pub open spec fn spec_headers() -> Seq<(Seq<char>, Seq<char>)> {
    seq![(("Content-Type")@, ("application/x-www-form-urlencoded")@)]
}

/// The fixed `Content-Type` header for form-encoded request bodies.
pub(crate) fn get_headers() -> (r: Vec<(String, String)>)
    ensures
        pairs_str_view(r@) == spec_headers(),
{
    let mut r: Vec<(String, String)> = Vec::new();
    r.push(("Content-Type".to_owned(), "application/x-www-form-urlencoded".to_owned()));
    proof {
        assert(pairs_str_view(r@) =~= spec_headers());
    }
    r
}

} // verus!

