//! The error object a token endpoint returns in place of a token.

use vstd::prelude::*;

use crate::utils::{opt_str_view, str_eq};

verus! {

/// The `error` tag of a token-endpoint error response.
#[derive(Clone, Copy, Debug, PartialEq, Eq, Structural)]
pub enum AuthTokenErrorKind {
    InvalidRequest,
    InvalidClient,
    InvalidGrant,
    UnauthorizedClient,
    UnsupportedGrantType,
    InvalidScope,
}

impl AuthTokenErrorKind {
    /// The kind a snake_case wire tag names, if any.
    pub open spec fn spec_of_tag(t: Seq<char>) -> Option<AuthTokenErrorKind> {
        if t == ("invalid_request")@ {
            Some(AuthTokenErrorKind::InvalidRequest)
        } else if t == ("invalid_client")@ {
            Some(AuthTokenErrorKind::InvalidClient)
        } else if t == ("invalid_grant")@ {
            Some(AuthTokenErrorKind::InvalidGrant)
        } else if t == ("unauthorized_client")@ {
            Some(AuthTokenErrorKind::UnauthorizedClient)
        } else if t == ("unsupported_grant_type")@ {
            Some(AuthTokenErrorKind::UnsupportedGrantType)
        } else if t == ("invalid_scope")@ {
            Some(AuthTokenErrorKind::InvalidScope)
        } else {
            None
        }
    }

    /// Parses a snake_case wire tag; `None` exactly on unknown tags.
    pub fn from_wire_tag(tag: &str) -> (r: Option<AuthTokenErrorKind>)
        ensures
            r == Self::spec_of_tag(tag@),
    {
        if str_eq(tag, "invalid_request") {
            Some(AuthTokenErrorKind::InvalidRequest)
        } else if str_eq(tag, "invalid_client") {
            Some(AuthTokenErrorKind::InvalidClient)
        } else if str_eq(tag, "invalid_grant") {
            Some(AuthTokenErrorKind::InvalidGrant)
        } else if str_eq(tag, "unauthorized_client") {
            Some(AuthTokenErrorKind::UnauthorizedClient)
        } else if str_eq(tag, "unsupported_grant_type") {
            Some(AuthTokenErrorKind::UnsupportedGrantType)
        } else if str_eq(tag, "invalid_scope") {
            Some(AuthTokenErrorKind::InvalidScope)
        } else {
            None
        }
    }

    /// The variant's name, as the display form prints it.
    pub open spec fn spec_name(self) -> Seq<char> {
        match self {
            AuthTokenErrorKind::InvalidRequest => ("InvalidRequest")@,
            AuthTokenErrorKind::InvalidClient => ("InvalidClient")@,
            AuthTokenErrorKind::InvalidGrant => ("InvalidGrant")@,
            AuthTokenErrorKind::UnauthorizedClient => ("UnauthorizedClient")@,
            AuthTokenErrorKind::UnsupportedGrantType => ("UnsupportedGrantType")@,
            AuthTokenErrorKind::InvalidScope => ("InvalidScope")@,
        }
    }

    /// The variant's name as an owned string.
    pub fn name(&self) -> (r: String)
        ensures
            r@ == self.spec_name(),
    {
        match self {
            AuthTokenErrorKind::InvalidRequest => "InvalidRequest".to_owned(),
            AuthTokenErrorKind::InvalidClient => "InvalidClient".to_owned(),
            AuthTokenErrorKind::InvalidGrant => "InvalidGrant".to_owned(),
            AuthTokenErrorKind::UnauthorizedClient => "UnauthorizedClient".to_owned(),
            AuthTokenErrorKind::UnsupportedGrantType => "UnsupportedGrantType".to_owned(),
            AuthTokenErrorKind::InvalidScope => "InvalidScope".to_owned(),
        }
    }

    /// The display form of the kind alone.
    pub open spec fn spec_display(self) -> Seq<char> {
        ("AuthCodeErrorKind::")@ + self.spec_name()
    }

    /// Renders the kind for logging, e.g. `AuthCodeErrorKind::InvalidGrant`.
    pub fn display_string(&self) -> (r: String)
        ensures
            r@ == self.spec_display(),
    {
        let mut r = String::new();
        r.append("AuthCodeErrorKind::");
        let name = self.name();
        r.append(name.as_str());
        proof {
            assert(r@ =~= self.spec_display());
        }
        r
    }
}

/// A token-endpoint error: its kind plus the optional diagnostic fields of
/// the response body. Immutable once constructed.
#[derive(Debug)]
pub struct AuthTokenError {
    error: AuthTokenErrorKind,
    error_description: Option<String>,
    error_uri: Option<String>,
}

impl AuthTokenError {
    /// The error kind.
    pub closed spec fn spec_kind(&self) -> AuthTokenErrorKind {
        self.error
    }

    /// The optional human-readable description.
    pub closed spec fn spec_description(&self) -> Option<Seq<char>> {
        opt_str_view(self.error_description)
    }

    /// The optional documentation URI.
    pub closed spec fn spec_uri(&self) -> Option<Seq<char>> {
        opt_str_view(self.error_uri)
    }

    /// A new error value from its already-parsed parts.
    pub fn new(
        error: AuthTokenErrorKind,
        error_description: Option<String>,
        error_uri: Option<String>,
    ) -> (r: Self)
        ensures
            r.spec_kind() == error,
            r.spec_description() == opt_str_view(error_description),
            r.spec_uri() == opt_str_view(error_uri),
    {
        AuthTokenError { error, error_description, error_uri }
    }

    /// The error kind.
    pub fn kind(&self) -> (r: AuthTokenErrorKind)
        ensures
            r == self.spec_kind(),
    {
        self.error
    }

    /// The optional description, cloned.
    pub fn description(&self) -> (r: Option<String>)
        ensures
            opt_str_view(r) == self.spec_description(),
    {
        match &self.error_description {
            Some(s) => Some(s.clone()),
            None => None,
        }
    }

    /// The optional documentation URI, cloned.
    pub fn uri(&self) -> (r: Option<String>)
        ensures
            opt_str_view(r) == self.spec_uri(),
    {
        match &self.error_uri {
            Some(s) => Some(s.clone()),
            None => None,
        }
    }

    /// The display form: the kind and each optional field, absent fields
    /// rendered as empty.
    pub open spec fn spec_display(&self) -> Seq<char> {
        ("AuthTokenError(error = ")@ + self.spec_kind().spec_display() + (
        ", error_description = ")@ + opt_or_empty(self.spec_description()) + (", error_ui = ")@
            + opt_or_empty(self.spec_uri()) + (")")@
    }

    /// Renders the error for logging, in a fixed field order.
    pub fn display_string(&self) -> (r: String)
        ensures
            r@ == self.spec_display(),
    {
        let mut r = String::new();
        r.append("AuthTokenError(error = ");
        let kind = self.error.display_string();
        r.append(kind.as_str());
        r.append(", error_description = ");
        match &self.error_description {
            Some(s) => r.append(s.as_str()),
            None => {},
        }
        r.append(", error_ui = ");
        match &self.error_uri {
            Some(s) => r.append(s.as_str()),
            None => {},
        }
        r.append(")");
        proof {
            assert(r@ =~= self.spec_display());
        }
        r
    }
}

/// An optional string rendered as itself, or as empty when absent.
pub open spec fn opt_or_empty(o: Option<Seq<char>>) -> Seq<char> {
    match o {
        Some(s) => s,
        None => Seq::empty(),
    }
}

} // verus!
