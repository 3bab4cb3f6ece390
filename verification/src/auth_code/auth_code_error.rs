//! The error object an authorization endpoint sends back with a redirect.

use vstd::prelude::*;

use crate::auth_token_error::opt_or_empty;
use crate::utils::{opt_str_view, str_eq};

verus! {

/// The `error` tag of an authorization-endpoint error response.
#[derive(Clone, Copy, Debug, PartialEq, Eq, Structural)]
pub enum AuthCodeErrorKind {
    InvalidRequest,
    UnauthorizedClient,
    AccessDenied,
    UnsupportedResponseType,
    InvalidScope,
    ServerError,
    TemporarilyUnavailable,
}

impl AuthCodeErrorKind {
    /// The kind a snake_case wire tag names, if any.
    pub open spec fn spec_of_tag(t: Seq<char>) -> Option<AuthCodeErrorKind> {
        if t == ("invalid_request")@ {
            Some(AuthCodeErrorKind::InvalidRequest)
        } else if t == ("unauthorized_client")@ {
            Some(AuthCodeErrorKind::UnauthorizedClient)
        } else if t == ("access_denied")@ {
            Some(AuthCodeErrorKind::AccessDenied)
        } else if t == ("unsupported_response_type")@ {
            Some(AuthCodeErrorKind::UnsupportedResponseType)
        } else if t == ("invalid_scope")@ {
            Some(AuthCodeErrorKind::InvalidScope)
        } else if t == ("server_error")@ {
            Some(AuthCodeErrorKind::ServerError)
        } else if t == ("temporarily_unavailable")@ {
            Some(AuthCodeErrorKind::TemporarilyUnavailable)
        } else {
            None
        }
    }

    /// Parses a snake_case wire tag; `None` exactly on unknown tags.
    pub fn from_wire_tag(tag: &str) -> (r: Option<AuthCodeErrorKind>)
        ensures
            r == Self::spec_of_tag(tag@),
    {
        if str_eq(tag, "invalid_request") {
            Some(AuthCodeErrorKind::InvalidRequest)
        } else if str_eq(tag, "unauthorized_client") {
            Some(AuthCodeErrorKind::UnauthorizedClient)
        } else if str_eq(tag, "access_denied") {
            Some(AuthCodeErrorKind::AccessDenied)
        } else if str_eq(tag, "unsupported_response_type") {
            Some(AuthCodeErrorKind::UnsupportedResponseType)
        } else if str_eq(tag, "invalid_scope") {
            Some(AuthCodeErrorKind::InvalidScope)
        } else if str_eq(tag, "server_error") {
            Some(AuthCodeErrorKind::ServerError)
        } else if str_eq(tag, "temporarily_unavailable") {
            Some(AuthCodeErrorKind::TemporarilyUnavailable)
        } else {
            None
        }
    }

    /// The variant's name, as the display form prints it.
    pub open spec fn spec_name(self) -> Seq<char> {
        match self {
            AuthCodeErrorKind::InvalidRequest => ("InvalidRequest")@,
            AuthCodeErrorKind::UnauthorizedClient => ("UnauthorizedClient")@,
            AuthCodeErrorKind::AccessDenied => ("AccessDenied")@,
            AuthCodeErrorKind::UnsupportedResponseType => ("UnsupportedResponseType")@,
            AuthCodeErrorKind::InvalidScope => ("InvalidScope")@,
            AuthCodeErrorKind::ServerError => ("ServerError")@,
            AuthCodeErrorKind::TemporarilyUnavailable => ("TemporarilyUnavailable")@,
        }
    }

    /// The variant's name as an owned string.
    pub fn name(&self) -> (r: String)
        ensures
            r@ == self.spec_name(),
    {
        match self {
            AuthCodeErrorKind::InvalidRequest => "InvalidRequest".to_owned(),
            AuthCodeErrorKind::UnauthorizedClient => "UnauthorizedClient".to_owned(),
            AuthCodeErrorKind::AccessDenied => "AccessDenied".to_owned(),
            AuthCodeErrorKind::UnsupportedResponseType => "UnsupportedResponseType".to_owned(),
            AuthCodeErrorKind::InvalidScope => "InvalidScope".to_owned(),
            AuthCodeErrorKind::ServerError => "ServerError".to_owned(),
            AuthCodeErrorKind::TemporarilyUnavailable => "TemporarilyUnavailable".to_owned(),
        }
    }

    /// The display form of the kind alone.
    pub open spec fn spec_display(self) -> Seq<char> {
        ("AuthErrorKind::")@ + self.spec_name()
    }

    /// Renders the kind for logging, e.g. `AuthErrorKind::AccessDenied`.
    pub fn display_string(&self) -> (r: String)
        ensures
            r@ == self.spec_display(),
    {
        let mut r = String::new();
        r.append("AuthErrorKind::");
        let name = self.name();
        r.append(name.as_str());
        proof {
            assert(r@ =~= self.spec_display());
        }
        r
    }
}

/// An authorization-endpoint error: its kind plus the optional diagnostic
/// fields of the response. Immutable once constructed.
#[derive(Debug)]
pub struct AuthCodeError {
    error: AuthCodeErrorKind,
    error_description: Option<String>,
    error_uri: Option<String>,
    state: Option<String>,
}

impl AuthCodeError {
    /// The error kind.
    pub closed spec fn spec_kind(&self) -> AuthCodeErrorKind {
        self.error
    }

    /// The optional human-readable description.
    pub closed spec fn spec_description(&self) -> Option<Seq<char>> {
        opt_str_view(self.error_description)
    }

    /// The optional documentation URI.
    pub closed spec fn spec_uri(&self) -> Option<Seq<char>> {
        opt_str_view(self.error_uri)
    }

    /// The optional state echoed back by the server.
    pub closed spec fn spec_state(&self) -> Option<Seq<char>> {
        opt_str_view(self.state)
    }

    /// A new error value from its already-parsed parts.
    pub fn new(
        error: AuthCodeErrorKind,
        error_description: Option<String>,
        error_uri: Option<String>,
        state: Option<String>,
    ) -> (r: Self)
        ensures
            r.spec_kind() == error,
            r.spec_description() == opt_str_view(error_description),
            r.spec_uri() == opt_str_view(error_uri),
            r.spec_state() == opt_str_view(state),
    {
        AuthCodeError { error, error_description, error_uri, state }
    }

    /// Builds the error from a raw wire tag; `None` exactly on unknown
    /// tags.
    pub fn from_parts(
        error: &str,
        error_description: Option<String>,
        error_uri: Option<String>,
        state: Option<String>,
    ) -> (r: Option<Self>)
        ensures
            match AuthCodeErrorKind::spec_of_tag(error@) {
                Some(k) => r matches Some(e) && e.spec_kind() == k && e.spec_description()
                    == opt_str_view(error_description) && e.spec_uri() == opt_str_view(error_uri)
                    && e.spec_state() == opt_str_view(state),
                None => r is None,
            },
    {
        match AuthCodeErrorKind::from_wire_tag(error) {
            Some(k) => Some(AuthCodeError::new(k, error_description, error_uri, state)),
            None => None,
        }
    }

    /// The error kind.
    pub fn kind(&self) -> (r: AuthCodeErrorKind)
        ensures
            r == self.spec_kind(),
    {
        self.error
    }

    /// The optional description, cloned.
    pub fn description(&self) -> (r: Option<String>)
        ensures
            opt_str_view(r) == self.spec_description(),
    {
        match &self.error_description {
            Some(s) => Some(s.clone()),
            None => None,
        }
    }

    /// The optional documentation URI, cloned.
    pub fn uri(&self) -> (r: Option<String>)
        ensures
            opt_str_view(r) == self.spec_uri(),
    {
        match &self.error_uri {
            Some(s) => Some(s.clone()),
            None => None,
        }
    }

    /// The optional echoed state, cloned.
    pub fn state(&self) -> (r: Option<String>)
        ensures
            opt_str_view(r) == self.spec_state(),
    {
        match &self.state {
            Some(s) => Some(s.clone()),
            None => None,
        }
    }

    /// The display form: the kind and each optional field, absent fields
    /// rendered as empty.
    pub open spec fn spec_display(&self) -> Seq<char> {
        ("AuthError(error = ")@ + self.spec_kind().spec_display() + (", error_description = ")@
            + opt_or_empty(self.spec_description()) + (", error_url = ")@ + opt_or_empty(
            self.spec_uri(),
        ) + (", state = ")@ + opt_or_empty(self.spec_state()) + (")")@
    }

    /// Renders the error for logging, in a fixed field order.
    pub fn display_string(&self) -> (r: String)
        ensures
            r@ == self.spec_display(),
    {
        let mut r = String::new();
        r.append("AuthError(error = ");
        let kind = self.error.display_string();
        r.append(kind.as_str());
        r.append(", error_description = ");
        match &self.error_description {
            Some(s) => r.append(s.as_str()),
            None => {},
        }
        r.append(", error_url = ");
        match &self.error_uri {
            Some(s) => r.append(s.as_str()),
            None => {},
        }
        r.append(", state = ");
        match &self.state {
            Some(s) => r.append(s.as_str()),
            None => {},
        }
        r.append(")");
        proof {
            assert(r@ =~= self.spec_display());
        }
        r
    }
}

} // verus!
