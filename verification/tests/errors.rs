use oauth_client::AuthCodeError;
use oauth_client::AuthCodeErrorKind;
use oauth_client::AuthTokenError;
use oauth_client::AuthTokenErrorKind;

#[test]
fn test_token_error_kind_from_wire_tags() {
    assert_eq!(
        AuthTokenErrorKind::from_wire_tag("invalid_request"),
        Some(AuthTokenErrorKind::InvalidRequest)
    );
    assert_eq!(
        AuthTokenErrorKind::from_wire_tag("invalid_client"),
        Some(AuthTokenErrorKind::InvalidClient)
    );
    assert_eq!(
        AuthTokenErrorKind::from_wire_tag("invalid_grant"),
        Some(AuthTokenErrorKind::InvalidGrant)
    );
    assert_eq!(
        AuthTokenErrorKind::from_wire_tag("unauthorized_client"),
        Some(AuthTokenErrorKind::UnauthorizedClient)
    );
    assert_eq!(
        AuthTokenErrorKind::from_wire_tag("unsupported_grant_type"),
        Some(AuthTokenErrorKind::UnsupportedGrantType)
    );
    assert_eq!(
        AuthTokenErrorKind::from_wire_tag("invalid_scope"),
        Some(AuthTokenErrorKind::InvalidScope)
    );
    assert_eq!(AuthTokenErrorKind::from_wire_tag("access_denied"), None);
    assert_eq!(AuthTokenErrorKind::from_wire_tag(""), None);
}

#[test]
fn test_auth_code_error_kind_from_wire_tags() {
    assert_eq!(
        AuthCodeErrorKind::from_wire_tag("invalid_request"),
        Some(AuthCodeErrorKind::InvalidRequest)
    );
    assert_eq!(
        AuthCodeErrorKind::from_wire_tag("unauthorized_client"),
        Some(AuthCodeErrorKind::UnauthorizedClient)
    );
    assert_eq!(
        AuthCodeErrorKind::from_wire_tag("access_denied"),
        Some(AuthCodeErrorKind::AccessDenied)
    );
    assert_eq!(
        AuthCodeErrorKind::from_wire_tag("unsupported_response_type"),
        Some(AuthCodeErrorKind::UnsupportedResponseType)
    );
    assert_eq!(
        AuthCodeErrorKind::from_wire_tag("invalid_scope"),
        Some(AuthCodeErrorKind::InvalidScope)
    );
    assert_eq!(
        AuthCodeErrorKind::from_wire_tag("server_error"),
        Some(AuthCodeErrorKind::ServerError)
    );
    assert_eq!(
        AuthCodeErrorKind::from_wire_tag("temporarily_unavailable"),
        Some(AuthCodeErrorKind::TemporarilyUnavailable)
    );
    assert_eq!(AuthCodeErrorKind::from_wire_tag("invalid_grant"), None);
}

#[test]
fn test_token_error_display() {
    let e = AuthTokenError::new(
        AuthTokenErrorKind::InvalidGrant,
        Some("code expired".into()),
        None,
    );
    assert_eq!(
        e.display_string(),
        "AuthTokenError(error = AuthCodeErrorKind::InvalidGrant, error_description = code expired, error_ui = )"
    );
}

#[test]
fn test_auth_code_error_display() {
    let e = AuthCodeError::new(
        AuthCodeErrorKind::AccessDenied,
        None,
        Some("https://errors.example.com".into()),
        Some("st".into()),
    );
    assert_eq!(
        e.display_string(),
        "AuthError(error = AuthErrorKind::AccessDenied, error_description = , error_url = https://errors.example.com, state = st)"
    );
}

#[test]
fn test_auth_code_error_from_parts() {
    let e = AuthCodeError::from_parts("access_denied", Some("no".into()), None, Some("s".into()))
        .unwrap();
    assert_eq!(e.kind(), AuthCodeErrorKind::AccessDenied);
    assert_eq!(e.description(), Some(String::from("no")));
    assert_eq!(e.uri(), None);
    assert_eq!(e.state(), Some(String::from("s")));
    assert!(AuthCodeError::from_parts("nope", None, None, None).is_none());
}
