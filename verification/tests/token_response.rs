use oauth_client::interpret_token_response;
use oauth_client::AuthTokenErrorKind;
use oauth_client::ErrorResponseFields;
use oauth_client::ScopeValue;
use oauth_client::Token;
use oauth_client::TokenResponseError;
use oauth_client::TokenResponseFields;

fn ok_fields() -> TokenResponseFields {
    TokenResponseFields {
        access_token: "at".into(),
        token_type: "Bearer".into(),
        refresh_token: None,
        expires_in: Some(60),
        scope: Some(ScopeValue::Text("a b".into())),
    }
}

#[test]
fn test_interpret_success() {
    let token = interpret_token_response(200, Some(ok_fields()), None).unwrap();
    assert_eq!(token.access_token(), String::from("at"));
    assert_eq!(token.token_type(), String::from("Bearer"));
    assert_eq!(token.scopes(), Some(String::from("a b")));
}

#[test]
fn test_interpret_success_bad_body_is_decoding_failure() {
    let r = interpret_token_response(200, None, None);
    assert!(matches!(r, Err(TokenResponseError::Decoding)));
}

#[test]
fn test_interpret_error_status_yields_typed_error() {
    let fields = ErrorResponseFields {
        error: "invalid_grant".into(),
        error_description: Some("expired".into()),
        error_uri: None,
    };
    let r = interpret_token_response(400, None, Some(fields));
    match r {
        Err(TokenResponseError::Protocol(e)) => {
            assert_eq!(e.kind(), AuthTokenErrorKind::InvalidGrant);
            assert_eq!(e.description(), Some(String::from("expired")));
            assert_eq!(e.uri(), None);
        }
        _ => panic!("expected a typed protocol error"),
    }
}

#[test]
fn test_interpret_error_status_even_with_token_shaped_body() {
    let fields = ErrorResponseFields {
        error: "invalid_client".into(),
        error_description: None,
        error_uri: None,
    };
    let r = interpret_token_response(500, Some(ok_fields()), Some(fields));
    assert!(matches!(r, Err(TokenResponseError::Protocol(_))));
}

#[test]
fn test_interpret_error_unknown_tag_is_decoding_failure() {
    let fields = ErrorResponseFields {
        error: "not_a_known_tag".into(),
        error_description: None,
        error_uri: None,
    };
    let r = interpret_token_response(400, None, Some(fields));
    assert!(matches!(r, Err(TokenResponseError::Decoding)));
}

#[test]
fn test_interpret_error_without_body_is_decoding_failure() {
    let r = interpret_token_response(503, None, None);
    assert!(matches!(r, Err(TokenResponseError::Decoding)));
}
