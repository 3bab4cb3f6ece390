use std::time::Duration;
use std::time::SystemTime;

use oauth_client::token_validity;
use oauth_client::AuthCodeToken;
use oauth_client::ScopeValue;
use oauth_client::Token;
use oauth_client::TokenResponseFields;

fn token_issued_secs_ago(secs: u64) -> AuthCodeToken {
    let issued = SystemTime::now()
        .checked_sub(Duration::from_secs(secs))
        .unwrap();
    AuthCodeToken::new_issued_at("test_token".into(), "Bearer".into(), issued)
}

#[test]
fn test_auth_token_is_valid() {
    let mut token = token_issued_secs_ago(3599);
    token.set_refresh_token("test_refresh_token".into());
    token.set_exprires_in(3600);
    assert_eq!(token.is_valid(), true);
}

#[test]
fn test_auth_token_is_valid_not_valid() {
    let mut token = token_issued_secs_ago(3600);
    token.set_refresh_token("test_refresh_token".into());
    token.set_exprires_in(3600);
    assert_eq!(token.is_valid(), false);
}

#[test]
fn test_is_valid_no_expiry() {
    let mut token = token_issued_secs_ago(999_999);
    token.set_refresh_token("test_refresh_token".into());
    assert_eq!(token.is_valid(), true);
}

#[test]
fn test_token_validity_boundaries() {
    assert_eq!(token_validity(Some(3600), Some(3599)), true);
    assert_eq!(token_validity(Some(3600), Some(3600)), false);
    assert_eq!(token_validity(Some(3600), Some(999_999)), false);
    assert_eq!(token_validity(Some(3600), None), true);
    assert_eq!(token_validity(None, Some(999_999)), true);
    assert_eq!(token_validity(None, None), true);
}

fn fields_with_scope(scope: Option<ScopeValue>) -> TokenResponseFields {
    TokenResponseFields {
        access_token: "test_token".into(),
        token_type: "Bearer".into(),
        refresh_token: Some("test_refresh_token".into()),
        expires_in: Some(3600),
        scope,
    }
}

#[test]
fn test_auth_token_deserializtion_scope_is_space_seperated_string() {
    let token = AuthCodeToken::from_response_fields(fields_with_scope(Some(ScopeValue::Text(
        "test_scope test_another_scope".into(),
    ))));
    assert_eq!(
        token.scopes(),
        Some(String::from("test_scope test_another_scope"))
    );
}

#[test]
fn test_auth_token_deserializtion_scope_is_array() {
    let token = AuthCodeToken::from_response_fields(fields_with_scope(Some(ScopeValue::List(
        vec!["test_scope".into(), "test_another_scope".into()],
    ))));
    assert_eq!(
        token.scopes(),
        Some(String::from("test_scope test_another_scope"))
    );
}

#[test]
fn test_auth_token_deserializtion_scope_is_absent() {
    let token = AuthCodeToken::from_response_fields(fields_with_scope(None));
    assert_eq!(token.scopes(), None);
}

#[test]
fn test_scope_round_trip_equality() {
    let from_text = AuthCodeToken::from_response_fields(fields_with_scope(Some(
        ScopeValue::Text("a b".into()),
    )));
    let from_list = AuthCodeToken::from_response_fields(fields_with_scope(Some(
        ScopeValue::List(vec!["a".into(), "b".into()]),
    )));
    assert_eq!(from_text, from_list);
    assert_eq!(from_text.scopes(), Some(String::from("a b")));
    assert_eq!(from_list.scopes(), Some(String::from("a b")));
}

#[test]
fn test_scope_text_drops_extra_spaces() {
    let token = AuthCodeToken::from_response_fields(fields_with_scope(Some(ScopeValue::Text(
        "  a   b ".into(),
    ))));
    assert_eq!(token.scopes(), Some(String::from("a b")));
}

#[test]
fn test_token_accessors() {
    let mut token = AuthCodeToken::new("tok".into(), "Bearer".into());
    assert_eq!(token.access_token(), String::from("tok"));
    assert_eq!(token.token_type(), String::from("Bearer"));
    assert_eq!(token.refresh_token(), None);
    assert_eq!(token.scopes(), None);
    token.set_refresh_token("rt".into());
    assert_eq!(token.refresh_token(), Some(String::from("rt")));
    token.set_scope(vec!["x".into(), "y".into()]);
    assert_eq!(token.scopes(), Some(String::from("x y")));
}

#[test]
fn test_token_equality_ignores_issuance_time() {
    let mut a = token_issued_secs_ago(10_000);
    let mut b = AuthCodeToken::new("test_token".into(), "Bearer".into());
    a.set_exprires_in(60);
    b.set_exprires_in(60);
    assert_eq!(a, b);
    b.set_refresh_token("rt".into());
    assert!(a != b);
}
