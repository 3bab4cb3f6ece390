use oauth_client::append_to_vec;
use oauth_client::AuthCodeAccessTokenRequest;
use oauth_client::AuthCodeRequest;
use oauth_client::ClientCredentialsGrantAuthTokenRequest;
use oauth_client::OAuthParams;
use oauth_client::OwnerPasswordAccessTokenRequest;
use oauth_client::RefreshTokenRequest;

#[test]
fn test_default() {
    let def = AuthCodeRequest::default();
    assert_eq!(def, AuthCodeRequest::new("".into(), "".into()));
}

#[test]
fn test_new() {
    let new = AuthCodeRequest::new("test_id".into(), "test_response_type".into());
    assert_eq!(new.get_client_id(), Some(String::from("test_id")));
    assert_eq!(new.get_response_type(), Some(String::from("test_response_type")));
    assert_eq!(new.get_redirect_url(), None);
    assert_eq!(new.get_state(), None);
    assert!(new.get_scopes_ref().is_none());
    assert!(new.get_extra_params_ref().is_none());
}

#[test]
fn test_set_redirect_url() {
    let mut new = AuthCodeRequest::new("".into(), "".into());
    new.set_redirect_url("test_redirect_url".into());
    assert!(new.get_redirect_url() == Some(String::from("test_redirect_url")));
}

#[test]
fn test_oauth_params() {
    let mut request = AuthCodeRequest::new("test_id".into(), "code".into());
    request.add_scope("https://www.googleapis.com/auth/drive.metadata.readonly".into());
    request.add_scope("https://www.googleapis.com/auth/drive.metadata.writeonly".into());
    request.add_extra_param("access_type".into(), "offline".into());
    request.add_extra_param("include_granted_scopes".into(), "true".into());
    request.set_state("state_parameter_passthrough_value".into());
    request.set_redirect_url("https://oauth2.example.com/code".into());

    let params = request.get_request_params_as_vec();
    println!("{params:?}");

    assert!(params.contains(&("client_id".into(), "test_id".into())));
    assert!(params.contains(&("response_type".into(), "code".into())));
    assert!(params.contains(&(
        "redirect_uri".into(),
        "https://oauth2.example.com/code".into()
    )));
    assert!(params.contains(&("scope".into(), "https://www.googleapis.com/auth/drive.metadata.readonly https://www.googleapis.com/auth/drive.metadata.writeonly".into())));
    assert!(params.contains(&("state".into(), "state_parameter_passthrough_value".into())));
    assert!(params.contains(&("include_granted_scopes".into(), "true".into())));
    assert!(params.contains(&("access_type".into(), "offline".into())));
    assert_eq!(params.len(), 7);
}

#[test]
fn test_render_order_exact() {
    let mut request = AuthCodeRequest::new("test_id".into(), "code".into());
    request.set_redirect_url("https://oauth2.example.com/code".into());
    request.add_scope("s1".into());
    request.add_scope("s2".into());
    request.set_state("xyz".into());

    let params = request.get_request_params_as_vec();
    let expected: Vec<(String, String)> = vec![
        ("response_type".into(), "code".into()),
        ("redirect_uri".into(), "https://oauth2.example.com/code".into()),
        ("client_id".into(), "test_id".into()),
        ("scope".into(), "s1 s2".into()),
        ("state".into(), "xyz".into()),
    ];
    assert_eq!(params, expected);
}

#[test]
fn test_render_omits_absent_fields() {
    let request = AuthCodeRequest::new("only_id".into(), "code".into());
    let params = request.get_request_params_as_vec();
    let expected: Vec<(String, String)> = vec![
        ("response_type".into(), "code".into()),
        ("client_id".into(), "only_id".into()),
    ];
    assert_eq!(params, expected);
}

#[test]
fn test_empty_scope_list_is_omitted() {
    let mut request = AuthCodeRequest::new("id".into(), "code".into());
    request.add_scopes(Vec::new());
    let params = request.get_request_params_as_vec();
    assert!(!params.iter().any(|p| p.0 == "scope"));
}

#[test]
fn test_add_scope_no_dedup() {
    let mut request = AuthCodeRequest::new("id".into(), "code".into());
    request.add_scope("dup".into());
    request.add_scope("dup".into());
    let params = request.get_request_params_as_vec();
    assert!(params.contains(&("scope".into(), "dup dup".into())));
}

#[test]
fn test_add_extra_param_duplicate_keys() {
    let mut request = AuthCodeRequest::new("id".into(), "code".into());
    request.add_extra_param("k".into(), "v1".into());
    request.add_extra_param("k".into(), "v2".into());
    let params = request.get_request_params_as_vec();
    assert!(params.contains(&("k".into(), "v1".into())));
    assert!(params.contains(&("k".into(), "v2".into())));
    assert_eq!(params.len(), 4);
}

#[test]
fn test_headers() {
    let request = AuthCodeRequest::new("id".into(), "code".into());
    let headers = request.get_headers();
    assert_eq!(
        headers,
        vec![(
            String::from("Content-Type"),
            String::from("application/x-www-form-urlencoded")
        )]
    );
}

#[test]
fn test_auth_code_token_request_params() {
    let mut request = AuthCodeAccessTokenRequest::new(
        "the_code".into(),
        "https://client.example.com/cb".into(),
        "client_1".into(),
    );
    request.set_client_secret("shh".into());
    request.add_scopes(vec!["a".into(), "b".into()]);
    request.add_extra_param("x".into(), "y".into());
    let params = request.get_request_params_as_vec();
    let expected: Vec<(String, String)> = vec![
        ("grant_type".into(), "authorization_code".into()),
        ("redirect_uri".into(), "https://client.example.com/cb".into()),
        ("client_id".into(), "client_1".into()),
        ("client_secret".into(), "shh".into()),
        ("scope".into(), "a b".into()),
        ("x".into(), "y".into()),
        ("code".into(), "the_code".into()),
    ];
    assert_eq!(params, expected);
}

#[test]
fn test_client_credentials_params() {
    let mut request = ClientCredentialsGrantAuthTokenRequest::new();
    request.add_scope("s".into());
    let params = request.get_request_params_as_vec();
    let expected: Vec<(String, String)> = vec![
        ("grant_type".into(), "client_credentials".into()),
        ("scope".into(), "s".into()),
    ];
    assert_eq!(params, expected);
    assert_eq!(
        request.get_headers(),
        vec![(
            String::from("Content-Type"),
            String::from("application/x-www-form-urlencoded")
        )]
    );
}

#[test]
fn test_owner_password_token_request_params() {
    let mut request =
        OwnerPasswordAccessTokenRequest::new("test_user".into(), "test_password".into());
    request.add_scopes(vec!["test_scope1".to_owned(), "test_scope2".to_owned()]);
    request.add_extra_param("extra1".into(), "extra1".into());

    let params = request.get_request_params_as_vec();
    println!("{params:?}");

    assert_eq!(
        params.contains(&("username".to_owned(), "test_user".to_owned())),
        true
    );
    assert_eq!(
        params.contains(&("password".to_owned(), "test_password".to_owned())),
        true
    );
    assert_eq!(
        params.contains(&("scope".to_owned(), "test_scope1 test_scope2".to_owned())),
        true
    );
    assert_eq!(
        params.contains(&("extra1".to_owned(), "extra1".to_owned())),
        true
    );
}

#[test]
fn test_refresh_token_request_params() {
    let mut request = RefreshTokenRequest::new("rt_1".into()).extra_params("a".into(), "b".into());
    request.add_scope("s1".into());
    request.add_scopes(vec!["s2".into()]);
    let params = request.get_request_params_as_vec();
    let expected: Vec<(String, String)> = vec![
        ("grant_type".into(), "refresh_token".into()),
        ("refresh_token".into(), "rt_1".into()),
        ("scope".into(), "s1 s2".into()),
        ("a".into(), "b".into()),
    ];
    assert_eq!(params, expected);
    assert_eq!(
        request.get_headers(),
        vec![(
            String::from("Content-Type"),
            String::from("application/x-www-form-urlencoded")
        )]
    );
}

#[test]
fn test_append_to_vec() {
    let mut v: Vec<u32> = vec![1, 2];
    append_to_vec(&mut v, vec![3, 4]);
    assert_eq!(v, vec![1, 2, 3, 4]);
}

#[test]
fn test_prepared_url() {
    let mut request = AuthCodeRequest::new("test_id".into(), "code".into());
    request.set_redirect_url("https://oauth2.example.com/code".into());
    request.add_scope("s1".into());
    request.add_scope("s2".into());
    let url = request
        .get_prepared_url("https://accounts.example.com/auth")
        .unwrap();
    assert_eq!(
        url,
        "https://accounts.example.com/auth?response_type=code&redirect_uri=https%3A%2F%2Foauth2.example.com%2Fcode&client_id=test_id&scope=s1%20s2"
    );
}

#[test]
fn test_prepared_url_non_ascii_fails() {
    let request = AuthCodeRequest::new("identit\u{00e9}".into(), "code".into());
    assert!(request.get_prepared_url("https://a.example.com").is_err());
}
