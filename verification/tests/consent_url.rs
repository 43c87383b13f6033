use graph_oauth::{AuthorizationUrlError, ClientCredentialsAuthorizationUrl};

#[test]
fn admin_consent_url_carries_client_id_and_redirect_uri() {
    let credential = ClientCredentialsAuthorizationUrl::new(
        "app-id".to_string(),
        "http://localhost:8000/redirect".to_string(),
    )
    .unwrap();
    let url = credential.url().unwrap();
    assert_eq!(
        url,
        "https://login.microsoftonline.com/common/adminconsent?\
         client_id=app-id&redirect_uri=http://localhost:8000/redirect"
    );
}

#[test]
fn admin_consent_url_from_builder() {
    let credential = ClientCredentialsAuthorizationUrl::builder("app-id".to_string())
        .with_redirect_uri("http://localhost:8000/redirect".to_string())
        .unwrap()
        .with_state("123".to_string())
        .with_tenant("tenant_id".to_string())
        .build();
    let url = credential.url().unwrap();
    assert_eq!(
        url,
        "https://login.microsoftonline.com/tenant_id/adminconsent?\
         client_id=app-id&redirect_uri=http://localhost:8000/redirect&state=123"
    );
}

#[test]
fn empty_client_id_is_rejected() {
    let result = ClientCredentialsAuthorizationUrl::new(
        String::new(),
        "http://localhost:8000/redirect".to_string(),
    );
    assert!(matches!(result, Err(AuthorizationUrlError::InvalidClientId)));
}

#[test]
fn malformed_redirect_uri_is_rejected() {
    for bad in ["", "redirect", "://host", "http:/host", "http://", "1http://host"] {
        let result =
            ClientCredentialsAuthorizationUrl::new("app-id".to_string(), bad.to_string());
        assert!(matches!(result, Err(AuthorizationUrlError::InvalidRedirectUri)));
    }
}

#[test]
fn builder_without_redirect_uri_cannot_assemble() {
    let credential = ClientCredentialsAuthorizationUrl::builder("app-id".to_string()).build();
    assert!(matches!(credential.url(), Err(AuthorizationUrlError::InvalidRedirectUri)));
}

#[test]
fn builder_redirect_uri_is_validated() {
    let result = ClientCredentialsAuthorizationUrl::builder("app-id".to_string())
        .with_redirect_uri("not a uri".to_string());
    assert!(matches!(result, Err(AuthorizationUrlError::InvalidRedirectUri)));
}

#[test]
fn error_messages_name_the_rejected_field() {
    assert_eq!(
        AuthorizationUrlError::InvalidClientId.message(),
        "the client id must not be empty"
    );
    assert_eq!(
        AuthorizationUrlError::InvalidRedirectUri.message(),
        "the redirect URI is not a valid absolute URI"
    );
    assert_eq!(
        AuthorizationUrlError::InvalidAuthority.message(),
        "the authority is not a valid absolute URI"
    );
}

#[test]
fn explicit_authority_is_used_and_checked() {
    let credential = ClientCredentialsAuthorizationUrl::builder("app-id".to_string())
        .with_redirect_uri("https://example.net/cb".to_string())
        .unwrap()
        .with_authority("https://login.partner.example".to_string())
        .build();
    let url = credential.url().unwrap();
    assert_eq!(
        url,
        "https://login.partner.example/common/adminconsent?\
         client_id=app-id&redirect_uri=https://example.net/cb"
    );

    let broken = ClientCredentialsAuthorizationUrl::builder("app-id".to_string())
        .with_redirect_uri("https://example.net/cb".to_string())
        .unwrap()
        .with_authority("login.partner.example".to_string())
        .build();
    assert!(matches!(broken.url(), Err(AuthorizationUrlError::InvalidAuthority)));
}
