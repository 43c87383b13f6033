use graph_oauth::redirect::{handle_redirect, handle_redirect_request, parse_redirect_query};
use graph_oauth::{ClientCredentialsResponse, RedirectRejection};

const SUCCESS: &str = "Successfully Logged In! You can close your browser.";

#[test]
fn consent_callback_is_answered_with_success_page() {
    let reply = handle_redirect_request("/redirect", "admin_consent=true&tenant=contoso");
    assert_eq!(reply, Ok(SUCCESS.to_string()));
}

#[test]
fn callback_without_query_is_rejected() {
    let reply = handle_redirect_request("/redirect", "");
    assert_eq!(reply, Err(RedirectRejection));
}

#[test]
fn unrelated_path_is_rejected() {
    let reply = handle_redirect_request("/other", "admin_consent=true&tenant=contoso");
    assert_eq!(reply, Err(RedirectRejection));
}

#[test]
fn query_parses_into_response_record() {
    let response = parse_redirect_query("admin_consent=false&tenant=contoso").unwrap();
    assert!(!response.admin_consent);
    assert_eq!(response.tenant, "contoso");
}

#[test]
fn query_pair_order_does_not_matter() {
    let response = parse_redirect_query("tenant=contoso&admin_consent=true").unwrap();
    assert!(response.admin_consent);
    assert_eq!(response.tenant, "contoso");
}

#[test]
fn unknown_keys_are_ignored() {
    let response =
        parse_redirect_query("state=123&admin_consent=true&tenant=contoso&extra=1").unwrap();
    assert!(response.admin_consent);
    assert_eq!(response.tenant, "contoso");
}

#[test]
fn empty_tenant_value_is_kept() {
    let response = parse_redirect_query("admin_consent=true&tenant=").unwrap();
    assert_eq!(response.tenant, "");
}

#[test]
fn tenant_value_may_contain_equals_signs() {
    let response = parse_redirect_query("admin_consent=true&tenant=a=b").unwrap();
    assert_eq!(response.tenant, "a=b");
}

#[test]
fn non_boolean_admin_consent_is_rejected() {
    assert!(parse_redirect_query("admin_consent=yes&tenant=contoso").is_none());
    assert!(parse_redirect_query("admin_consent=TRUE&tenant=contoso").is_none());
    assert!(parse_redirect_query("admin_consent&tenant=contoso").is_none());
}

#[test]
fn missing_keys_are_rejected() {
    assert!(parse_redirect_query("admin_consent=true").is_none());
    assert!(parse_redirect_query("tenant=contoso").is_none());
    assert!(parse_redirect_query("").is_none());
}

#[test]
fn repeated_keys_are_rejected() {
    assert!(parse_redirect_query("admin_consent=true&admin_consent=true&tenant=c").is_none());
    assert!(parse_redirect_query("admin_consent=true&tenant=a&tenant=b").is_none());
}

#[test]
fn handle_redirect_answers_the_parse_outcome() {
    let parsed = Some(ClientCredentialsResponse { admin_consent: true, tenant: "contoso".to_string() });
    assert_eq!(handle_redirect(parsed), Ok(SUCCESS.to_string()));
    assert_eq!(handle_redirect(None), Err(RedirectRejection));
}

#[test]
fn default_response_is_empty_and_unconsented() {
    let response = ClientCredentialsResponse::default();
    assert!(!response.admin_consent);
    assert_eq!(response.tenant, "");
}
