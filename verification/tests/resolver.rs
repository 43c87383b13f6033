use graph_oauth::{
    ClientSecretCredential, Credential, EnvVarError, EnvironmentCredential, EnvironmentValues,
    ResourceOwnerPasswordCredential,
};

fn source(
    tenant_id: Option<&str>,
    client_id: Option<&str>,
    client_secret: Option<&str>,
    username: Option<&str>,
    password: Option<&str>,
) -> EnvironmentValues {
    EnvironmentValues {
        tenant_id: tenant_id.map(|s| s.to_string()),
        client_id: client_id.map(|s| s.to_string()),
        client_secret: client_secret.map(|s| s.to_string()),
        username: username.map(|s| s.to_string()),
        password: password.map(|s| s.to_string()),
    }
}

#[test]
fn runtime_only_client_secret_common_tenant() {
    let compile_time = EnvironmentValues::empty();
    let runtime = source(None, Some("app-id"), Some("app-secret"), None, None);
    let app = EnvironmentCredential::client_secret_credential(&compile_time, &runtime).unwrap();
    assert_eq!(app.credential.tenant_id, None);
    assert_eq!(app.credential.client_id, "app-id");
    assert_eq!(app.credential.client_secret, "app-secret");
}

#[test]
fn runtime_only_client_secret_tenant_scoped() {
    let compile_time = EnvironmentValues::empty();
    let runtime = source(Some("contoso"), Some("app-id"), Some("app-secret"), None, None);
    let app = EnvironmentCredential::client_secret_credential(&compile_time, &runtime).unwrap();
    assert_eq!(app.credential.tenant_id.as_deref(), Some("contoso"));
    assert_eq!(app.credential.client_id, "app-id");
}

#[test]
fn runtime_only_resource_owner_password() {
    let compile_time = EnvironmentValues::empty();
    let runtime = source(
        Some("contoso"),
        Some("app-id"),
        None,
        Some("alice"),
        Some("open-sesame"),
    );
    let app =
        EnvironmentCredential::resource_owner_password_credential(&compile_time, &runtime).unwrap();
    assert_eq!(app.credential.tenant_id.as_deref(), Some("contoso"));
    assert_eq!(app.credential.client_id, "app-id");
    assert_eq!(app.credential.username, "alice");
    assert_eq!(app.credential.password, "open-sesame");
}

#[test]
fn missing_everywhere_fails_with_not_present() {
    let compile_time = EnvironmentValues::empty();
    let runtime = EnvironmentValues::empty();
    let secret = EnvironmentCredential::client_secret_credential(&compile_time, &runtime);
    assert_eq!(secret.err(), Some(EnvVarError::NotPresent));
    let password = EnvironmentCredential::resource_owner_password_credential(&compile_time, &runtime);
    assert_eq!(password.err(), Some(EnvVarError::NotPresent));
}

#[test]
fn compile_time_value_takes_precedence() {
    let compile_time = source(Some("build-tenant"), Some("build-id"), Some("build-secret"), None, None);
    let runtime = source(Some("run-tenant"), Some("run-id"), Some("run-secret"), None, None);
    let app = EnvironmentCredential::client_secret_credential(&compile_time, &runtime).unwrap();
    assert_eq!(app.credential.tenant_id.as_deref(), Some("build-tenant"));
    assert_eq!(app.credential.client_id, "build-id");
    assert_eq!(app.credential.client_secret, "build-secret");
}

#[test]
fn compile_time_password_takes_precedence() {
    let compile_time = source(None, Some("build-id"), None, Some("build-user"), Some("build-pass"));
    let runtime = source(None, Some("run-id"), None, Some("run-user"), Some("run-pass"));
    let app =
        EnvironmentCredential::resource_owner_password_credential(&compile_time, &runtime).unwrap();
    assert_eq!(app.credential.tenant_id, None);
    assert_eq!(app.credential.client_id, "build-id");
    assert_eq!(app.credential.username, "build-user");
    assert_eq!(app.credential.password, "build-pass");
}

#[test]
fn resource_owner_needs_username_and_password() {
    // Every client-secret variable is present, but the password is missing
    // from both sources: resource-owner-password resolution still fails.
    let compile_time = source(Some("contoso"), Some("app-id"), Some("app-secret"), Some("alice"), None);
    let runtime = source(Some("contoso"), Some("app-id"), Some("app-secret"), Some("alice"), None);
    let password =
        EnvironmentCredential::resource_owner_password_credential(&compile_time, &runtime);
    assert_eq!(password.err(), Some(EnvVarError::NotPresent));
    let secret = EnvironmentCredential::client_secret_credential(&compile_time, &runtime);
    assert!(secret.is_ok());
}

#[test]
fn partial_sources_are_never_merged() {
    // Each source holds one half of the mandatory set; together they would
    // be complete, but resolution must not mix sources.
    let compile_time = source(None, Some("app-id"), None, None, None);
    let runtime = source(None, None, Some("app-secret"), None, None);
    let secret = EnvironmentCredential::client_secret_credential(&compile_time, &runtime);
    assert_eq!(secret.err(), Some(EnvVarError::NotPresent));
}

#[test]
fn environment_credential_from_credentials() {
    let secret = ClientSecretCredential::new("app-id".to_string(), "app-secret".to_string());
    let held = EnvironmentCredential::from(secret);
    assert!(matches!(held.credential, Credential::ClientSecret(_)));

    let password = ResourceOwnerPasswordCredential::new(
        "app-id".to_string(),
        "alice".to_string(),
        "open-sesame".to_string(),
    );
    let held = EnvironmentCredential::from(password);
    assert!(matches!(held.credential, Credential::ResourceOwnerPassword(_)));
}
