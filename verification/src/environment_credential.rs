//! The environment credential resolver.
//!
//! Resolution picks between two credential kinds (client secret or resource
//! owner password) and two credential sources: values baked in at compile
//! time and values read from the process environment at runtime. The
//! compile-time source is tried strictly first; the first source that holds
//! every mandatory value wins, and partial field sets from the two sources
//! are never merged. The tenant id is optional in either source: when the
//! winning source holds one, the credential is tenant-scoped, otherwise it is
//! scoped to the default ("common") tenant.
//!
//! Reading the two sources is the surrounding program's job: it hands each
//! source in as an [`EnvironmentValues`] record, and the functions here are
//! pure decisions over those records.

use crate::client_application::{ConfidentialClientApplication, PublicClientApplication};
use crate::credentials::{
    ClientSecretCredential, ClientSecretCredentialView, ResourceOwnerPasswordCredential,
    ResourceOwnerPasswordCredentialView,
};
use vstd::prelude::*;

verus! {

/// One credential source: the five environment values, each present or
/// absent. The fields correspond to the variables `AZURE_TENANT_ID`,
/// `AZURE_CLIENT_ID`, `AZURE_CLIENT_SECRET`, `AZURE_USERNAME` and
/// `AZURE_PASSWORD`.
pub struct EnvironmentValues {
    pub tenant_id: Option<String>,
    pub client_id: Option<String>,
    pub client_secret: Option<String>,
    pub username: Option<String>,
    pub password: Option<String>,
}

/// Mathematical value of an [`EnvironmentValues`] record.
pub struct EnvironmentValuesView {
    pub tenant_id: Option<Seq<char>>,
    pub client_id: Option<Seq<char>>,
    pub client_secret: Option<Seq<char>>,
    pub username: Option<Seq<char>>,
    pub password: Option<Seq<char>>,
}

impl View for EnvironmentValues {
    type V = EnvironmentValuesView;

    open spec fn view(&self) -> EnvironmentValuesView {
        EnvironmentValuesView {
            tenant_id: self.tenant_id.deep_view(),
            client_id: self.client_id.deep_view(),
            client_secret: self.client_secret.deep_view(),
            username: self.username.deep_view(),
            password: self.password.deep_view(),
        }
    }
}

impl EnvironmentValues {
    /// A source in which every variable is absent.
    pub fn empty() -> (r: Self)
        ensures
            r@ == (EnvironmentValuesView {
                tenant_id: None,
                client_id: None,
                client_secret: None,
                username: None,
                password: None,
            }),
    {
        EnvironmentValues {
            tenant_id: None,
            client_id: None,
            client_secret: None,
            username: None,
            password: None,
        }
    }
}

/// The uniform failure of resolution: some mandatory value was not present
/// in either source.
#[derive(Clone, Copy, Debug, PartialEq, Eq, Structural)]
pub enum EnvVarError {
    NotPresent,
}

/// A resolved credential or client application, as held by an
/// [`EnvironmentCredential`].
pub enum Credential {
    ClientSecret(ClientSecretCredential),
    ResourceOwnerPassword(ResourceOwnerPasswordCredential),
    Confidential(ConfidentialClientApplication),
    Public(PublicClientApplication),
}

/// A credential resolved from the environment. The resolver entry points are
/// associated functions of this type; the struct itself simply owns whichever
/// credential value it was built from.
pub struct EnvironmentCredential {
    pub credential: Credential,
}

/// Whether a source holds every mandatory value of the client-secret kind.
pub open spec fn client_secret_vars_present(e: EnvironmentValuesView) -> bool {
    e.client_id is Some && e.client_secret is Some
}

/// Whether a source holds every mandatory value of the
/// resource-owner-password kind.
pub open spec fn username_password_vars_present(e: EnvironmentValuesView) -> bool {
    e.client_id is Some && e.username is Some && e.password is Some
}

/// The client-secret credential built from one source.
pub open spec fn client_secret_credential_of(e: EnvironmentValuesView) -> ClientSecretCredentialView
    recommends
        client_secret_vars_present(e),
{
    ClientSecretCredentialView {
        tenant_id: e.tenant_id,
        client_id: e.client_id->Some_0,
        client_secret: e.client_secret->Some_0,
    }
}

/// The resource-owner-password credential built from one source.
pub open spec fn resource_owner_password_credential_of(
    e: EnvironmentValuesView,
) -> ResourceOwnerPasswordCredentialView
    recommends
        username_password_vars_present(e),
{
    ResourceOwnerPasswordCredentialView {
        tenant_id: e.tenant_id,
        client_id: e.client_id->Some_0,
        username: e.username->Some_0,
        password: e.password->Some_0,
    }
}

/// The decision table for the client-secret kind: the compile-time source
/// strictly first, then the runtime source, else failure.
pub open spec fn resolved_client_secret(
    compile_time: EnvironmentValuesView,
    runtime: EnvironmentValuesView,
) -> Option<ClientSecretCredentialView> {
    if client_secret_vars_present(compile_time) {
        Some(client_secret_credential_of(compile_time))
    } else if client_secret_vars_present(runtime) {
        Some(client_secret_credential_of(runtime))
    } else {
        None
    }
}

/// The decision table for the resource-owner-password kind: the compile-time
/// source strictly first, then the runtime source, else failure.
pub open spec fn resolved_resource_owner_password(
    compile_time: EnvironmentValuesView,
    runtime: EnvironmentValuesView,
) -> Option<ResourceOwnerPasswordCredentialView> {
    if username_password_vars_present(compile_time) {
        Some(resource_owner_password_credential_of(compile_time))
    } else if username_password_vars_present(runtime) {
        Some(resource_owner_password_credential_of(runtime))
    } else {
        None
    }
}

impl EnvironmentCredential {
    /// Resolves a public client application carrying a
    /// resource-owner-password credential, trying the compile-time source
    /// strictly before the runtime source.
    pub fn resource_owner_password_credential(
        compile_time: &EnvironmentValues,
        runtime: &EnvironmentValues,
    ) -> (r: Result<PublicClientApplication, EnvVarError>)
        ensures
            r is Ok <==> resolved_resource_owner_password(compile_time@, runtime@) is Some,
            r matches Ok(app) ==> Some(app@) == resolved_resource_owner_password(
                compile_time@,
                runtime@,
            ),
            r matches Err(e) ==> e == EnvVarError::NotPresent,
    {
        match Self::try_username_password_env(compile_time) {
            Ok(credential) => Ok(credential),
            Err(_) => Self::try_username_password_env(runtime),
        }
    }

    /// Resolves a confidential client application carrying a client-secret
    /// credential, trying the compile-time source strictly before the
    /// runtime source.
    pub fn client_secret_credential(
        compile_time: &EnvironmentValues,
        runtime: &EnvironmentValues,
    ) -> (r: Result<ConfidentialClientApplication, EnvVarError>)
        ensures
            r is Ok <==> resolved_client_secret(compile_time@, runtime@) is Some,
            r matches Ok(app) ==> Some(app@) == resolved_client_secret(compile_time@, runtime@),
            r matches Err(e) ==> e == EnvVarError::NotPresent,
    {
        match Self::try_azure_client_secret_env(compile_time) {
            Ok(credential) => Ok(credential),
            Err(_) => Self::try_azure_client_secret_env(runtime),
        }
    }

    /// One step of the client-secret chain: succeeds exactly when the given
    /// source holds a client id and a client secret.
    fn try_azure_client_secret_env(values: &EnvironmentValues) -> (r: Result<
        ConfidentialClientApplication,
        EnvVarError,
    >)
        ensures
            r is Ok <==> client_secret_vars_present(values@),
            r matches Ok(app) ==> app@ == client_secret_credential_of(values@),
            r matches Err(e) ==> e == EnvVarError::NotPresent,
    {
        let tenant_id: Option<String> = match &values.tenant_id {
            Some(tenant) => Some(tenant.clone()),
            None => None,
        };
        let client_id: String = match &values.client_id {
            Some(id) => id.clone(),
            None => {
                return Err(EnvVarError::NotPresent);
            },
        };
        let client_secret: String = match &values.client_secret {
            Some(secret) => secret.clone(),
            None => {
                return Err(EnvVarError::NotPresent);
            },
        };
        match tenant_id {
            Some(tenant) => Ok(
                ConfidentialClientApplication::new(
                    ClientSecretCredential::new_with_tenant(tenant, client_id, client_secret),
                ),
            ),
            None => Ok(
                ConfidentialClientApplication::new(
                    ClientSecretCredential::new(client_id, client_secret),
                ),
            ),
        }
    }

    /// One step of the resource-owner-password chain: succeeds exactly when
    /// the given source holds a client id, a username and a password.
    fn try_username_password_env(values: &EnvironmentValues) -> (r: Result<
        PublicClientApplication,
        EnvVarError,
    >)
        ensures
            r is Ok <==> username_password_vars_present(values@),
            r matches Ok(app) ==> app@ == resource_owner_password_credential_of(values@),
            r matches Err(e) ==> e == EnvVarError::NotPresent,
    {
        let tenant_id: Option<String> = match &values.tenant_id {
            Some(tenant) => Some(tenant.clone()),
            None => None,
        };
        let client_id: String = match &values.client_id {
            Some(id) => id.clone(),
            None => {
                return Err(EnvVarError::NotPresent);
            },
        };
        let username: String = match &values.username {
            Some(name) => name.clone(),
            None => {
                return Err(EnvVarError::NotPresent);
            },
        };
        let password: String = match &values.password {
            Some(word) => word.clone(),
            None => {
                return Err(EnvVarError::NotPresent);
            },
        };
        match tenant_id {
            Some(tenant) => Ok(
                PublicClientApplication::new(
                    ResourceOwnerPasswordCredential::new_with_tenant(
                        tenant,
                        client_id,
                        username,
                        password,
                    ),
                ),
            ),
            None => Ok(
                PublicClientApplication::new(
                    ResourceOwnerPasswordCredential::new(client_id, username, password),
                ),
            ),
        }
    }
}

/// When every variable is set only at runtime, resolution succeeds from the
/// runtime source for both credential kinds, and the credential is
/// tenant-scoped exactly when the runtime tenant id was set.
pub proof fn lemma_runtime_only_resolution(
    compile_time: EnvironmentValuesView,
    runtime: EnvironmentValuesView,
)
    requires
        compile_time.client_id is None,
        compile_time.client_secret is None,
        compile_time.username is None,
        compile_time.password is None,
        runtime.client_id is Some,
        runtime.client_secret is Some,
        runtime.username is Some,
        runtime.password is Some,
    ensures
        resolved_client_secret(compile_time, runtime) == Some(
            client_secret_credential_of(runtime),
        ),
        resolved_resource_owner_password(compile_time, runtime) == Some(
            resource_owner_password_credential_of(runtime),
        ),
        client_secret_credential_of(runtime).tenant_id == runtime.tenant_id,
        resource_owner_password_credential_of(runtime).tenant_id == runtime.tenant_id,
{
}

/// When a client id or a client secret is missing from both sources,
/// client-secret resolution fails.
pub proof fn lemma_missing_client_secret_vars_fail(
    compile_time: EnvironmentValuesView,
    runtime: EnvironmentValuesView,
)
    requires
        !client_secret_vars_present(compile_time),
        !client_secret_vars_present(runtime),
    ensures
        resolved_client_secret(compile_time, runtime) is None,
{
}

/// When a mandatory resource-owner-password value is missing from both
/// sources, resource-owner-password resolution fails.
pub proof fn lemma_missing_username_password_vars_fail(
    compile_time: EnvironmentValuesView,
    runtime: EnvironmentValuesView,
)
    requires
        !username_password_vars_present(compile_time),
        !username_password_vars_present(runtime),
    ensures
        resolved_resource_owner_password(compile_time, runtime) is None,
{
}

/// When the compile-time source holds every mandatory client-secret value,
/// it determines the outcome whatever the runtime source holds: the
/// compile-time value wins even where both sources are set with different
/// content.
pub proof fn lemma_compile_time_precedence_client_secret(
    compile_time: EnvironmentValuesView,
    runtime: EnvironmentValuesView,
)
    requires
        client_secret_vars_present(compile_time),
    ensures
        resolved_client_secret(compile_time, runtime) == Some(
            client_secret_credential_of(compile_time),
        ),
{
}

/// When the compile-time source holds every mandatory
/// resource-owner-password value, it determines the outcome whatever the
/// runtime source holds.
pub proof fn lemma_compile_time_precedence_resource_owner_password(
    compile_time: EnvironmentValuesView,
    runtime: EnvironmentValuesView,
)
    requires
        username_password_vars_present(compile_time),
    ensures
        resolved_resource_owner_password(compile_time, runtime) == Some(
            resource_owner_password_credential_of(compile_time),
        ),
{
}

/// Resource-owner-password resolution needs the username and the password in
/// addition to the client id: when either is missing from both sources,
/// resolution fails even where every client-secret value is present.
pub proof fn lemma_username_and_password_both_required(
    compile_time: EnvironmentValuesView,
    runtime: EnvironmentValuesView,
)
    requires
        compile_time.username is None || compile_time.password is None,
        runtime.username is None || runtime.password is None,
    ensures
        resolved_resource_owner_password(compile_time, runtime) is None,
{
}

impl From<ClientSecretCredential> for EnvironmentCredential {
    fn from(value: ClientSecretCredential) -> Self {
        EnvironmentCredential { credential: Credential::ClientSecret(value) }
    }
}

impl vstd::std_specs::convert::FromSpecImpl<ClientSecretCredential> for EnvironmentCredential {
    open spec fn obeys_from_spec() -> bool {
        true
    }

    open spec fn from_spec(v: ClientSecretCredential) -> Self {
        EnvironmentCredential { credential: Credential::ClientSecret(v) }
    }
}

impl From<ResourceOwnerPasswordCredential> for EnvironmentCredential {
    fn from(value: ResourceOwnerPasswordCredential) -> Self {
        EnvironmentCredential { credential: Credential::ResourceOwnerPassword(value) }
    }
}

impl vstd::std_specs::convert::FromSpecImpl<ResourceOwnerPasswordCredential> for EnvironmentCredential {
    open spec fn obeys_from_spec() -> bool {
        true
    }

    open spec fn from_spec(v: ResourceOwnerPasswordCredential) -> Self {
        EnvironmentCredential { credential: Credential::ResourceOwnerPassword(v) }
    }
}

impl From<ConfidentialClientApplication> for EnvironmentCredential {
    fn from(value: ConfidentialClientApplication) -> Self {
        EnvironmentCredential { credential: Credential::Confidential(value) }
    }
}

impl vstd::std_specs::convert::FromSpecImpl<ConfidentialClientApplication> for EnvironmentCredential {
    open spec fn obeys_from_spec() -> bool {
        true
    }

    open spec fn from_spec(v: ConfidentialClientApplication) -> Self {
        EnvironmentCredential { credential: Credential::Confidential(v) }
    }
}

impl From<PublicClientApplication> for EnvironmentCredential {
    fn from(value: PublicClientApplication) -> Self {
        EnvironmentCredential { credential: Credential::Public(value) }
    }
}

impl vstd::std_specs::convert::FromSpecImpl<PublicClientApplication> for EnvironmentCredential {
    open spec fn obeys_from_spec() -> bool {
        true
    }

    open spec fn from_spec(v: PublicClientApplication) -> Self {
        EnvironmentCredential { credential: Credential::Public(v) }
    }
}

} // verus!
