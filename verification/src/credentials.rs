//! The two credential kinds that the environment credential resolver can
//! construct: a client-secret credential for the confidential-client flow and
//! a resource-owner-password credential for the public-client flow. Each may
//! carry an optional tenant id; when none is given the credential is scoped to
//! the default ("common") tenant.

use vstd::prelude::*;

verus! {

/// Mathematical value of a [`ClientSecretCredential`].
pub struct ClientSecretCredentialView {
    pub tenant_id: Option<Seq<char>>,
    pub client_id: Seq<char>,
    pub client_secret: Seq<char>,
}

/// A credential for the client-credentials grant: a client id and a client
/// secret, optionally scoped to a tenant.
pub struct ClientSecretCredential {
    pub tenant_id: Option<String>,
    pub client_id: String,
    pub client_secret: String,
}

impl View for ClientSecretCredential {
    type V = ClientSecretCredentialView;

    open spec fn view(&self) -> ClientSecretCredentialView {
        ClientSecretCredentialView {
            tenant_id: self.tenant_id.deep_view(),
            client_id: self.client_id@,
            client_secret: self.client_secret@,
        }
    }
}

impl ClientSecretCredential {
    /// A common-tenant client-secret credential.
    pub fn new(client_id: String, client_secret: String) -> (r: Self)
        ensures
            r@ == (ClientSecretCredentialView {
                tenant_id: None,
                client_id: client_id@,
                client_secret: client_secret@,
            }),
    {
        ClientSecretCredential { tenant_id: None, client_id, client_secret }
    }

    /// A tenant-scoped client-secret credential.
    pub fn new_with_tenant(tenant_id: String, client_id: String, client_secret: String) -> (r: Self)
        ensures
            r@ == (ClientSecretCredentialView {
                tenant_id: Some(tenant_id@),
                client_id: client_id@,
                client_secret: client_secret@,
            }),
    {
        ClientSecretCredential { tenant_id: Some(tenant_id), client_id, client_secret }
    }
}

/// Mathematical value of a [`ResourceOwnerPasswordCredential`].
pub struct ResourceOwnerPasswordCredentialView {
    pub tenant_id: Option<Seq<char>>,
    pub client_id: Seq<char>,
    pub username: Seq<char>,
    pub password: Seq<char>,
}

/// A credential for the resource-owner-password grant: a client id together
/// with a username and password, optionally scoped to a tenant.
pub struct ResourceOwnerPasswordCredential {
    pub tenant_id: Option<String>,
    pub client_id: String,
    pub username: String,
    pub password: String,
}

impl View for ResourceOwnerPasswordCredential {
    type V = ResourceOwnerPasswordCredentialView;

    open spec fn view(&self) -> ResourceOwnerPasswordCredentialView {
        ResourceOwnerPasswordCredentialView {
            tenant_id: self.tenant_id.deep_view(),
            client_id: self.client_id@,
            username: self.username@,
            password: self.password@,
        }
    }
}

impl ResourceOwnerPasswordCredential {
    /// A common-tenant resource-owner-password credential.
    pub fn new(client_id: String, username: String, password: String) -> (r: Self)
        ensures
            r@ == (ResourceOwnerPasswordCredentialView {
                tenant_id: None,
                client_id: client_id@,
                username: username@,
                password: password@,
            }),
    {
        ResourceOwnerPasswordCredential { tenant_id: None, client_id, username, password }
    }

    /// A tenant-scoped resource-owner-password credential.
    pub fn new_with_tenant(
        tenant_id: String,
        client_id: String,
        username: String,
        password: String,
    ) -> (r: Self)
        ensures
            r@ == (ResourceOwnerPasswordCredentialView {
                tenant_id: Some(tenant_id@),
                client_id: client_id@,
                username: username@,
                password: password@,
            }),
    {
        ResourceOwnerPasswordCredential { tenant_id: Some(tenant_id), client_id, username, password }
    }
}

} // verus!
