//! The two client application kinds that a resolved credential is wrapped
//! into: a confidential client application owning a client-secret credential
//! and a public client application owning a resource-owner-password
//! credential. Each owns exactly one credential value and nothing else.

use crate::credentials::{
    ClientSecretCredential, ClientSecretCredentialView, ResourceOwnerPasswordCredential,
    ResourceOwnerPasswordCredentialView,
};
use vstd::prelude::*;

verus! {

/// A confidential client application: wraps one client-secret credential.
pub struct ConfidentialClientApplication {
    pub credential: ClientSecretCredential,
}

impl View for ConfidentialClientApplication {
    type V = ClientSecretCredentialView;

    open spec fn view(&self) -> ClientSecretCredentialView {
        self.credential@
    }
}

impl ConfidentialClientApplication {
    /// Wraps a client-secret credential into a confidential client application.
    pub fn new(credential: ClientSecretCredential) -> (r: Self)
        ensures
            r@ == credential@,
    {
        ConfidentialClientApplication { credential }
    }
}

/// A public client application: wraps one resource-owner-password credential.
pub struct PublicClientApplication {
    pub credential: ResourceOwnerPasswordCredential,
}

impl View for PublicClientApplication {
    type V = ResourceOwnerPasswordCredentialView;

    open spec fn view(&self) -> ResourceOwnerPasswordCredentialView {
        self.credential@
    }
}

impl PublicClientApplication {
    /// Wraps a resource-owner-password credential into a public client application.
    pub fn new(credential: ResourceOwnerPasswordCredential) -> (r: Self)
        ensures
            r@ == credential@,
    {
        PublicClientApplication { credential }
    }
}

} // verus!
