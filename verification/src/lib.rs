//! OAuth 2.0 credential acquisition helpers for a Microsoft Graph API client.
//!
//! The crate has three parts:
//! - an environment credential resolver that picks between a client-secret
//!   credential and a resource-owner-password credential, trying compile-time
//!   baked values before runtime environment variables;
//! - a builder for the one-time admin-consent authorization URL of the
//!   client-credentials grant;
//! - the decision logic of a small local redirect listener that parses the
//!   consent callback's query string.
//!
//! Reading the process environment, serving HTTP and opening a browser are
//! left to the surrounding program; every function here works on plain values
//! and carries a contract.

pub mod client_application;
pub mod consent_url;
pub mod credentials;
pub mod environment_credential;
pub mod redirect;

pub use client_application::{ConfidentialClientApplication, PublicClientApplication};
pub use consent_url::{
    AuthorizationUrlError, ClientCredentialsAuthorizationUrl, ClientCredentialsAuthorizationUrlBuilder,
};
pub use credentials::{ClientSecretCredential, ResourceOwnerPasswordCredential};
pub use environment_credential::{Credential, EnvVarError, EnvironmentCredential, EnvironmentValues};
pub use redirect::{ClientCredentialsResponse, RedirectRejection};
