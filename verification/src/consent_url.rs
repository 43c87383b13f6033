//! The admin-consent authorization URL of the client-credentials grant.
//!
//! Given a client id and a redirect URI, [`ClientCredentialsAuthorizationUrl`]
//! assembles the ready-to-visit URL for the one-time administrator consent
//! step. A builder offers optional overrides: an explicit state parameter
//! (opaque here, used by callers for CSRF correlation), an explicit tenant,
//! and an explicit authority. Assembly fails when the client id is empty or
//! when the redirect URI or the authority is not a plain absolute URI: a
//! non-empty run of ASCII letters (the scheme), then `://`, then at least one
//! further character.

use vstd::prelude::*;
use vstd::string::StrSliceExecFns;
use vstd::string::StringExecFns;

verus! {

/// Whether `c` may stand in a URI scheme: an ASCII letter.
pub open spec fn is_uri_scheme_char(c: char) -> bool {
    ('a' as u32 <= c as u32 && c as u32 <= 'z' as u32) || ('A' as u32 <= c as u32 && c as u32
        <= 'Z' as u32)
}

/// Whether `s` reads as `scheme://rest` with the scheme ending just before
/// position `k` and a non-empty `rest`.
pub open spec fn scheme_ok_at(s: Seq<char>, k: int) -> bool {
    &&& 1 <= k
    &&& k + 3 < s.len()
    &&& (forall|j: int| 0 <= j < k ==> is_uri_scheme_char(#[trigger] s[j]))
    &&& s[k] == ':'
    &&& s[k + 1] == '/'
    &&& s[k + 2] == '/'
}

/// A valid absolute URI for the purposes of URL assembly: a non-empty ASCII
/// letter scheme, `://`, and a non-empty remainder.
pub open spec fn is_valid_uri(s: Seq<char>) -> bool {
    exists|k: int| scheme_ok_at(s, k)
}

fn is_scheme_char(c: char) -> (r: bool)
    ensures
        r == is_uri_scheme_char(c),
{
    let u = c as u32;
    ('a' as u32 <= u && u <= 'z' as u32) || ('A' as u32 <= u && u <= 'Z' as u32)
}

/// Decides [`is_valid_uri`] for a string slice.
pub fn validate_uri(s: &str) -> (r: bool)
    ensures
        r == is_valid_uri(s@),
{
    let n: usize = s.unicode_len();
    let mut i: usize = 0;
    while i < n && is_scheme_char(s.get_char(i))
        invariant
            n == s@.len(),
            i <= n,
            forall|j: int| 0 <= j < i ==> is_uri_scheme_char(#[trigger] s@[j]),
        decreases n - i,
    {
        i += 1;
    }
    if 1 <= i && n - i > 3 && s.get_char(i) == ':' && s.get_char(i + 1) == '/' && s.get_char(i + 2)
        == '/' {
        proof {
            assert(scheme_ok_at(s@, i as int));
        }
        true
    } else {
        proof {
            assert forall|k: int| !scheme_ok_at(s@, k) by {
                if scheme_ok_at(s@, k) {
                    assert(!is_uri_scheme_char(':'));
                    if k < i {
                        assert(is_uri_scheme_char(s@[k]));
                    } else if k > i {
                        assert(i < n);
                        assert(is_uri_scheme_char(s@[i as int]));
                    }
                }
            }
        }
        false
    }
}

/// The default authority of the consent endpoint.
pub open spec fn default_authority() -> Seq<char> {
    "https://login.microsoftonline.com"@
}

/// The default authority is itself a valid URI.
pub proof fn lemma_default_authority_valid()
    ensures
        is_valid_uri(default_authority()),
{
    reveal_strlit("https://login.microsoftonline.com");
    assert(scheme_ok_at(default_authority(), 5));
}

/// Why URL assembly was refused.
#[derive(Clone, Copy, Debug, PartialEq, Eq, Structural)]
pub enum AuthorizationUrlError {
    /// The client id is empty.
    InvalidClientId,
    /// The redirect URI is not a valid absolute URI.
    InvalidRedirectUri,
    /// The authority is not a valid absolute URI.
    InvalidAuthority,
}

impl AuthorizationUrlError {
    /// The error in words, for callers that report it.
    pub fn message(&self) -> (r: &'static str)
        ensures
            self is InvalidClientId ==> r@ == "the client id must not be empty"@,
            self is InvalidRedirectUri ==> r@ == "the redirect URI is not a valid absolute URI"@,
            self is InvalidAuthority ==> r@ == "the authority is not a valid absolute URI"@,
    {
        match self {
            AuthorizationUrlError::InvalidClientId => "the client id must not be empty",
            AuthorizationUrlError::InvalidRedirectUri => "the redirect URI is not a valid absolute URI",
            AuthorizationUrlError::InvalidAuthority => "the authority is not a valid absolute URI",
        }
    }
}

/// Mathematical value of a [`ClientCredentialsAuthorizationUrl`] or of its
/// builder.
pub struct AuthorizationUrlView {
    pub client_id: Seq<char>,
    pub redirect_uri: Seq<char>,
    pub state: Option<Seq<char>>,
    pub tenant_id: Option<Seq<char>>,
    pub authority: Seq<char>,
}

/// Whether URL assembly succeeds on these fields.
pub open spec fn authorization_url_well_formed(v: AuthorizationUrlView) -> bool {
    &&& v.client_id.len() > 0
    &&& is_valid_uri(v.redirect_uri)
    &&& is_valid_uri(v.authority)
}

/// The error URL assembly reports on these fields, when it fails.
pub open spec fn authorization_url_error_of(v: AuthorizationUrlView) -> AuthorizationUrlError {
    if v.client_id.len() == 0 {
        AuthorizationUrlError::InvalidClientId
    } else if !is_valid_uri(v.redirect_uri) {
        AuthorizationUrlError::InvalidRedirectUri
    } else {
        AuthorizationUrlError::InvalidAuthority
    }
}

/// The path segment naming the tenant: the tenant id when one was given,
/// else the default `common` tenant.
pub open spec fn tenant_segment(tenant_id: Option<Seq<char>>) -> Seq<char> {
    match tenant_id {
        Some(tenant) => tenant,
        None => "common"@,
    }
}

/// The trailing state parameter, empty when no state was given.
pub open spec fn state_suffix(state: Option<Seq<char>>) -> Seq<char> {
    match state {
        Some(st) => "&state="@ + st,
        None => Seq::<char>::empty(),
    }
}

/// The query of the consent URL: the client id and the redirect URI,
/// verbatim, and the optional state.
pub open spec fn consent_query_of(v: AuthorizationUrlView) -> Seq<char> {
    "client_id="@ + v.client_id + "&redirect_uri="@ + v.redirect_uri + state_suffix(v.state)
}

/// The whole consent URL assembled from these fields.
pub open spec fn consent_url_of(v: AuthorizationUrlView) -> Seq<char> {
    v.authority + "/"@ + tenant_segment(v.tenant_id) + "/adminconsent?"@ + consent_query_of(v)
}

/// The admin-consent authorization URL of the client-credentials grant.
pub struct ClientCredentialsAuthorizationUrl {
    pub client_id: String,
    pub redirect_uri: String,
    pub state: Option<String>,
    pub tenant_id: Option<String>,
    pub authority: String,
}

impl View for ClientCredentialsAuthorizationUrl {
    type V = AuthorizationUrlView;

    open spec fn view(&self) -> AuthorizationUrlView {
        AuthorizationUrlView {
            client_id: self.client_id@,
            redirect_uri: self.redirect_uri@,
            state: self.state.deep_view(),
            tenant_id: self.tenant_id.deep_view(),
            authority: self.authority@,
        }
    }
}

impl ClientCredentialsAuthorizationUrl {
    /// Builds the credential for the default authority and common tenant,
    /// rejecting an empty client id or a malformed redirect URI.
    pub fn new(client_id: String, redirect_uri: String) -> (r: Result<
        Self,
        AuthorizationUrlError,
    >)
        ensures
            r is Ok <==> client_id@.len() > 0 && is_valid_uri(redirect_uri@),
            r matches Ok(c) ==> c@ == (AuthorizationUrlView {
                client_id: client_id@,
                redirect_uri: redirect_uri@,
                state: None,
                tenant_id: None,
                authority: default_authority(),
            }),
            r matches Ok(c) ==> authorization_url_well_formed(c@),
            r matches Err(e) ==> e == (if client_id@.len() == 0 {
                AuthorizationUrlError::InvalidClientId
            } else {
                AuthorizationUrlError::InvalidRedirectUri
            }),
    {
        if client_id.as_str().is_empty() {
            return Err(AuthorizationUrlError::InvalidClientId);
        }
        if !validate_uri(redirect_uri.as_str()) {
            return Err(AuthorizationUrlError::InvalidRedirectUri);
        }
        proof {
            lemma_default_authority_valid();
        }
        Ok(
            ClientCredentialsAuthorizationUrl {
                client_id,
                redirect_uri,
                state: None,
                tenant_id: None,
                authority: String::from_str("https://login.microsoftonline.com"),
            },
        )
    }

    /// Starts a builder holding this client id, the default authority and
    /// no redirect URI yet.
    pub fn builder(client_id: String) -> (r: ClientCredentialsAuthorizationUrlBuilder)
        ensures
            r@ == (AuthorizationUrlView {
                client_id: client_id@,
                redirect_uri: ""@,
                state: None,
                tenant_id: None,
                authority: default_authority(),
            }),
    {
        proof {
            reveal_strlit("");
            assert(""@ =~= Seq::<char>::empty());
        }
        ClientCredentialsAuthorizationUrlBuilder {
            client_id,
            redirect_uri: String::new(),
            state: None,
            tenant_id: None,
            authority: String::from_str("https://login.microsoftonline.com"),
        }
    }

    /// Assembles the consent URL, or reports which field was rejected.
    pub fn url(&self) -> (r: Result<String, AuthorizationUrlError>)
        ensures
            r is Ok <==> authorization_url_well_formed(self@),
            r matches Ok(u) ==> u@ == consent_url_of(self@),
            r matches Err(e) ==> e == authorization_url_error_of(self@),
    {
        if self.client_id.as_str().is_empty() {
            return Err(AuthorizationUrlError::InvalidClientId);
        }
        if !validate_uri(self.redirect_uri.as_str()) {
            return Err(AuthorizationUrlError::InvalidRedirectUri);
        }
        if !validate_uri(self.authority.as_str()) {
            return Err(AuthorizationUrlError::InvalidAuthority);
        }
        let mut url = String::new();
        url.append(self.authority.as_str());
        url.append("/");
        match &self.tenant_id {
            Some(tenant) => url.append(tenant.as_str()),
            None => url.append("common"),
        }
        url.append("/adminconsent?");
        url.append("client_id=");
        url.append(self.client_id.as_str());
        url.append("&redirect_uri=");
        url.append(self.redirect_uri.as_str());
        match &self.state {
            Some(st) => {
                url.append("&state=");
                url.append(st.as_str());
            },
            None => {},
        }
        proof {
            assert(url@ =~= consent_url_of(self@));
        }
        Ok(url)
    }
}

/// Builder for a [`ClientCredentialsAuthorizationUrl`] with optional
/// overrides for the state, the tenant and the authority.
pub struct ClientCredentialsAuthorizationUrlBuilder {
    pub client_id: String,
    pub redirect_uri: String,
    pub state: Option<String>,
    pub tenant_id: Option<String>,
    pub authority: String,
}

impl View for ClientCredentialsAuthorizationUrlBuilder {
    type V = AuthorizationUrlView;

    open spec fn view(&self) -> AuthorizationUrlView {
        AuthorizationUrlView {
            client_id: self.client_id@,
            redirect_uri: self.redirect_uri@,
            state: self.state.deep_view(),
            tenant_id: self.tenant_id.deep_view(),
            authority: self.authority@,
        }
    }
}

impl ClientCredentialsAuthorizationUrlBuilder {
    /// Sets the redirect URI, rejecting a malformed one.
    pub fn with_redirect_uri(self, redirect_uri: String) -> (r: Result<
        Self,
        AuthorizationUrlError,
    >)
        ensures
            r is Ok <==> is_valid_uri(redirect_uri@),
            r matches Ok(b) ==> b@ == (AuthorizationUrlView { redirect_uri: redirect_uri@, ..self@ }),
            r matches Err(e) ==> e == AuthorizationUrlError::InvalidRedirectUri,
    {
        if !validate_uri(redirect_uri.as_str()) {
            return Err(AuthorizationUrlError::InvalidRedirectUri);
        }
        Ok(ClientCredentialsAuthorizationUrlBuilder { redirect_uri, ..self })
    }

    /// Sets the opaque state parameter.
    pub fn with_state(self, state: String) -> (r: Self)
        ensures
            r@ == (AuthorizationUrlView { state: Some(state@), ..self@ }),
    {
        ClientCredentialsAuthorizationUrlBuilder { state: Some(state), ..self }
    }

    /// Scopes the URL to an explicit tenant.
    pub fn with_tenant(self, tenant_id: String) -> (r: Self)
        ensures
            r@ == (AuthorizationUrlView { tenant_id: Some(tenant_id@), ..self@ }),
    {
        ClientCredentialsAuthorizationUrlBuilder { tenant_id: Some(tenant_id), ..self }
    }

    /// Replaces the default authority.
    pub fn with_authority(self, authority: String) -> (r: Self)
        ensures
            r@ == (AuthorizationUrlView { authority: authority@, ..self@ }),
    {
        ClientCredentialsAuthorizationUrlBuilder { authority, ..self }
    }

    /// Finishes the builder. The fields are checked by
    /// [`ClientCredentialsAuthorizationUrl::url`], not here.
    pub fn build(self) -> (r: ClientCredentialsAuthorizationUrl)
        ensures
            r@ == self@,
    {
        ClientCredentialsAuthorizationUrl {
            client_id: self.client_id,
            redirect_uri: self.redirect_uri,
            state: self.state,
            tenant_id: self.tenant_id,
            authority: self.authority,
        }
    }
}

/// The assembled consent URL carries the client id and the redirect URI
/// verbatim, each as a contiguous run of its query.
pub proof fn lemma_consent_url_carries_parameters(v: AuthorizationUrlView)
    ensures
        exists|i: int, j: int|
            0 <= i <= j <= consent_url_of(v).len() && j - i == v.client_id.len()
                && #[trigger] consent_url_of(v).subrange(i, j) == v.client_id,
        exists|i: int, j: int|
            0 <= i <= j <= consent_url_of(v).len() && j - i == v.redirect_uri.len()
                && #[trigger] consent_url_of(v).subrange(i, j) == v.redirect_uri,
{
    let u = consent_url_of(v);
    let c = v.client_id.len() as int;
    let d = v.redirect_uri.len() as int;
    let i0 = (v.authority.len() + "/"@.len() + tenant_segment(v.tenant_id).len()
        + "/adminconsent?"@.len() + "client_id="@.len()) as int;
    let i1 = i0 + c + "&redirect_uri="@.len();
    assert(u.subrange(i0, i0 + c) =~= v.client_id);
    assert(u.subrange(i1, i1 + d) =~= v.redirect_uri);
}

} // verus!
