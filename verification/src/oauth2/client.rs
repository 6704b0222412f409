//! The OAuth2 client: application credentials and the configured redirect
//! URIs, validated and normalized at construction.

use vstd::prelude::*;
use crate::encoding::{parse_url, url_normalized};
use crate::oauth2::authorization_url::{AuthorizationUrlBuilder, BotAuthorizationUrlBuilder};
use crate::oauth2::scope::Scope;
use crate::text::str_eq;

verus! {

/// Base URI of the platform's authorization endpoint.
pub const BASE_URI: &'static str = "https://discord.com/api/oauth2/authorize";

/// Creating a client failed.
#[derive(Debug)]
pub enum CreateClientError {
    /// A configured redirect URI is not a valid absolute URL.
    RedirectUriInvalid {
        /// Why parsing refused it.
        source: url::ParseError,
        /// The URI as provided.
        uri: String,
    },
}

/// A redirect URI handed to a builder was refused.
#[derive(Debug)]
pub enum RedirectUriInvalidError {
    /// The URI is not a valid absolute URL.
    Invalid {
        /// Why parsing refused it.
        source: url::ParseError,
        /// The URI as provided.
        uri: String,
    },
    /// The URI is valid but is not among the client's configured redirect
    /// URIs.
    Unconfigured {
        /// The URI, normalized.
        uri: String,
    },
}

/// An OAuth2 client.
#[derive(Clone, Debug)]
pub struct Client {
    /// Application id.
    pub client_id: u64,
    /// Application secret.
    pub client_secret: String,
    /// Configured redirect URIs, normalized.
    pub redirect_uris: Vec<String>,
}

fn clone_strings(v: &Vec<String>) -> (r: Vec<String>)
    ensures
        r@.len() == v@.len(),
        forall|i: int| 0 <= i < v@.len() ==> (#[trigger] r@[i])@ == v@[i]@,
{
    let n = v.len();
    let mut out: Vec<String> = Vec::new();
    let mut i: usize = 0;
    while i < n
        invariant
            0 <= i <= n,
            n == v@.len(),
            out@.len() == i,
            forall|j: int| 0 <= j < i ==> (#[trigger] out@[j])@ == v@[j]@,
        decreases n - i,
    {
        out.push(v[i].clone());
        i = i + 1;
    }
    out
}

impl Client {
    /// Create a client from application credentials and redirect URIs. Each
    /// URI must parse as an absolute URL; it is stored normalized. The first
    /// URI that does not parse is returned in the error.
    pub fn new(client_id: u64, client_secret: String, redirect_uris: &Vec<String>) -> (r: Result<
        Client,
        CreateClientError,
    >)
        ensures
            match r {
                Ok(c) => {
                    &&& c.client_id == client_id
                    &&& c.client_secret@ == client_secret@
                    &&& c.redirect_uris@.len() == redirect_uris@.len()
                    &&& forall|i: int|
                        0 <= i < redirect_uris@.len() ==> url_normalized(
                            (#[trigger] redirect_uris@[i])@,
                        ) == Option::Some(c.redirect_uris@[i]@)
                },
                Err(e) => e matches CreateClientError::RedirectUriInvalid { uri, .. } && exists|
                    i: int,
                |
                    0 <= i < redirect_uris@.len() && url_normalized(
                        (#[trigger] redirect_uris@[i])@,
                    ) is None && uri@ == redirect_uris@[i]@,
            },
    {
        let n = redirect_uris.len();
        let mut uris: Vec<String> = Vec::new();
        let mut i: usize = 0;
        while i < n
            invariant
                0 <= i <= n,
                n == redirect_uris@.len(),
                uris@.len() == i,
                forall|j: int|
                    0 <= j < i ==> url_normalized((#[trigger] redirect_uris@[j])@)
                        == Option::Some(uris@[j]@),
            decreases n - i,
        {
            match parse_url(redirect_uris[i].as_str()) {
                Ok(u) => {
                    uris.push(u);
                },
                Err(source) => {
                    return Err(
                        CreateClientError::RedirectUriInvalid {
                            source,
                            uri: redirect_uris[i].clone(),
                        },
                    );
                },
            }
            i = i + 1;
        }
        Ok(Client { client_id, client_secret, redirect_uris: uris })
    }

    /// The configured application id.
    pub fn client_id(&self) -> (r: u64)
        ensures
            r == self.client_id,
    {
        self.client_id
    }

    /// The configured application secret.
    pub fn client_secret(&self) -> (r: &str)
        ensures
            r@ == self.client_secret@,
    {
        self.client_secret.as_str()
    }

    /// The configured redirect URIs, normalized.
    pub fn redirect_uris(&self) -> (r: &Vec<String>)
        ensures
            r == self.redirect_uris,
    {
        &self.redirect_uris
    }

    /// Validate a redirect URI: it must parse as an absolute URL and its
    /// normalized form must be among the configured redirect URIs.
    pub fn redirect_uri(&self, redirect_uri: &str) -> (r: Result<String, RedirectUriInvalidError>)
        ensures
            match r {
                Ok(u) => url_normalized(redirect_uri@) == Option::Some(u@) && exists|i: int|
                    0 <= i < self.redirect_uris@.len() && (#[trigger] self.redirect_uris@[i])@
                        == u@,
                Err(e) => match e {
                    RedirectUriInvalidError::Invalid { uri, .. } => url_normalized(redirect_uri@)
                        is None && uri@ == redirect_uri@,
                    RedirectUriInvalidError::Unconfigured { uri } => url_normalized(redirect_uri@)
                        == Option::Some(uri@) && forall|i: int|
                        0 <= i < self.redirect_uris@.len() ==> (
                        #[trigger] self.redirect_uris@[i])@ != uri@,
                },
            },
    {
        let url = match parse_url(redirect_uri) {
            Ok(u) => u,
            Err(source) => {
                return Err(
                    RedirectUriInvalidError::Invalid { source, uri: redirect_uri.to_owned() },
                );
            },
        };
        let n = self.redirect_uris.len();
        let mut i: usize = 0;
        while i < n
            invariant
                0 <= i <= n,
                n == self.redirect_uris@.len(),
                url_normalized(redirect_uri@) == Option::Some(url@),
                forall|j: int| 0 <= j < i ==> (#[trigger] self.redirect_uris@[j])@ != url@,
            decreases n - i,
        {
            if str_eq(self.redirect_uris[i].as_str(), url.as_str()) {
                let r = self.redirect_uris[i].clone();
                proof {
                    assert((self.redirect_uris@[i as int])@ == r@);
                }
                return Ok(r);
            }
            i = i + 1;
        }
        Err(RedirectUriInvalidError::Unconfigured { uri: url })
    }

    /// Start building a URL for bot authorization.
    pub fn bot_authorization_url(&self) -> (r: BotAuthorizationUrlBuilder)
        ensures
            r.client_id == self.client_id,
            r.configured@.len() == self.redirect_uris@.len(),
            forall|i: int|
                0 <= i < self.redirect_uris@.len() ==> (#[trigger] r.configured@[i])@
                    == self.redirect_uris@[i]@,
            r.disable_guild_select is None,
            r.guild_id is None,
            r.permissions is None,
            r.redirect_uri is None,
            r.scopes@ =~= seq![Scope::Bot],
    {
        let mut scopes: Vec<Scope> = Vec::new();
        scopes.push(Scope::Bot);
        BotAuthorizationUrlBuilder {
            client_id: self.client_id,
            configured: clone_strings(&self.redirect_uris),
            disable_guild_select: None,
            guild_id: None,
            permissions: None,
            redirect_uri: None,
            scopes,
        }
    }

    /// Start building an authorization URL for the given redirect URI, which
    /// must be among the configured ones.
    pub fn authorization_url(&self, redirect_uri: &str) -> (r: Result<
        AuthorizationUrlBuilder,
        RedirectUriInvalidError,
    >)
        ensures
            match r {
                Ok(b) => {
                    &&& url_normalized(redirect_uri@) == Option::Some(b.redirect_uri@)
                    &&& b.client_id == self.client_id
                    &&& b.prompt is None
                    &&& b.scopes is None
                    &&& b.state_param is None
                },
                Err(e) => match e {
                    RedirectUriInvalidError::Invalid { uri, .. } => url_normalized(redirect_uri@)
                        is None && uri@ == redirect_uri@,
                    RedirectUriInvalidError::Unconfigured { uri } => url_normalized(redirect_uri@)
                        == Option::Some(uri@) && forall|i: int|
                        0 <= i < self.redirect_uris@.len() ==> (
                        #[trigger] self.redirect_uris@[i])@ != uri@,
                },
            },
    {
        let validated = match self.redirect_uri(redirect_uri) {
            Ok(u) => u,
            Err(e) => {
                return Err(e);
            },
        };
        Ok(
            AuthorizationUrlBuilder {
                client_id: self.client_id,
                prompt: None,
                redirect_uri: validated,
                scopes: None,
                state_param: None,
            },
        )
    }
}

} // verus!
