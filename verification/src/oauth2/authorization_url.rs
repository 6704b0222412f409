//! Builders for authorization URLs. Each `build` method's output is pinned
//! down character by character, including the percent-encoded redirect URI
//! and the `%20`-joined scope list.

use vstd::prelude::*;
use crate::encoding::{url_encode, url_encoded};
use crate::oauth2::client::{RedirectUriInvalidError, BASE_URI};
use crate::oauth2::scope::{
    prompt_name_spec, scope_join, scope_join_spec, Prompt, Scope,
};
use crate::text::{dec_of, str_eq, u64_to_dec};

verus! {

/// Type of response to give after authorization approval.
#[derive(Clone, Copy, Debug, Eq, PartialEq, Structural)]
pub enum ResponseType {
    /// An authorization code in the query parameters of the redirect.
    Code,
    /// An access token in the query fragment of the redirect.
    Token,
}

/// Wire name of each response type.
pub open spec fn response_type_name_spec(t: ResponseType) -> Seq<char> {
    match t {
        ResponseType::Code => "code"@,
        ResponseType::Token => "token"@,
    }
}

impl ResponseType {
    /// Wire name of the response type.
    pub fn name(self) -> (r: &'static str)
        ensures
            r@ == response_type_name_spec(self),
    {
        match self {
            ResponseType::Code => "code",
            ResponseType::Token => "token",
        }
    }
}

/// The authorization URL for the given settings: the base URI, the response
/// type and client id, then the optional scope list, the optional state, the
/// percent-encoded redirect URI, and the optional prompt setting.
pub open spec fn auth_url_spec(
    client_id: u64,
    response_type: ResponseType,
    scopes: Option<Seq<Scope>>,
    state_param: Option<Seq<char>>,
    redirect_uri: Seq<char>,
    prompt: Option<Prompt>,
) -> Seq<char> {
    BASE_URI@ + "?response_type="@ + response_type_name_spec(response_type) + "&client_id="@
        + dec_of(client_id as nat) + (match scopes {
        Option::Some(sc) => "&scope="@ + scope_join_spec(sc),
        Option::None => Seq::empty(),
    }) + (match state_param {
        Option::Some(st) => "&state="@ + st,
        Option::None => Seq::empty(),
    }) + "&redirect_uri="@ + url_encoded(redirect_uri) + (match prompt {
        Option::Some(p) => "&prompt="@ + prompt_name_spec(p),
        Option::None => Seq::empty(),
    })
}

/// A builder for a standard authorization URL.
#[derive(Clone, Debug)]
pub struct AuthorizationUrlBuilder {
    /// Application id.
    pub client_id: u64,
    /// How to prompt the user, when overridden.
    pub prompt: Option<Prompt>,
    /// The validated, normalized redirect URI.
    pub redirect_uri: String,
    /// Scopes to request, when set.
    pub scopes: Option<Vec<Scope>>,
    /// Opaque state echoed back on redirect, when set.
    pub state_param: Option<String>,
}

impl AuthorizationUrlBuilder {
    /// The view of the configured scope list.
    pub open spec fn scopes_view(&self) -> Option<Seq<Scope>> {
        match self.scopes {
            Option::Some(sc) => Option::Some(sc@),
            Option::None => Option::None,
        }
    }

    /// The view of the configured state.
    pub open spec fn state_view(&self) -> Option<Seq<char>> {
        match self.state_param {
            Option::Some(st) => Option::Some(st@),
            Option::None => Option::None,
        }
    }

    /// Build the URL with an explicit response type.
    #[verifier::rlimit(60)]
    pub fn build_with_response_type(&self, response_type: ResponseType) -> (r: String)
        ensures
            r@ == auth_url_spec(
                self.client_id,
                response_type,
                self.scopes_view(),
                self.state_view(),
                self.redirect_uri@,
                self.prompt,
            ),
    {
        let mut url = BASE_URI.to_owned();
        url.append("?response_type=");
        url.append(response_type.name());
        url.append("&client_id=");
        let id = u64_to_dec(self.client_id);
        url.append(id.as_str());
        match &self.scopes {
            Some(sc) => {
                url.append("&scope=");
                let joined = scope_join(sc);
                url.append(joined.as_str());
            },
            None => {},
        }
        match &self.state_param {
            Some(st) => {
                url.append("&state=");
                url.append(st.as_str());
            },
            None => {},
        }
        url.append("&redirect_uri=");
        let enc = url_encode(self.redirect_uri.as_str());
        url.append(enc.as_str());
        match &self.prompt {
            Some(p) => {
                url.append("&prompt=");
                url.append(p.name());
            },
            None => {},
        }
        proof {
            assert(url@ =~= auth_url_spec(
                self.client_id,
                response_type,
                self.scopes_view(),
                self.state_view(),
                self.redirect_uri@,
                self.prompt,
            ));
        }
        url
    }

    /// Build the standard code-grant authorization URL.
    pub fn build(&self) -> (r: String)
        ensures
            r@ == auth_url_spec(
                self.client_id,
                ResponseType::Code,
                self.scopes_view(),
                self.state_view(),
                self.redirect_uri@,
                self.prompt,
            ),
    {
        self.build_with_response_type(ResponseType::Code)
    }

    /// Build the implicit-grant authorization URL.
    pub fn implicit_grant(&self) -> (r: String)
        ensures
            r@ == auth_url_spec(
                self.client_id,
                ResponseType::Token,
                self.scopes_view(),
                self.state_view(),
                self.redirect_uri@,
                self.prompt,
            ),
    {
        self.build_with_response_type(ResponseType::Token)
    }

    /// Build a webhook authorization URL: the scope is set to the incoming
    /// webhook scope, then the code-grant URL is built.
    pub fn webhook(&mut self) -> (r: String)
        ensures
            final(self).scopes_view() == Option::Some(seq![Scope::WebhookIncoming]),
            final(self).client_id == old(self).client_id,
            final(self).redirect_uri == old(self).redirect_uri,
            final(self).prompt == old(self).prompt,
            final(self).state_param == old(self).state_param,
            r@ == auth_url_spec(
                old(self).client_id,
                ResponseType::Code,
                Option::Some(seq![Scope::WebhookIncoming]),
                final(self).state_view(),
                old(self).redirect_uri@,
                old(self).prompt,
            ),
    {
        let mut sc: Vec<Scope> = Vec::new();
        sc.push(Scope::WebhookIncoming);
        proof {
            assert(sc@ =~= seq![Scope::WebhookIncoming]);
        }
        self.scopes = Some(sc);
        self.build_with_response_type(ResponseType::Code)
    }

    /// Set how the user is prompted for authorization.
    pub fn prompt(&mut self, prompt: Prompt)
        ensures
            *final(self) == (AuthorizationUrlBuilder { prompt: Some(prompt), ..*old(self) }),
    {
        self.prompt = Some(prompt);
    }

    /// Set the scopes to request.
    pub fn scopes(&mut self, scopes: Vec<Scope>)
        ensures
            *final(self) == (AuthorizationUrlBuilder { scopes: Some(scopes), ..*old(self) }),
    {
        self.scopes = Some(scopes);
    }

    /// Set the opaque state echoed back on redirect.
    pub fn state(&mut self, state_param: String)
        ensures
            *final(self) == (AuthorizationUrlBuilder {
                state_param: Some(state_param),
                ..*old(self)
            }),
    {
        self.state_param = Some(state_param);
    }
}

/// The bot authorization URL for the given settings: the base URI and
/// client id, then the optional guild-selection settings, permissions and
/// redirect URI, and the `%20`-joined scope list.
pub open spec fn bot_auth_url_spec(
    client_id: u64,
    disable_guild_select: Option<bool>,
    guild_id: Option<u64>,
    permissions: Option<u64>,
    redirect_uri: Option<Seq<char>>,
    scopes: Seq<Scope>,
) -> Seq<char> {
    BASE_URI@ + "?client_id="@ + dec_of(client_id as nat) + (match disable_guild_select {
        Option::Some(b) => "&disable_guild_select="@ + (if b {
            "true"@
        } else {
            "false"@
        }),
        Option::None => Seq::empty(),
    }) + (match guild_id {
        Option::Some(g) => "&guild_id="@ + dec_of(g as nat),
        Option::None => Seq::empty(),
    }) + (match permissions {
        Option::Some(p) => "&permissions="@ + dec_of(p as nat),
        Option::None => Seq::empty(),
    }) + (match redirect_uri {
        Option::Some(u) => "&redirect_uri="@ + url_encoded(u),
        Option::None => Seq::empty(),
    }) + "&scope="@ + scope_join_spec(scopes)
}

/// A builder for a bot authorization URL.
#[derive(Clone, Debug)]
pub struct BotAuthorizationUrlBuilder {
    /// Application id.
    pub client_id: u64,
    /// The client's configured redirect URIs, normalized.
    pub configured: Vec<String>,
    /// Whether guild selection is disabled, when set.
    pub disable_guild_select: Option<bool>,
    /// Guild to recommend, when set.
    pub guild_id: Option<u64>,
    /// Permission bits to request, when set.
    pub permissions: Option<u64>,
    /// Redirect URI, when set; validated against the configured list.
    pub redirect_uri: Option<String>,
    /// Scopes to request; the bot scope by default.
    pub scopes: Vec<Scope>,
}

impl BotAuthorizationUrlBuilder {
    /// The view of the configured redirect URI.
    pub open spec fn redirect_view(&self) -> Option<Seq<char>> {
        match self.redirect_uri {
            Option::Some(u) => Option::Some(u@),
            Option::None => Option::None,
        }
    }

    /// Build the bot authorization URL.
    #[verifier::rlimit(60)]
    pub fn build(&self) -> (r: String)
        ensures
            r@ == bot_auth_url_spec(
                self.client_id,
                self.disable_guild_select,
                self.guild_id,
                self.permissions,
                self.redirect_view(),
                self.scopes@,
            ),
    {
        let mut url = BASE_URI.to_owned();
        url.append("?client_id=");
        let id = u64_to_dec(self.client_id);
        url.append(id.as_str());
        match self.disable_guild_select {
            Some(b) => {
                url.append("&disable_guild_select=");
                url.append(
                    if b {
                        "true"
                    } else {
                        "false"
                    },
                );
            },
            None => {},
        }
        match self.guild_id {
            Some(g) => {
                url.append("&guild_id=");
                let gid = u64_to_dec(g);
                url.append(gid.as_str());
            },
            None => {},
        }
        match self.permissions {
            Some(p) => {
                url.append("&permissions=");
                let perms = u64_to_dec(p);
                url.append(perms.as_str());
            },
            None => {},
        }
        match &self.redirect_uri {
            Some(u) => {
                url.append("&redirect_uri=");
                let enc = url_encode(u.as_str());
                url.append(enc.as_str());
            },
            None => {},
        }
        url.append("&scope=");
        let joined = scope_join(&self.scopes);
        url.append(joined.as_str());
        proof {
            assert(url@ =~= bot_auth_url_spec(
                self.client_id,
                self.disable_guild_select,
                self.guild_id,
                self.permissions,
                self.redirect_view(),
                self.scopes@,
            ));
        }
        url
    }

    /// Set whether guild selection is disabled.
    pub fn disable_guild_select(&mut self, disable: bool)
        ensures
            *final(self) == (BotAuthorizationUrlBuilder {
                disable_guild_select: Some(disable),
                ..*old(self)
            }),
    {
        self.disable_guild_select = Some(disable);
    }

    /// Set the guild to recommend authorizing the bot into.
    pub fn guild_id(&mut self, guild_id: u64)
        ensures
            *final(self) == (BotAuthorizationUrlBuilder {
                guild_id: Some(guild_id),
                ..*old(self)
            }),
    {
        self.guild_id = Some(guild_id);
    }

    /// Set the permission bits to request.
    pub fn permissions(&mut self, permissions: u64)
        ensures
            *final(self) == (BotAuthorizationUrlBuilder {
                permissions: Some(permissions),
                ..*old(self)
            }),
    {
        self.permissions = Some(permissions);
    }

    /// Set the redirect URI; it must be among the client's configured
    /// redirect URIs.
    pub fn redirect_uri(&mut self, redirect_uri: &str) -> (r: Result<(), RedirectUriInvalidError>)
        ensures
            match r {
                Ok(()) => {
                    &&& crate::encoding::url_normalized(redirect_uri@) matches Some(u)
                    &&& final(self).redirect_view() == crate::encoding::url_normalized(
                        redirect_uri@,
                    )
                    &&& final(self).client_id == old(self).client_id
                    &&& final(self).scopes == old(self).scopes
                    &&& final(self).guild_id == old(self).guild_id
                    &&& final(self).permissions == old(self).permissions
                    &&& final(self).disable_guild_select == old(self).disable_guild_select
                },
                Err(e) => {
                    &&& *final(self) == *old(self)
                    &&& match e {
                        RedirectUriInvalidError::Invalid { uri, .. } => crate::encoding::url_normalized(
                            redirect_uri@,
                        ) is None && uri@ == redirect_uri@,
                        RedirectUriInvalidError::Unconfigured { uri } => crate::encoding::url_normalized(
                            redirect_uri@,
                        ) == Option::Some(uri@) && forall|i: int|
                            0 <= i < old(self).configured@.len() ==> (
                            #[trigger] old(self).configured@[i])@ != uri@,
                    }
                },
            },
    {
        let url = match crate::encoding::parse_url(redirect_uri) {
            Ok(u) => u,
            Err(source) => {
                return Err(
                    RedirectUriInvalidError::Invalid { source, uri: redirect_uri.to_owned() },
                );
            },
        };
        let n = self.configured.len();
        let mut i: usize = 0;
        while i < n
            invariant
                0 <= i <= n,
                n == self.configured@.len(),
                *self == *old(self),
                crate::encoding::url_normalized(redirect_uri@) == Option::Some(url@),
                forall|j: int| 0 <= j < i ==> (#[trigger] self.configured@[j])@ != url@,
            decreases n - i,
        {
            if str_eq(self.configured[i].as_str(), url.as_str()) {
                self.redirect_uri = Some(url);
                return Ok(());
            }
            i = i + 1;
        }
        Err(RedirectUriInvalidError::Unconfigured { uri: url })
    }

    /// Set the scopes to request instead of the bot scope alone.
    pub fn scopes(&mut self, scopes: Vec<Scope>)
        ensures
            *final(self) == (BotAuthorizationUrlBuilder { scopes, ..*old(self) }),
    {
        self.scopes = scopes;
    }
}

} // verus!
