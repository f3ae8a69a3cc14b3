//! OAuth providers and the requests made to them.

use vstd::prelude::*;
use vstd::string::*;
use crate::auth::errors::{AuthError, AuthResult};
use crate::ids::{random_uuid, uuid_text, uuid_to_string};
use crate::auth::user::{first_with_email, first_with_id, User, UserRepository};
use crate::text::{owned, push_signed_decimal, same_text, signed_decimal, url_encode, url_encoded};

use crate::seqs::{first_where, lemma_first_where_is, lemma_first_where_none};

verus! {

/// Supported OAuth providers.
#[derive(Debug, Clone, Copy, PartialEq, Eq, Hash, Structural)]
pub enum OAuthProvider {
    Google,
    GitHub,
    Discord,
    Custom,
}

impl OAuthProvider {
    /// The provider's name in lower case.
    pub open spec fn name_text(self) -> Seq<char> {
        match self {
            OAuthProvider::Google => "google"@,
            OAuthProvider::GitHub => "github"@,
            OAuthProvider::Discord => "discord"@,
            OAuthProvider::Custom => "custom"@,
        }
    }

    /// The provider's default authorization endpoint.
    pub open spec fn default_auth_url(self) -> Seq<char> {
        match self {
            OAuthProvider::Google => "https://accounts.google.com/o/oauth2/v2/auth"@,
            OAuthProvider::GitHub => "https://github.com/login/oauth/authorize"@,
            OAuthProvider::Discord => "https://discord.com/api/oauth2/authorize"@,
            OAuthProvider::Custom => ""@,
        }
    }

    /// The provider's default token endpoint.
    pub open spec fn default_token_url(self) -> Seq<char> {
        match self {
            OAuthProvider::Google => "https://oauth2.googleapis.com/token"@,
            OAuthProvider::GitHub => "https://github.com/login/oauth/access_token"@,
            OAuthProvider::Discord => "https://discord.com/api/oauth2/token"@,
            OAuthProvider::Custom => ""@,
        }
    }

    /// The provider's default user info endpoint.
    pub open spec fn default_userinfo_url(self) -> Seq<char> {
        match self {
            OAuthProvider::Google => "https://www.googleapis.com/oauth2/v3/userinfo"@,
            OAuthProvider::GitHub => "https://api.github.com/user"@,
            OAuthProvider::Discord => "https://discord.com/api/users/@me"@,
            OAuthProvider::Custom => ""@,
        }
    }

    /// The provider's name in lower case.
    pub fn as_str(&self) -> (r: &'static str)
        ensures
            r@ == self.name_text(),
    {
        match self {
            OAuthProvider::Google => "google",
            OAuthProvider::GitHub => "github",
            OAuthProvider::Discord => "discord",
            OAuthProvider::Custom => "custom",
        }
    }

    /// The provider's name as an owned string.
    pub fn to_string(&self) -> (r: String)
        ensures
            r@ == self.name_text(),
    {
        owned(self.as_str())
    }
}

/// OAuth provider configuration.
#[derive(Debug, Clone, PartialEq, Eq)]
pub struct OAuthProviderConfig {
    pub provider: OAuthProvider,
    pub client_id: String,
    pub client_secret: String,
    pub redirect_uri: String,
    pub scopes: Vec<String>,
    /// Authorization endpoint, where it is not the provider's default.
    pub auth_url: Option<String>,
    /// Token endpoint, where it is not the provider's default.
    pub token_url: Option<String>,
    /// User info endpoint, where it is not the provider's default.
    pub userinfo_url: Option<String>,
}

/// The texts of a list of scopes.
pub open spec fn scope_texts(scopes: Seq<String>) -> Seq<Seq<char>> {
    scopes.map_values(|s: String| s@)
}

impl OAuthProviderConfig {
    /// Whether the configuration is the plain one of `provider` with the
    /// client data and the scopes given, and the provider's default
    /// endpoints.
    pub open spec fn is_plain(
        &self,
        provider: OAuthProvider,
        client_id: Seq<char>,
        client_secret: Seq<char>,
        redirect_uri: Seq<char>,
        scopes: Seq<Seq<char>>,
    ) -> bool {
        &&& self.provider == provider
        &&& self.client_id@ == client_id
        &&& self.client_secret@ == client_secret
        &&& self.redirect_uri@ == redirect_uri
        &&& scope_texts(self.scopes@) == scopes
        &&& self.auth_url is None
        &&& self.token_url is None
        &&& self.userinfo_url is None
    }

    /// Google with the scopes `openid`, `email` and `profile`.
    pub fn google(client_id: String, client_secret: String, redirect_uri: String) -> (r: Self)
        ensures
            r.is_plain(
                OAuthProvider::Google,
                client_id@,
                client_secret@,
                redirect_uri@,
                seq!["openid"@, "email"@, "profile"@],
            ),
    {
        let mut scopes: Vec<String> = Vec::new();
        scopes.push(owned("openid"));
        scopes.push(owned("email"));
        scopes.push(owned("profile"));
        assert(scope_texts(scopes@) =~= seq!["openid"@, "email"@, "profile"@]);
        OAuthProviderConfig {
            provider: OAuthProvider::Google,
            client_id,
            client_secret,
            redirect_uri,
            scopes,
            auth_url: None,
            token_url: None,
            userinfo_url: None,
        }
    }

    /// GitHub with the scopes `user:email` and `read:user`.
    pub fn github(client_id: String, client_secret: String, redirect_uri: String) -> (r: Self)
        ensures
            r.is_plain(
                OAuthProvider::GitHub,
                client_id@,
                client_secret@,
                redirect_uri@,
                seq!["user:email"@, "read:user"@],
            ),
    {
        let mut scopes: Vec<String> = Vec::new();
        scopes.push(owned("user:email"));
        scopes.push(owned("read:user"));
        assert(scope_texts(scopes@) =~= seq!["user:email"@, "read:user"@]);
        OAuthProviderConfig {
            provider: OAuthProvider::GitHub,
            client_id,
            client_secret,
            redirect_uri,
            scopes,
            auth_url: None,
            token_url: None,
            userinfo_url: None,
        }
    }

    /// Discord with the scopes `identify` and `email`.
    pub fn discord(client_id: String, client_secret: String, redirect_uri: String) -> (r: Self)
        ensures
            r.is_plain(
                OAuthProvider::Discord,
                client_id@,
                client_secret@,
                redirect_uri@,
                seq!["identify"@, "email"@],
            ),
    {
        let mut scopes: Vec<String> = Vec::new();
        scopes.push(owned("identify"));
        scopes.push(owned("email"));
        assert(scope_texts(scopes@) =~= seq!["identify"@, "email"@]);
        OAuthProviderConfig {
            provider: OAuthProvider::Discord,
            client_id,
            client_secret,
            redirect_uri,
            scopes,
            auth_url: None,
            token_url: None,
            userinfo_url: None,
        }
    }

    /// The authorization endpoint: the configured one, else the provider's
    /// default.
    pub fn auth_url(&self) -> (r: &str)
        ensures
            r@ == match self.auth_url {
                Some(url) => url@,
                None => self.provider.default_auth_url(),
            },
    {
        match &self.auth_url {
            Some(url) => url.as_str(),
            None => match self.provider {
                OAuthProvider::Google => "https://accounts.google.com/o/oauth2/v2/auth",
                OAuthProvider::GitHub => "https://github.com/login/oauth/authorize",
                OAuthProvider::Discord => "https://discord.com/api/oauth2/authorize",
                OAuthProvider::Custom => "",
            },
        }
    }

    /// The token endpoint: the configured one, else the provider's default.
    pub fn token_url(&self) -> (r: &str)
        ensures
            r@ == match self.token_url {
                Some(url) => url@,
                None => self.provider.default_token_url(),
            },
    {
        match &self.token_url {
            Some(url) => url.as_str(),
            None => match self.provider {
                OAuthProvider::Google => "https://oauth2.googleapis.com/token",
                OAuthProvider::GitHub => "https://github.com/login/oauth/access_token",
                OAuthProvider::Discord => "https://discord.com/api/oauth2/token",
                OAuthProvider::Custom => "",
            },
        }
    }

    /// The user info endpoint: the configured one, else the provider's
    /// default.
    pub fn userinfo_url(&self) -> (r: &str)
        ensures
            r@ == match self.userinfo_url {
                Some(url) => url@,
                None => self.provider.default_userinfo_url(),
            },
    {
        match &self.userinfo_url {
            Some(url) => url.as_str(),
            None => match self.provider {
                OAuthProvider::Google => "https://www.googleapis.com/oauth2/v3/userinfo",
                OAuthProvider::GitHub => "https://api.github.com/user",
                OAuthProvider::Discord => "https://discord.com/api/users/@me",
                OAuthProvider::Custom => "",
            },
        }
    }
}

/// The scopes joined by single spaces.
pub open spec fn joined_scopes(scopes: Seq<String>) -> Seq<char>
    decreases scopes.len(),
{
    if scopes.len() == 0 {
        Seq::<char>::empty()
    } else if scopes.len() == 1 {
        scopes[0]@
    } else {
        joined_scopes(scopes.drop_last()) + " "@ + scopes.last()@
    }
}

/// Joins scopes by single spaces.
pub fn join_scopes(scopes: &Vec<String>) -> (r: String)
    ensures
        r@ == joined_scopes(scopes@),
{
    let mut out = String::new();
    let mut i: usize = 0;
    assert(scopes@.take(0) =~= Seq::<String>::empty());
    while i < scopes.len()
        invariant
            i <= scopes@.len(),
            out@ == joined_scopes(scopes@.take(i as int)),
        decreases scopes@.len() - i,
    {
        let ghost before = out@;
        if i > 0 {
            out.append(" ");
        }
        out.append(scopes[i].as_str());
        proof {
            let next = scopes@.take(i + 1);
            assert(next.drop_last() =~= scopes@.take(i as int));
            assert(next.last() == scopes@[i as int]);
            if i == 0 {
                assert(next[0] == scopes@[0]);
                assert(out@ =~= scopes@[0]@);
            }
        }
        i = i + 1;
    }
    assert(scopes@.take(scopes@.len() as int) =~= scopes@);
    out
}

/// The URL that sends a user to the provider: the authorization endpoint
/// with the client, the redirect address, the response type `code`, the
/// state and the scopes as percent-encoded parameters.
pub open spec fn authorization_url_text(
    auth_url: Seq<char>,
    client_id: Seq<char>,
    redirect_uri: Seq<char>,
    state: Seq<char>,
    scopes: Seq<char>,
) -> Seq<char> {
    auth_url + "?client_id="@ + url_encoded(client_id) + "&redirect_uri="@ + url_encoded(
        redirect_uri,
    ) + "&response_type=code&state="@ + url_encoded(state) + "&scope="@ + url_encoded(scopes)
}

/// The URL that sends a user to the provider of a configuration with the
/// state given.
pub open spec fn url_for(config: OAuthProviderConfig, state: Seq<char>) -> Seq<char> {
    authorization_url_text(
        match config.auth_url {
            Some(url) => url@,
            None => config.provider.default_auth_url(),
        },
        config.client_id@,
        config.redirect_uri@,
        state,
        joined_scopes(config.scopes@),
    )
}

/// Builds the URL that sends a user to the provider.
pub fn authorization_url(config: &OAuthProviderConfig, state: &str) -> (r: String)
    ensures
        r@ == url_for(*config, state@),
{
    let scopes = join_scopes(&config.scopes);
    let mut out = owned(config.auth_url());
    out.append("?client_id=");
    let client = url_encode(config.client_id.as_str());
    out.append(client.as_str());
    out.append("&redirect_uri=");
    let redirect = url_encode(config.redirect_uri.as_str());
    out.append(redirect.as_str());
    out.append("&response_type=code&state=");
    let state_text = url_encode(state);
    out.append(state_text.as_str());
    out.append("&scope=");
    let scope_text = url_encode(scopes.as_str());
    out.append(scope_text.as_str());
    out
}

/// The state that ties a user's return from the provider to the request
/// that sent them. Times are seconds since the epoch.
#[derive(Debug, Clone, PartialEq, Eq)]
pub struct OAuthState {
    pub state: String,
    pub provider: OAuthProvider,
    pub redirect_to: Option<String>,
    pub created_at_secs: i64,
}

impl OAuthState {
    /// A state with the random value given.
    pub fn with_value(
        value: String,
        provider: OAuthProvider,
        redirect_to: Option<String>,
        now_secs: i64,
    ) -> (r: Self)
        ensures
            r == (OAuthState { state: value, provider, redirect_to, created_at_secs: now_secs }),
    {
        OAuthState { state: value, provider, redirect_to, created_at_secs: now_secs }
    }

    /// A state whose random value is the text form of a fresh UUID.
    pub fn new(provider: OAuthProvider, redirect_to: Option<String>, now_secs: i64) -> (r: Self)
        ensures
            r.provider == provider,
            r.redirect_to == redirect_to,
            r.created_at_secs == now_secs,
            exists|id: u128| r.state@ == uuid_text(id),
    {
        let id = random_uuid();
        OAuthState::with_value(uuid_to_string(id), provider, redirect_to, now_secs)
    }

    /// Whether the state is older than `max_age_seconds` at `now_secs`.
    pub fn is_expired(&self, now_secs: i64, max_age_seconds: i64) -> (r: bool)
        ensures
            r == (now_secs - self.created_at_secs > max_age_seconds),
    {
        let age: i128 = (now_secs as i128) - (self.created_at_secs as i128);
        age > max_age_seconds as i128
    }
}

/// The answer of a provider's token endpoint.
#[derive(Debug, Clone, PartialEq, Eq)]
pub struct OAuthTokenResponse {
    pub access_token: String,
    pub token_type: String,
    pub expires_in: Option<i64>,
    pub refresh_token: Option<String>,
    pub scope: Option<String>,
    pub id_token: Option<String>,
}

/// The error that a provider is not configured.
pub fn provider_not_configured(provider: OAuthProvider) -> (r: AuthError)
    ensures
        r is OAuthError,
        r->OAuthError_0@ == "Provider "@ + provider.name_text() + " not configured"@,
{
    let mut text = owned("Provider ");
    text.append(provider.as_str());
    text.append(" not configured");
    AuthError::OAuthError(text)
}

/// The state that a user returned with, checked at `now_secs`: an unknown
/// state and one older than `max_age_seconds` are refused.
pub fn validate_state(found: Option<OAuthState>, now_secs: i64, max_age_seconds: i64) -> (r:
    AuthResult<OAuthState>)
    ensures
        match found {
            None => r is Err && r->Err_0 is OAuthError && r->Err_0->OAuthError_0@
                == "Invalid or expired state"@,
            Some(state) => if now_secs - state.created_at_secs > max_age_seconds {
                r is Err && r->Err_0 is OAuthError && r->Err_0->OAuthError_0@
                    == "State expired"@
            } else {
                r == Ok::<OAuthState, AuthError>(state)
            },
        },
{
    match found {
        None => Err(AuthError::OAuthError(owned("Invalid or expired state"))),
        Some(state) => {
            if state.is_expired(now_secs, max_age_seconds) {
                Err(AuthError::OAuthError(owned("State expired")))
            } else {
                Ok(state)
            }
        },
    }
}

/// What a provider tells about a user.
#[derive(Debug, Clone, PartialEq, Eq)]
pub struct OAuthUserInfo {
    pub provider: OAuthProvider,
    pub provider_id: String,
    pub email: Option<String>,
    pub email_verified: bool,
    pub name: Option<String>,
    pub avatar_url: Option<String>,
}

/// The address of a Discord user's picture.
pub open spec fn discord_avatar_text(id: Seq<char>, hash: Seq<char>) -> Seq<char> {
    "https://cdn.discordapp.com/avatars/"@ + id + "/"@ + hash + ".png"@
}

impl OAuthUserInfo {
    /// The user info of Google's answer: an address counts as verified only
    /// when the answer says so.
    pub fn from_google(
        sub: String,
        email: Option<String>,
        email_verified: Option<bool>,
        name: Option<String>,
        picture: Option<String>,
    ) -> (r: Self)
        ensures
            r == (OAuthUserInfo {
                provider: OAuthProvider::Google,
                provider_id: sub,
                email,
                email_verified: email_verified == Some(true),
                name,
                avatar_url: picture,
            }),
    {
        OAuthUserInfo {
            provider: OAuthProvider::Google,
            provider_id: sub,
            email,
            email_verified: match email_verified {
                Some(v) => v,
                None => false,
            },
            name,
            avatar_url: picture,
        }
    }

    /// The user info of GitHub's answer: the identifier is the number in
    /// decimal, and the address counts as verified.
    pub fn from_github(
        id: i64,
        email: Option<String>,
        name: Option<String>,
        avatar_url: Option<String>,
    ) -> (r: Self)
        ensures
            r.provider == OAuthProvider::GitHub,
            r.provider_id@ == signed_decimal(id as int),
            r.email == email,
            r.email_verified,
            r.name == name,
            r.avatar_url == avatar_url,
    {
        let mut provider_id = String::new();
        push_signed_decimal(&mut provider_id, id);
        assert(provider_id@ =~= signed_decimal(id as int));
        OAuthUserInfo {
            provider: OAuthProvider::GitHub,
            provider_id,
            email,
            email_verified: true,
            name,
            avatar_url,
        }
    }

    /// The user info of Discord's answer: the name is the user name, and the
    /// picture's address is made of the identifier and the picture's hash.
    pub fn from_discord(
        id: String,
        email: Option<String>,
        verified: Option<bool>,
        username: String,
        avatar: Option<String>,
    ) -> (r: Self)
        ensures
            r.provider == OAuthProvider::Discord,
            r.provider_id == id,
            r.email == email,
            r.email_verified == (verified == Some(true)),
            r.name == Some(username),
            avatar is None ==> r.avatar_url is None,
            avatar is Some ==> r.avatar_url is Some && r.avatar_url->0@ == discord_avatar_text(
                id@,
                avatar->0@,
            ),
    {
        let avatar_url = match &avatar {
            Some(hash) => {
                let mut url = owned("https://cdn.discordapp.com/avatars/");
                url.append(id.as_str());
                url.append("/");
                url.append(hash.as_str());
                url.append(".png");
                Some(url)
            },
            None => None,
        };
        OAuthUserInfo {
            provider: OAuthProvider::Discord,
            provider_id: id,
            email,
            email_verified: match verified {
                Some(v) => v,
                None => false,
            },
            name: Some(username),
            avatar_url,
        }
    }
}

fn copy_text(text: &Option<String>) -> (r: Option<String>)
    ensures
        r == *text,
{
    match text {
        Some(s) => Some(s.clone()),
        None => None,
    }
}

/// The link between a user and an account at a provider. Identifiers are the
/// 128-bit values of UUIDs; times are milliseconds since the epoch.
#[derive(Debug, Clone, PartialEq, Eq)]
pub struct OAuthIdentity {
    pub id: u128,
    pub user_id: u128,
    pub provider: OAuthProvider,
    pub provider_id: String,
    pub provider_email: Option<String>,
    pub access_token: Option<String>,
    pub refresh_token: Option<String>,
    pub created_at_ms: i64,
    pub updated_at_ms: i64,
}

impl OAuthIdentity {
    /// The identity with the identifier given that links a user to the
    /// account that `info` describes, without tokens.
    pub fn with_id(id: u128, user_id: u128, info: &OAuthUserInfo, now_ms: i64) -> (r: Self)
        ensures
            r == (OAuthIdentity {
                id,
                user_id,
                provider: info.provider,
                provider_id: info.provider_id,
                provider_email: info.email,
                access_token: None,
                refresh_token: None,
                created_at_ms: now_ms,
                updated_at_ms: now_ms,
            }),
    {
        OAuthIdentity {
            id,
            user_id,
            provider: info.provider,
            provider_id: info.provider_id.clone(),
            provider_email: copy_text(&info.email),
            access_token: None,
            refresh_token: None,
            created_at_ms: now_ms,
            updated_at_ms: now_ms,
        }
    }

    /// The identity with a fresh identifier that links a user to the account
    /// that `info` describes.
    pub fn new(user_id: u128, info: &OAuthUserInfo, now_ms: i64) -> (r: Self)
        ensures
            r == (OAuthIdentity { id: r.id, ..OAuthIdentity::spec_without_id(user_id, *info, now_ms) }),
    {
        OAuthIdentity::with_id(random_uuid(), user_id, info, now_ms)
    }

    /// The identity that links a user to the account that `info` describes,
    /// with identifier zero.
    pub open spec fn spec_without_id(user_id: u128, info: OAuthUserInfo, now_ms: i64) -> Self {
        OAuthIdentity {
            id: 0,
            user_id,
            provider: info.provider,
            provider_id: info.provider_id,
            provider_email: info.email,
            access_token: None,
            refresh_token: None,
            created_at_ms: now_ms,
            updated_at_ms: now_ms,
        }
    }

    /// An equal identity.
    pub fn duplicate(&self) -> (r: Self)
        ensures
            r == *self,
    {
        OAuthIdentity {
            id: self.id,
            user_id: self.user_id,
            provider: self.provider,
            provider_id: self.provider_id.clone(),
            provider_email: copy_text(&self.provider_email),
            access_token: copy_text(&self.access_token),
            refresh_token: copy_text(&self.refresh_token),
            created_at_ms: self.created_at_ms,
            updated_at_ms: self.updated_at_ms,
        }
    }
}

/// Where OAuth identities are kept. The contracts say what a call that
/// succeeds gives or does; whether a call succeeds is the repository's own
/// matter.
pub trait OAuthRepository {
    /// The identities that the repository keeps, in the order in which they
    /// were created.
    spec fn kept(&self) -> Seq<OAuthIdentity>;

    /// The identity of an account at a provider, if there is one: the first
    /// such identity among those kept.
    fn find_by_provider_id(&self, provider: OAuthProvider, provider_id: &str) -> (r: AuthResult<
        Option<OAuthIdentity>,
    >)
        ensures
            r is Ok ==> r->Ok_0 == first_of_account(self.kept(), provider, provider_id@),
    ;

    /// The identities of a user, in the order in which they are kept.
    fn find_by_user_id(&self, user_id: u128) -> (r: AuthResult<Vec<OAuthIdentity>>)
        ensures
            r is Ok ==> r->Ok_0@ == identities_of(self.kept(), user_id),
    ;

    /// Keeps a new identity, after those that are kept, and hands it back.
    fn create(&mut self, identity: OAuthIdentity) -> (r: AuthResult<OAuthIdentity>)
        ensures
            r is Ok ==> r->Ok_0 == identity && final(self).kept() == old(self).kept().push(
                identity,
            ),
    ;

    /// Replaces the tokens of an identity, and the time of its last change.
    fn update_tokens(
        &mut self,
        identity_id: u128,
        access_token: Option<String>,
        refresh_token: Option<String>,
        now_ms: i64,
    ) -> (r: AuthResult<()>)
        ensures
            r is Ok ==> final(self).kept() == with_tokens(
                old(self).kept(),
                identity_id,
                access_token,
                refresh_token,
                now_ms,
            ),
    ;

    /// Removes an identity.
    fn delete(&mut self, identity_id: u128) -> (r: AuthResult<()>)
        ensures
            r is Ok ==> final(self).kept() == identities_without(old(self).kept(), identity_id),
    ;
}

/// The identities after the first identity with the identifier given has
/// taken new tokens at the time given; the identities as they are where
/// none has the identifier.
pub open spec fn with_tokens(
    identities: Seq<OAuthIdentity>,
    identity_id: u128,
    access_token: Option<String>,
    refresh_token: Option<String>,
    now_ms: i64,
) -> Seq<OAuthIdentity> {
    match first_where(identities, |i: OAuthIdentity| i.id == identity_id) {
        Some(at) => identities.update(
            at,
            OAuthIdentity { access_token, refresh_token, updated_at_ms: now_ms, ..identities[at] },
        ),
        None => identities,
    }
}

/// The identities of a user among `identities`, in order.
pub open spec fn identities_of(identities: Seq<OAuthIdentity>, user_id: u128) -> Seq<
    OAuthIdentity,
> {
    identities.filter(|i: OAuthIdentity| i.user_id == user_id)
}

/// The identities other than the one with the identifier given, in order.
pub open spec fn identities_without(identities: Seq<OAuthIdentity>, identity_id: u128) -> Seq<
    OAuthIdentity,
> {
    identities.filter(|i: OAuthIdentity| i.id != identity_id)
}

/// The first identity of an account at a provider, if there is one.
pub open spec fn first_of_account(
    identities: Seq<OAuthIdentity>,
    provider: OAuthProvider,
    provider_id: Seq<char>,
) -> Option<OAuthIdentity>
    decreases identities.len(),
{
    if identities.len() == 0 {
        None
    } else if identities[0].provider == provider && identities[0].provider_id@ == provider_id {
        Some(identities[0])
    } else {
        first_of_account(identities.drop_first(), provider, provider_id)
    }
}

/// In-memory OAuth repository.
#[derive(Debug)]
pub struct InMemoryOAuthRepository {
    identities: Vec<OAuthIdentity>,
}

impl InMemoryOAuthRepository {
    /// An empty repository.
    pub fn new() -> (r: Self)
        ensures
            r.kept() == Seq::<OAuthIdentity>::empty(),
    {
        InMemoryOAuthRepository { identities: Vec::new() }
    }
}

impl Default for InMemoryOAuthRepository {
    fn default() -> (r: Self)
        ensures
            r.kept() == Seq::<OAuthIdentity>::empty(),
    {
        InMemoryOAuthRepository::new()
    }
}

impl OAuthRepository for InMemoryOAuthRepository {
    closed spec fn kept(&self) -> Seq<OAuthIdentity> {
        self.identities@
    }

    fn find_by_provider_id(&self, provider: OAuthProvider, provider_id: &str) -> (r: AuthResult<
        Option<OAuthIdentity>,
    >)
        ensures
            r == Ok::<Option<OAuthIdentity>, AuthError>(
                first_of_account(self.kept(), provider, provider_id@),
            ),
    {
        let mut i: usize = 0;
        assert(self.identities@.skip(0) =~= self.identities@);
        while i < self.identities.len()
            invariant
                i <= self.identities@.len(),
                first_of_account(self.identities@, provider, provider_id@) == first_of_account(
                    self.identities@.skip(i as int),
                    provider,
                    provider_id@,
                ),
            decreases self.identities@.len() - i,
        {
            proof {
                let rest = self.identities@.skip(i as int);
                assert(rest[0] == self.identities@[i as int]);
                assert(rest.drop_first() =~= self.identities@.skip(i + 1));
            }
            if self.identities[i].provider == provider && same_text(
                self.identities[i].provider_id.as_str(),
                provider_id,
            ) {
                return Ok(Some(self.identities[i].duplicate()));
            }
            i = i + 1;
        }
        Ok(None)
    }

    fn find_by_user_id(&self, user_id: u128) -> (r: AuthResult<Vec<OAuthIdentity>>)
        ensures
            r is Ok,
            r->Ok_0@ == identities_of(self.kept(), user_id),
    {
        let mut out: Vec<OAuthIdentity> = Vec::new();
        let mut i: usize = 0;
        proof {
            assert(self.identities@.take(0) =~= Seq::<OAuthIdentity>::empty());
            reveal(Seq::filter);
        }
        while i < self.identities.len()
            invariant
                i <= self.identities@.len(),
                out@ == identities_of(self.identities@.take(i as int), user_id),
            decreases self.identities@.len() - i,
        {
            proof {
                let next = self.identities@.take(i + 1);
                assert(next.drop_last() =~= self.identities@.take(i as int));
                assert(next.last() == self.identities@[i as int]);
                reveal(Seq::filter);
            }
            if self.identities[i].user_id == user_id {
                out.push(self.identities[i].duplicate());
            }
            i = i + 1;
        }
        assert(self.identities@.take(self.identities@.len() as int) =~= self.identities@);
        Ok(out)
    }

    fn create(&mut self, identity: OAuthIdentity) -> (r: AuthResult<OAuthIdentity>)
        ensures
            r == Ok::<OAuthIdentity, AuthError>(identity),
            final(self).kept() == old(self).kept().push(identity),
    {
        let copy = identity.duplicate();
        self.identities.push(identity);
        Ok(copy)
    }

    fn update_tokens(
        &mut self,
        identity_id: u128,
        access_token: Option<String>,
        refresh_token: Option<String>,
        now_ms: i64,
    ) -> (r: AuthResult<()>)
        ensures
            r is Ok,
            final(self).kept() == with_tokens(
                old(self).kept(),
                identity_id,
                access_token,
                refresh_token,
                now_ms,
            ),
    {
        let ghost has_id = |i: OAuthIdentity| i.id == identity_id;
        let mut i: usize = 0;
        while i < self.identities.len()
            invariant
                i <= self.identities@.len(),
                self.identities@ == old(self).identities@,
                has_id == (|i: OAuthIdentity| i.id == identity_id),
                forall|k: int| 0 <= k < i ==> !has_id(#[trigger] self.identities@[k]),
            decreases self.identities@.len() - i,
        {
            if self.identities[i].id == identity_id {
                let mut changed = self.identities[i].duplicate();
                changed.access_token = access_token;
                changed.refresh_token = refresh_token;
                changed.updated_at_ms = now_ms;
                proof {
                    assert(has_id(self.identities@[i as int]));
                    lemma_first_where_is(self.identities@, has_id, i as int);
                }
                self.identities.set(i, changed);
                return Ok(());
            }
            i = i + 1;
        }
        proof {
            lemma_first_where_none(self.identities@, has_id);
        }
        Ok(())
    }

    fn delete(&mut self, identity_id: u128) -> (r: AuthResult<()>)
        ensures
            r is Ok,
            final(self).kept() == identities_without(old(self).kept(), identity_id),
    {
        let mut kept: Vec<OAuthIdentity> = Vec::new();
        let mut i: usize = 0;
        proof {
            assert(self.identities@.take(0) =~= Seq::<OAuthIdentity>::empty());
            reveal(Seq::filter);
        }
        while i < self.identities.len()
            invariant
                i <= self.identities@.len(),
                self.identities@ == old(self).identities@,
                kept@ == identities_without(self.identities@.take(i as int), identity_id),
            decreases self.identities@.len() - i,
        {
            proof {
                let next = self.identities@.take(i + 1);
                assert(next.drop_last() =~= self.identities@.take(i as int));
                assert(next.last() == self.identities@[i as int]);
                reveal(Seq::filter);
            }
            if self.identities[i].id != identity_id {
                kept.push(self.identities[i].duplicate());
            }
            i = i + 1;
        }
        assert(self.identities@.take(self.identities@.len() as int) =~= self.identities@);
        self.identities = kept;
        Ok(())
    }
}

/// Whether a provider may be unlinked from a user: it may not when it is the
/// user's only identity and the user has no password.
pub open spec fn may_unlink(identities: nat, has_password: bool) -> bool {
    !(identities == 1 && !has_password)
}

/// The position of the first identity of a provider, if there is one.
pub fn position_of_provider(identities: &Vec<OAuthIdentity>, provider: OAuthProvider) -> (r: Option<
    usize,
>)
    ensures
        match r {
            Some(i) => i < identities@.len() && identities@[i as int].provider == provider
                && forall|k: int| 0 <= k < i ==> identities@[k].provider != provider,
            None => forall|k: int| 0 <= k < identities@.len() ==> identities@[k].provider
                != provider,
        },
{
    let mut i: usize = 0;
    while i < identities.len()
        invariant
            i <= identities@.len(),
            forall|k: int| 0 <= k < i ==> identities@[k].provider != provider,
        decreases identities@.len() - i,
    {
        if identities[i].provider == provider {
            return Some(i);
        }
        i = i + 1;
    }
    None
}

/// The identity that unlinking a provider from a user removes, given the
/// user's identities and whether the user has a password: the first of the
/// provider; nothing where the user has none of the provider, or where it
/// is the only way the user can sign in.
pub open spec fn unlinked(identities: Seq<OAuthIdentity>, provider: OAuthProvider, has_password: bool)
    -> Option<u128> {
    match first_where(identities, |i: OAuthIdentity| i.provider == provider) {
        Some(at) => if may_unlink(identities.len(), has_password) {
            Some(identities[at].id)
        } else {
            None
        },
        None => None,
    }
}

/// Decides the unlinking of a provider from a user, given the user's
/// identities and whether the user has a password: the identity to delete,
/// or the reason why none is deleted.
pub fn unlink_decision(identities: &Vec<OAuthIdentity>, provider: OAuthProvider, has_password: bool)
    -> (r: AuthResult<u128>)
    ensures
        match unlinked(identities@, provider, has_password) {
            Some(id) => r == Ok::<u128, AuthError>(id),
            None => r is Err,
        },
        (forall|k: int| 0 <= k < identities@.len() ==> identities@[k].provider != provider) ==> r
            is Err && r->Err_0 is OAuthError && r->Err_0->OAuthError_0@ == "Provider not linked"@,
        (exists|k: int| 0 <= k < identities@.len() && identities@[k].provider == provider)
            && !may_unlink(identities@.len(), has_password) ==> r is Err && r->Err_0 is OAuthError
            && r->Err_0->OAuthError_0@ == "Cannot unlink the only authentication method"@,
        (exists|k: int| 0 <= k < identities@.len() && identities@[k].provider == provider)
            && may_unlink(identities@.len(), has_password) ==> r is Ok && exists|k: int|
            0 <= k < identities@.len() && identities@[k].provider == provider && identities@[k].id
                == r->Ok_0 && forall|j: int| 0 <= j < k ==> identities@[j].provider != provider,
{
    let ghost of_provider = |i: OAuthIdentity| i.provider == provider;
    match position_of_provider(identities, provider) {
        None => {
            proof {
                lemma_first_where_none(identities@, of_provider);
            }
            Err(AuthError::OAuthError(owned("Provider not linked")))
        },
        Some(i) => {
            proof {
                lemma_first_where_is(identities@, of_provider, i as int);
            }
            if identities.len() == 1 && !has_password {
                return Err(
                    AuthError::OAuthError(owned("Cannot unlink the only authentication method")),
                );
            }
            Ok(identities[i].id)
        },
    }
}

/// Whether the parameters are those of the request that exchanges a code
/// for tokens, in the order client, secret, code, redirect address, grant
/// type.
pub open spec fn are_token_params(
    params: Seq<(String, String)>,
    config: OAuthProviderConfig,
    code: Seq<char>,
) -> bool {
    &&& params.len() == 5
    &&& params[0].0@ == "client_id"@ && params[0].1@ == config.client_id@
    &&& params[1].0@ == "client_secret"@ && params[1].1@ == config.client_secret@
    &&& params[2].0@ == "code"@ && params[2].1@ == code
    &&& params[3].0@ == "redirect_uri"@ && params[3].1@ == config.redirect_uri@
    &&& params[4].0@ == "grant_type"@ && params[4].1@ == "authorization_code"@
}

/// The parameters of the request that exchanges a code for tokens.
pub fn token_request_params(config: &OAuthProviderConfig, code: &str) -> (r: Vec<(String, String)>)
    ensures
        are_token_params(r@, *config, code@),
{
    let mut params: Vec<(String, String)> = Vec::new();
    params.push((owned("client_id"), config.client_id.clone()));
    params.push((owned("client_secret"), config.client_secret.clone()));
    params.push((owned("code"), owned(code)));
    params.push((owned("redirect_uri"), config.redirect_uri.clone()));
    params.push((owned("grant_type"), owned("authorization_code")));
    params
}

/// Whether an identity links a user to the account that `info` describes,
/// without tokens, as of the time given.
pub open spec fn is_link(identity: OAuthIdentity, user_id: u128, info: OAuthUserInfo, now_ms: i64)
    -> bool {
    identity == (OAuthIdentity {
        id: identity.id,
        ..OAuthIdentity::spec_without_id(user_id, info, now_ms)
    })
}

/// Whether the identities `after` are the identities `before` and then one
/// that links a user to the account that `info` describes.
pub open spec fn links(
    after: Seq<OAuthIdentity>,
    before: Seq<OAuthIdentity>,
    user_id: u128,
    info: OAuthUserInfo,
    now_ms: i64,
) -> bool {
    &&& after.len() == before.len() + 1
    &&& after.drop_last() == before
    &&& is_link(after.last(), user_id, info, now_ms)
}

/// Whether a user is the new user of an account at a provider: with the
/// account's address, name and picture, and without a password.
pub open spec fn is_account_user(user: User, info: OAuthUserInfo, now_ms: i64) -> bool {
    &&& info.email == Some(user.email)
    &&& user.email_verified == info.email_verified
    &&& user.password_hash@ == Seq::<char>::empty()
    &&& user.name == info.name
    &&& user.avatar_url == info.avatar_url
    &&& user.created_at_ms == now_ms
    &&& user.updated_at_ms == now_ms
}

/// OAuth service.
pub struct OAuthService<U: UserRepository, O: OAuthRepository> {
    providers: Vec<OAuthProviderConfig>,
    user_repo: U,
    oauth_repo: O,
    state_store: Vec<OAuthState>,
    state_max_age_seconds: i64,
}

/// What linking an account to a user comes to.
#[derive(Debug, Clone, PartialEq, Eq)]
pub enum LinkDecision {
    /// The account is linked to the user already: the identity stays.
    Keep(OAuthIdentity),
    /// The account is not linked: a new identity is kept.
    Create,
}

/// Decides the linking of an account to a user, given the identity that the
/// account has, if any: an account of another user is refused.
pub fn link_decision(linked: Option<OAuthIdentity>, user_id: u128) -> (r: AuthResult<LinkDecision>)
    ensures
        match linked {
            None => r == Ok::<LinkDecision, AuthError>(LinkDecision::Create),
            Some(existing) => if existing.user_id != user_id {
                r is Err && r->Err_0 is OAuthError && r->Err_0->OAuthError_0@
                    == "This provider account is already linked to another user"@
            } else {
                r == Ok::<LinkDecision, AuthError>(LinkDecision::Keep(existing))
            },
        },
{
    match linked {
        Some(existing) => {
            if existing.user_id != user_id {
                return Err(
                    AuthError::OAuthError(
                        owned("This provider account is already linked to another user"),
                    ),
                );
            }
            Ok(LinkDecision::Keep(existing))
        },
        None => Ok(LinkDecision::Create),
    }
}

/// The address that a provider gave, which a new user needs.
pub fn required_email(info: &OAuthUserInfo) -> (r: AuthResult<String>)
    ensures
        match info.email {
            Some(email) => r == Ok::<String, AuthError>(email),
            None => r is Err && r->Err_0 is OAuthError && r->Err_0->OAuthError_0@
                == "Email is required from OAuth provider"@,
        },
{
    match &info.email {
        Some(email) => Ok(email.clone()),
        None => Err(AuthError::OAuthError(owned("Email is required from OAuth provider"))),
    }
}

/// The new user of an account at a provider: with the account's address,
/// name and picture, and without a password.
pub fn user_from_account(info: &OAuthUserInfo, email: String, id: u128, now_ms: i64) -> (r: User)
    ensures
        r.id == id,
        r.email == email,
        r.email_verified == info.email_verified,
        r.password_hash@ == Seq::<char>::empty(),
        r.name == info.name,
        r.avatar_url == info.avatar_url,
        r.created_at_ms == now_ms,
        r.updated_at_ms == now_ms,
{
    User {
        id,
        email,
        email_verified: info.email_verified,
        password_hash: String::new(),
        name: copy_text(&info.name),
        avatar_url: copy_text(&info.avatar_url),
        created_at_ms: now_ms,
        updated_at_ms: now_ms,
    }
}

impl<U: UserRepository, O: OAuthRepository> OAuthService<U, O> {
    /// The providers registered, one for each kind of provider.
    pub closed spec fn registered(&self) -> Seq<OAuthProviderConfig> {
        self.providers@
    }

    /// The states that wait for their users to return.
    pub closed spec fn waiting(&self) -> Seq<OAuthState> {
        self.state_store@
    }

    /// The age in seconds beyond which a state is refused.
    pub closed spec fn max_age(&self) -> i64 {
        self.state_max_age_seconds
    }

    /// The repository of the users.
    pub closed spec fn users(&self) -> U {
        self.user_repo
    }

    /// The repository of the identities.
    pub closed spec fn accounts(&self) -> O {
        self.oauth_repo
    }

    /// A service with no provider registered, in which a state lives for ten
    /// minutes.
    pub fn new(user_repo: U, oauth_repo: O) -> (r: Self)
        ensures
            r.registered() == Seq::<OAuthProviderConfig>::empty(),
            r.waiting() == Seq::<OAuthState>::empty(),
            r.max_age() == 600,
            r.users() == user_repo,
            r.accounts() == oauth_repo,
    {
        OAuthService {
            providers: Vec::new(),
            user_repo,
            oauth_repo,
            state_store: Vec::new(),
            state_max_age_seconds: 600,
        }
    }

    /// The position of the configuration of a provider, if one is
    /// registered.
    pub open spec fn configured(&self, provider: OAuthProvider) -> Option<int> {
        first_where(self.registered(), |c: OAuthProviderConfig| c.provider == provider)
    }

    /// The position of the first waiting state with the value given, if
    /// there is one.
    pub open spec fn awaited(&self, state: Seq<char>) -> Option<int> {
        first_where(self.waiting(), |s: OAuthState| s.state@ == state)
    }

    fn provider_position(&self, provider: OAuthProvider) -> (r: Option<usize>)
        ensures
            match r {
                Some(i) => i < self.registered().len() && self.configured(provider) == Some(
                    i as int,
                ) && self.registered()[i as int].provider == provider,
                None => self.configured(provider) is None,
            },
    {
        let ghost p = |c: OAuthProviderConfig| c.provider == provider;
        let mut i: usize = 0;
        while i < self.providers.len()
            invariant
                i <= self.providers@.len(),
                p == (|c: OAuthProviderConfig| c.provider == provider),
                forall|k: int| 0 <= k < i ==> !p(#[trigger] self.providers@[k]),
            decreases self.providers@.len() - i,
        {
            if self.providers[i].provider == provider {
                proof {
                    assert(p(self.providers@[i as int]));
                    lemma_first_where_is(self.providers@, p, i as int);
                }
                return Some(i);
            }
            i = i + 1;
        }
        proof {
            lemma_first_where_none(self.providers@, p);
        }
        None
    }

    /// Registers a provider, in place of one of the same kind that was
    /// registered before.
    pub fn register_provider(&mut self, config: OAuthProviderConfig)
        ensures
            final(self).waiting() == old(self).waiting(),
            final(self).max_age() == old(self).max_age(),
            final(self).users() == old(self).users(),
            final(self).accounts() == old(self).accounts(),
            final(self).registered() == (match old(self).configured(config.provider) {
                Some(i) => old(self).registered().update(i, config),
                None => old(self).registered().push(config),
            }),
    {
        match self.provider_position(config.provider) {
            Some(i) => {
                self.providers.set(i, config);
            },
            None => {
                self.providers.push(config);
            },
        }
    }

    /// The configuration of a provider, or the error that it is not
    /// configured.
    pub fn get_provider_config(&self, provider: OAuthProvider) -> (r: AuthResult<
        &OAuthProviderConfig,
    >)
        ensures
            match self.configured(provider) {
                Some(i) => r is Ok && *r->Ok_0 == self.registered()[i],
                None => r is Err && r->Err_0 is OAuthError && r->Err_0->OAuthError_0@
                    == "Provider "@ + provider.name_text() + " not configured"@,
            },
    {
        match self.provider_position(provider) {
            Some(i) => Ok(&self.providers[i]),
            None => Err(provider_not_configured(provider)),
        }
    }

    /// The URL that sends a user to a provider, and the state that the user
    /// will return with: the text of a fresh random UUID. The state is kept
    /// until the user returns. A provider that is not configured is refused,
    /// and nothing is kept.
    pub fn get_authorization_url(
        &mut self,
        provider: OAuthProvider,
        redirect_to: Option<String>,
        now_secs: i64,
    ) -> (r: AuthResult<(String, String)>)
        ensures
            final(self).registered() == old(self).registered(),
            final(self).max_age() == old(self).max_age(),
            final(self).users() == old(self).users(),
            final(self).accounts() == old(self).accounts(),
            match old(self).configured(provider) {
                None => {
                    &&& r is Err
                    &&& r->Err_0 is OAuthError
                    &&& r->Err_0->OAuthError_0@ == "Provider "@ + provider.name_text()
                        + " not configured"@
                    &&& final(self).waiting() == old(self).waiting()
                },
                Some(i) => {
                    &&& r is Ok
                    &&& exists|id: u128| r->Ok_0.1@ == uuid_text(id)
                    &&& r->Ok_0.0@ == url_for(old(self).registered()[i], r->Ok_0.1@)
                    &&& final(self).waiting() == old(self).waiting().push(
                        OAuthState {
                            state: r->Ok_0.1,
                            provider,
                            redirect_to,
                            created_at_secs: now_secs,
                        },
                    )
                },
            },
    {
        let position = match self.provider_position(provider) {
            Some(i) => i,
            None => {
                return Err(provider_not_configured(provider));
            },
        };
        let id = random_uuid();
        let state_value = uuid_to_string(id);
        let url = authorization_url(&self.providers[position], state_value.as_str());
        let state = OAuthState::with_value(state_value.clone(), provider, redirect_to, now_secs);
        self.state_store.push(state);
        Ok((url, state_value))
    }

    /// Takes the state that a user returned with out of the store and checks
    /// it: an unknown state is refused; one that is too old is refused too,
    /// and is gone all the same.
    pub fn validate_state(&mut self, state: &str, now_secs: i64) -> (r: AuthResult<OAuthState>)
        ensures
            final(self).registered() == old(self).registered(),
            final(self).max_age() == old(self).max_age(),
            final(self).users() == old(self).users(),
            final(self).accounts() == old(self).accounts(),
            match old(self).awaited(state@) {
                None => {
                    &&& r is Err
                    &&& r->Err_0 is OAuthError
                    &&& r->Err_0->OAuthError_0@ == "Invalid or expired state"@
                    &&& final(self).waiting() == old(self).waiting()
                },
                Some(i) => {
                    &&& final(self).waiting() == old(self).waiting().remove(i)
                    &&& if now_secs - old(self).waiting()[i].created_at_secs > old(self).max_age() {
                        r is Err && r->Err_0 is OAuthError && r->Err_0->OAuthError_0@
                            == "State expired"@
                    } else {
                        r == Ok::<OAuthState, AuthError>(old(self).waiting()[i])
                    }
                },
            },
    {
        let ghost p = |s: OAuthState| s.state@ == state@;
        let mut i: usize = 0;
        while i < self.state_store.len()
            invariant
                i <= self.state_store@.len(),
                *self == *old(self),
                p == (|s: OAuthState| s.state@ == state@),
                forall|k: int| 0 <= k < i ==> !p(#[trigger] self.state_store@[k]),
            decreases self.state_store@.len() - i,
        {
            if same_text(self.state_store[i].state.as_str(), state) {
                proof {
                    assert(p(self.state_store@[i as int]));
                    lemma_first_where_is(self.state_store@, p, i as int);
                }
                let taken = self.state_store.remove(i);
                return validate_state(Some(taken), now_secs, self.state_max_age_seconds);
            }
            i = i + 1;
        }
        proof {
            lemma_first_where_none(self.state_store@, p);
        }
        validate_state(None, now_secs, self.state_max_age_seconds)
    }

    /// The token endpoint of a provider and the parameters of the request
    /// that exchanges a code for tokens.
    pub fn build_token_request(&self, provider: OAuthProvider, code: &str) -> (r: AuthResult<
        (String, Vec<(String, String)>),
    >)
        ensures
            match self.configured(provider) {
                None => r is Err && r->Err_0 is OAuthError && r->Err_0->OAuthError_0@
                    == "Provider "@ + provider.name_text() + " not configured"@,
                Some(i) => {
                    let config = self.registered()[i];
                    &&& r is Ok
                    &&& r->Ok_0.0@ == (match config.token_url {
                        Some(url) => url@,
                        None => config.provider.default_token_url(),
                    })
                    &&& are_token_params(r->Ok_0.1@, config, code@)
                },
            },
    {
        match self.get_provider_config(provider) {
            Ok(config) => Ok((owned(config.token_url()), token_request_params(config, code))),
            Err(e) => Err(e),
        }
    }

    /// The user info endpoint of a provider.
    pub fn get_userinfo_url(&self, provider: OAuthProvider) -> (r: AuthResult<String>)
        ensures
            match self.configured(provider) {
                None => r is Err && r->Err_0 is OAuthError && r->Err_0->OAuthError_0@
                    == "Provider "@ + provider.name_text() + " not configured"@,
                Some(i) => {
                    let config = self.registered()[i];
                    &&& r is Ok
                    &&& r->Ok_0@ == (match config.userinfo_url {
                        Some(url) => url@,
                        None => config.provider.default_userinfo_url(),
                    })
                },
            },
    {
        match self.get_provider_config(provider) {
            Ok(config) => Ok(owned(config.userinfo_url())),
            Err(e) => Err(e),
        }
    }

    /// Finds or creates the user of an account at a provider: the user that
    /// the account is linked to; else the user of the account's address,
    /// linked now; else a new user, linked now. The flag says whether the
    /// user is new.
    pub fn handle_oauth_user(&mut self, info: OAuthUserInfo, now_ms: i64) -> (r: AuthResult<
        (User, bool),
    >)
        ensures
            final(self).registered() == old(self).registered(),
            final(self).waiting() == old(self).waiting(),
            final(self).max_age() == old(self).max_age(),
            r is Ok ==> match first_of_account(
                old(self).accounts().kept(),
                info.provider,
                info.provider_id@,
            ) {
                Some(identity) => {
                    &&& first_with_id(old(self).users().kept(), identity.user_id) == Some(r->Ok_0.0)
                    &&& !r->Ok_0.1
                    &&& final(self).users() == old(self).users()
                    &&& final(self).accounts() == old(self).accounts()
                },
                None => info.email is Some && match first_with_email(
                    old(self).users().kept(),
                    info.email->Some_0@,
                ) {
                    Some(user) => {
                        &&& r->Ok_0.0 == user
                        &&& !r->Ok_0.1
                        &&& final(self).users() == old(self).users()
                        &&& links(
                            final(self).accounts().kept(),
                            old(self).accounts().kept(),
                            user.id,
                            info,
                            now_ms,
                        )
                    },
                    None => {
                        &&& r->Ok_0.1
                        &&& is_account_user(r->Ok_0.0, info, now_ms)
                        &&& final(self).users().kept() == old(self).users().kept().push(r->Ok_0.0)
                        &&& links(
                            final(self).accounts().kept(),
                            old(self).accounts().kept(),
                            r->Ok_0.0.id,
                            info,
                            now_ms,
                        )
                    },
                },
            },
    {
        let linked = match self.oauth_repo.find_by_provider_id(
            info.provider,
            info.provider_id.as_str(),
        ) {
            Ok(found) => found,
            Err(e) => {
                return Err(e);
            },
        };
        match linked {
            Some(identity) => {
                return match self.user_repo.find_by_id(identity.user_id) {
                    Ok(Some(user)) => Ok((user, false)),
                    Ok(None) => Err(AuthError::UserNotFound),
                    Err(e) => Err(e),
                };
            },
            None => {},
        }
        let email = match required_email(&info) {
            Ok(email) => email,
            Err(e) => {
                return Err(e);
            },
        };
        let existing = match self.user_repo.find_by_email(email.as_str()) {
            Ok(found) => found,
            Err(e) => {
                return Err(e);
            },
        };
        let (user, is_new) = match existing {
            Some(user) => (user, false),
            None => {
                let new_user = user_from_account(&info, email, random_uuid(), now_ms);
                match self.user_repo.create(&new_user) {
                    Ok(_) => {},
                    Err(e) => {
                        return Err(e);
                    },
                }
                (new_user, true)
            },
        };
        let identity = OAuthIdentity::new(user.id, &info, now_ms);
        let ghost before = self.oauth_repo.kept();
        match self.oauth_repo.create(identity) {
            Ok(_) => {
                proof {
                    let after = self.oauth_repo.kept();
                    assert(after.drop_last() =~= before);
                    assert(is_link(after.last(), user.id, info, now_ms));
                    assert(links(after, before, user.id, info, now_ms));
                }
                Ok((user, is_new))
            },
            Err(e) => Err(e),
        }
    }

    /// Links an account at a provider to a user. An account that is linked
    /// to another user is refused; one that is linked to this user stays as
    /// it is.
    pub fn link_provider(&mut self, user_id: u128, info: OAuthUserInfo, now_ms: i64) -> (r:
        AuthResult<OAuthIdentity>)
        ensures
            final(self).registered() == old(self).registered(),
            final(self).waiting() == old(self).waiting(),
            final(self).max_age() == old(self).max_age(),
            final(self).users() == old(self).users(),
            r is Ok ==> {
                &&& first_with_id(old(self).users().kept(), user_id) is Some
                &&& match first_of_account(
                    old(self).accounts().kept(),
                    info.provider,
                    info.provider_id@,
                ) {
                    Some(existing) => {
                        &&& existing.user_id == user_id
                        &&& r->Ok_0 == existing
                        &&& final(self).accounts() == old(self).accounts()
                    },
                    None => {
                        &&& is_link(r->Ok_0, user_id, info, now_ms)
                        &&& final(self).accounts().kept() == old(self).accounts().kept().push(
                            r->Ok_0,
                        )
                    },
                }
            },
    {
        match self.user_repo.find_by_id(user_id) {
            Ok(Some(_)) => {},
            Ok(None) => {
                return Err(AuthError::UserNotFound);
            },
            Err(e) => {
                return Err(e);
            },
        }
        let linked = match self.oauth_repo.find_by_provider_id(
            info.provider,
            info.provider_id.as_str(),
        ) {
            Ok(found) => found,
            Err(e) => {
                return Err(e);
            },
        };
        match link_decision(linked, user_id) {
            Err(e) => Err(e),
            Ok(LinkDecision::Keep(existing)) => Ok(existing),
            Ok(LinkDecision::Create) => {
                let identity = OAuthIdentity::new(user_id, &info, now_ms);
                self.oauth_repo.create(identity)
            },
        }
    }

    /// Unlinks a provider from a user, unless it is the only way the user
    /// can sign in.
    pub fn unlink_provider(&mut self, user_id: u128, provider: OAuthProvider) -> (r: AuthResult<()>)
        ensures
            final(self).registered() == old(self).registered(),
            final(self).waiting() == old(self).waiting(),
            final(self).max_age() == old(self).max_age(),
            final(self).users() == old(self).users(),
            r is Ok ==> {
                let mine = identities_of(old(self).accounts().kept(), user_id);
                let user = first_with_id(old(self).users().kept(), user_id);
                &&& user is Some
                &&& unlinked(mine, provider, user->Some_0.password_hash@.len() > 0) is Some
                &&& final(self).accounts().kept() == identities_without(
                    old(self).accounts().kept(),
                    unlinked(mine, provider, user->Some_0.password_hash@.len() > 0)->Some_0,
                )
            },
    {
        let identities = match self.oauth_repo.find_by_user_id(user_id) {
            Ok(found) => found,
            Err(e) => {
                return Err(e);
            },
        };
        if position_of_provider(&identities, provider).is_none() {
            return Err(AuthError::OAuthError(owned("Provider not linked")));
        }
        let user = match self.user_repo.find_by_id(user_id) {
            Ok(Some(user)) => user,
            Ok(None) => {
                return Err(AuthError::UserNotFound);
            },
            Err(e) => {
                return Err(e);
            },
        };
        let has_password = !user.password_hash.as_str().is_empty();
        match unlink_decision(&identities, provider, has_password) {
            Ok(identity_id) => self.oauth_repo.delete(identity_id),
            Err(e) => Err(e),
        }
    }

    /// The identities of a user, in the order in which they are kept.
    pub fn get_linked_providers(&self, user_id: u128) -> (r: AuthResult<Vec<OAuthIdentity>>)
        ensures
            r is Ok ==> r->Ok_0@ == identities_of(self.accounts().kept(), user_id),
    {
        self.oauth_repo.find_by_user_id(user_id)
    }
}

} // verus!
