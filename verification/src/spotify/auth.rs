use crate::config::Config;
use crate::spotify::status::{is_success, status_line, status_text, success};
use vstd::prelude::*;

verus! {

/// For how many seconds before its expiry a credential is no longer used.
pub const EXPIRY_SKEW_SECS: u64 = 60;

/// A bearer token and the time, in seconds since the epoch, at which it expires.
#[derive(Debug, PartialEq, Eq)]
pub struct Credential {
    pub access_token: String,
    pub expires_at: u64,
}

impl Clone for Credential {
    fn clone(&self) -> (copy: Credential)
        ensures
            copy == *self,
    {
        Credential { access_token: self.access_token.clone(), expires_at: self.expires_at }
    }
}

impl Credential {
    /// Whether the credential may be used at `now`: its expiry lies more than the skew
    /// margin ahead.
    pub open spec fn usable_at(&self, now: u64) -> bool {
        now + EXPIRY_SKEW_SECS < self.expires_at
    }

    /// Tells whether the credential may be used at `now`.
    pub fn is_usable(&self, now: u64) -> (usable: bool)
        ensures
            usable == self.usable_at(now),
    {
        now < self.expires_at.saturating_sub(EXPIRY_SKEW_SECS)
    }

    /// The credential that a grant received at `now` gives: it expires `expires_in`
    /// seconds later.
    pub fn issued(access_token: String, now: u64, expires_in: u64) -> (credential: Credential)
        requires
            now + expires_in <= u64::MAX,
        ensures
            credential.access_token == access_token,
            credential.expires_at == now + expires_in,
    {
        Credential { access_token, expires_at: now + expires_in }
    }
}

/// What the token endpoint grants: a token and the number of seconds it is good for.
#[derive(Debug, PartialEq, Eq)]
pub struct TokenGrant {
    pub access_token: String,
    pub expires_in: u64,
}

/// Which half of the client credentials is meant.
#[derive(Debug, Clone, Copy, PartialEq, Eq, Structural)]
pub enum CredentialPart {
    ClientId,
    ClientSecret,
}

/// Why no token could be had.
#[derive(Debug, PartialEq, Eq)]
pub enum AuthError {
    /// A part of the client credentials is not set up.
    MissingCredentials(CredentialPart),
    /// The token endpoint answered with a status that does not report success.
    TokenExchangeFailed { status: u16, body: String },
    /// The token endpoint reported success, but its answer could not be read.
    ParseError,
}

impl AuthError {
    /// What the error says to the user.
    pub open spec fn message_text(&self) -> Seq<char> {
        match self {
            AuthError::MissingCredentials(CredentialPart::ClientId) =>
                "No client_id configured. Run `spot auth` to set up credentials."@,
            AuthError::MissingCredentials(CredentialPart::ClientSecret) =>
                "No client_secret configured. Run `spot auth` to set up credentials."@,
            AuthError::TokenExchangeFailed { status, body } => "Token request failed ("@
                + status_line(*status) + "): "@ + body@
                + ". Check your credentials with `spot auth`."@,
            AuthError::ParseError => "Failed to parse token response"@,
        }
    }

    /// Writes what the error says to the user.
    pub fn message(&self) -> (text: String)
        ensures
            text@ == self.message_text(),
    {
        match self {
            AuthError::MissingCredentials(CredentialPart::ClientId) => String::from_str(
                "No client_id configured. Run `spot auth` to set up credentials.",
            ),
            AuthError::MissingCredentials(CredentialPart::ClientSecret) => String::from_str(
                "No client_secret configured. Run `spot auth` to set up credentials.",
            ),
            AuthError::TokenExchangeFailed { status, body } => {
                let mut text = String::from_str("Token request failed (");
                let line = status_text(*status);
                text.append(line.as_str());
                text.append("): ");
                text.append(body.as_str());
                text.append(". Check your credentials with `spot auth`.");
                text
            },
            AuthError::ParseError => String::from_str("Failed to parse token response"),
        }
    }
}

/// The token of the cached credential, if there is one and it may still be used at
/// `now`. A cache that is missing or cannot be read is passed as `None`.
pub fn load_cached_token(cached: &Option<Credential>, now: u64) -> (token: Option<String>)
    ensures
        match token {
            Some(t) => cached is Some && cached->0.usable_at(now) && t@
                == cached->0.access_token@,
            None => !(cached is Some && cached->0.usable_at(now)),
        },
{
    match cached {
        Some(credential) => {
            if credential.is_usable(now) {
                Some(credential.access_token.clone())
            } else {
                None
            }
        },
        None => None,
    }
}

/// Where client credentials are exchanged for a token.
pub open spec fn token_url() -> Seq<char> {
    "https://accounts.spotify.com/api/token"@
}

/// The grant that is asked for.
pub open spec fn grant_type() -> Seq<char> {
    "client_credentials"@
}

/// An exchange of client credentials for a token, as it is sent to the token endpoint.
#[derive(Debug, PartialEq, Eq)]
pub struct TokenRequest {
    pub url: String,
    pub grant_type: String,
    pub client_id: String,
    pub client_secret: String,
}

/// What has to happen next to have a token.
#[derive(Debug, PartialEq, Eq)]
pub enum TokenStep {
    /// The cached token is good: nothing is sent.
    Cached(String),
    /// A token has to be asked for with this request.
    Exchange(TokenRequest),
}

/// The ways in which a token is had, or not.
#[derive(Debug, Clone, Copy, PartialEq, Eq, Structural)]
pub enum TokenPath {
    /// The cached token is used, and nothing is sent.
    Cached,
    /// The client credentials are exchanged for a new token.
    Exchange,
    /// A part of the client credentials is missing, and nothing is sent.
    Missing(CredentialPart),
}

/// The way in which a token is had at `now`: by the cached credential while it may be
/// used; failing that, by an exchange, for which the client id and then the client
/// secret must be set up.
pub open spec fn token_path(config: &Config, cached: &Option<Credential>, now: u64) -> TokenPath {
    if cached is Some && cached->0.usable_at(now) {
        TokenPath::Cached
    } else if config.client_id is None {
        TokenPath::Missing(CredentialPart::ClientId)
    } else if config.client_secret is None {
        TokenPath::Missing(CredentialPart::ClientSecret)
    } else {
        TokenPath::Exchange
    }
}

/// The way that a step, or the error in its place, stands for.
pub open spec fn path_taken(step: Result<TokenStep, AuthError>) -> Option<TokenPath> {
    match step {
        Ok(TokenStep::Cached(_)) => Some(TokenPath::Cached),
        Ok(TokenStep::Exchange(_)) => Some(TokenPath::Exchange),
        Err(AuthError::MissingCredentials(part)) => Some(TokenPath::Missing(part)),
        Err(_) => None,
    }
}

/// A cached credential whose expiry lies more than the skew margin ahead is used
/// whatever the settings hold: the token endpoint is not asked.
pub proof fn lemma_usable_cache_sends_nothing(config: &Config, cached: &Option<Credential>, now: u64)
    requires
        cached is Some,
        now + EXPIRY_SKEW_SECS < cached->0.expires_at,
    ensures
        token_path(config, cached, now) == TokenPath::Cached,
{
}

/// Without a cached credential that may be used, and with both client credentials set
/// up, the token endpoint is asked.
pub proof fn lemma_stale_cache_is_exchanged(config: &Config, cached: &Option<Credential>, now: u64)
    requires
        cached matches Some(c) ==> c.expires_at <= now + EXPIRY_SKEW_SECS,
        config.client_id is Some,
        config.client_secret is Some,
    ensures
        token_path(config, cached, now) == TokenPath::Exchange,
{
}

/// Without a cached credential that may be used, a client id or client secret that is
/// not set up is an error, and the token endpoint is not asked.
pub proof fn lemma_missing_credentials_send_nothing(
    config: &Config,
    cached: &Option<Credential>,
    now: u64,
)
    requires
        !(cached is Some && cached->0.usable_at(now)),
        config.client_id is None || config.client_secret is None,
    ensures
        token_path(config, cached, now) is Missing,
{
}

/// A credential may be used right after it was issued if and only if it lasts longer
/// than the skew margin, and one that may be used at some time may be used at every
/// earlier time.
pub proof fn lemma_usable_while_fresh(credential: Credential, issued: u64, earlier: u64, later: u64)
    requires
        issued <= credential.expires_at,
        earlier <= later,
    ensures
        credential.usable_at(issued) <==> credential.expires_at - issued > EXPIRY_SKEW_SECS,
        credential.usable_at(later) ==> credential.usable_at(earlier),
{
}

/// Decides how a token is had at `now`. A cached credential that may still be used
/// gives its token, and nothing is sent. Otherwise both client credentials are needed
/// for an exchange, and the first that is missing is the error.
pub fn get_token(config: &Config, cached: &Option<Credential>, now: u64) -> (step: Result<
    TokenStep,
    AuthError,
>)
    ensures
        path_taken(step) == Some(token_path(config, cached, now)),
        match step {
            Ok(TokenStep::Cached(token)) => cached is Some && cached->0.usable_at(now) && token@
                == cached->0.access_token@,
            Ok(TokenStep::Exchange(request)) => {
                &&& !(cached is Some && cached->0.usable_at(now))
                &&& config.client_id is Some
                &&& config.client_secret is Some
                &&& request.url@ == token_url()
                &&& request.grant_type@ == grant_type()
                &&& request.client_id@ == config.client_id->0@
                &&& request.client_secret@ == config.client_secret->0@
            },
            Err(AuthError::MissingCredentials(CredentialPart::ClientId)) => {
                &&& !(cached is Some && cached->0.usable_at(now))
                &&& config.client_id is None
            },
            Err(AuthError::MissingCredentials(CredentialPart::ClientSecret)) => {
                &&& !(cached is Some && cached->0.usable_at(now))
                &&& config.client_id is Some
                &&& config.client_secret is None
            },
            Err(_) => false,
        },
{
    if let Some(token) = load_cached_token(cached, now) {
        return Ok(TokenStep::Cached(token));
    }
    let client_id = match &config.client_id {
        Some(id) => id.clone(),
        None => {
            return Err(AuthError::MissingCredentials(CredentialPart::ClientId));
        },
    };
    let client_secret = match &config.client_secret {
        Some(secret) => secret.clone(),
        None => {
            return Err(AuthError::MissingCredentials(CredentialPart::ClientSecret));
        },
    };
    Ok(
        TokenStep::Exchange(
            TokenRequest {
                url: String::from_str("https://accounts.spotify.com/api/token"),
                grant_type: String::from_str("client_credentials"),
                client_id,
                client_secret,
            },
        ),
    )
}

/// Whether the credential for a grant received at `now` can be written down: its
/// expiry must be a time that the clock can show.
pub open spec fn expiry_fits(grant: Option<TokenGrant>, now: u64) -> bool {
    grant matches Some(g) ==> now + g.expires_in <= u64::MAX
}

/// Turns the token endpoint's answer, received at `now`, into the credential to cache
/// and use. `grant` is the answer's body as read, or `None` where reading it failed. A
/// status that does not report success is an error that carries the status and the
/// body; otherwise an unreadable body is an error; otherwise the credential holds the
/// granted token and expires `expires_in` seconds after `now`.
pub fn exchange(status: u16, body: String, grant: Option<TokenGrant>, now: u64) -> (outcome: Result<
    Credential,
    AuthError,
>)
    requires
        expiry_fits(grant, now),
    ensures
        match outcome {
            Ok(credential) => {
                &&& success(status)
                &&& grant is Some
                &&& credential.access_token@ == grant->0.access_token@
                &&& credential.expires_at == now + grant->0.expires_in
            },
            Err(AuthError::TokenExchangeFailed { status: s, body: b }) => !success(status) && s
                == status && b@ == body@,
            Err(AuthError::ParseError) => success(status) && grant is None,
            Err(AuthError::MissingCredentials(_)) => false,
        },
{
    if !is_success(status) {
        return Err(AuthError::TokenExchangeFailed { status, body });
    }
    match grant {
        Some(g) => Ok(Credential::issued(g.access_token, now, g.expires_in)),
        None => Err(AuthError::ParseError),
    }
}

} // verus!
