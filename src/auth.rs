use vstd::prelude::*;

use crate::endpoint::{pairs_view, url_for, url_with_query, EXCHANGE_ENDPOINT, REFRESH_ENDPOINT};
use crate::error::{ApiError, Reply, STATUS_OK};

verus! {

/// The settings that the authorization-code exchange needs.
#[derive(Debug)]
pub struct Settings {
    pub client_id: String,
    pub client_secret: String,
    pub oauth_code: String,
}

/// A setting that is there and not empty.
pub open spec fn present(v: Option<String>) -> bool {
    v matches Some(s) && s@.len() > 0
}

impl Settings {
    /// Gathers the three settings; each must be present and non-empty.
    pub fn from_values(
        client_id: Option<String>,
        client_secret: Option<String>,
        oauth_code: Option<String>,
    ) -> (r: Result<Settings, ApiError>)
        ensures
            r is Ok <==> present(client_id) && present(client_secret) && present(oauth_code),
            r matches Ok(s) ==> Some(s.client_id) == client_id && Some(s.client_secret)
                == client_secret && Some(s.oauth_code) == oauth_code,
            r matches Err(e) ==> e == ApiError::Config,
    {
        match (client_id, client_secret, oauth_code) {
            (Some(client_id), Some(client_secret), Some(oauth_code)) => {
                if client_id.as_str().is_empty() || client_secret.as_str().is_empty()
                    || oauth_code.as_str().is_empty() {
                    Err(ApiError::Config)
                } else {
                    Ok(Settings { client_id, client_secret, oauth_code })
                }
            },
            _ => Err(ApiError::Config),
        }
    }
}

/// The body of a token endpoint's answer.
#[derive(Debug)]
pub struct Token {
    pub refresh_token: String,
    pub access_token: String,
    /// When the access token expires, in seconds since the Unix epoch.
    pub expires_at: Option<u32>,
}

impl Token {
    /// The access token is non-empty.
    pub open spec fn usable(&self) -> bool {
        self.access_token@.len() > 0
    }
}

/// What a token endpoint's reply yields: its token when the status is 200 and
/// the body holds a non-empty access token, an error otherwise.
pub open spec fn token_outcome(reply: Reply<Token>) -> Result<Token, ApiError> {
    match reply {
        Reply::Failed => Err(ApiError::Transport),
        Reply::Answered { status, body } => if status != STATUS_OK {
            Err(ApiError::Auth(status))
        } else {
            match body {
                Some(t) => if t.usable() {
                    Ok(t)
                } else {
                    Err(ApiError::Decode)
                },
                None => Err(ApiError::Decode),
            }
        },
    }
}

/// The expiry time as a timestamp.
pub open spec fn expiry_of(expires_at: Option<u32>) -> Option<i64> {
    match expires_at {
        Some(t) => Some(t as i64),
        None => None,
    }
}

/// Decides on a token endpoint's reply.
fn accept_token(reply: Reply<Token>) -> (r: Result<Token, ApiError>)
    ensures
        r == token_outcome(reply),
{
    match reply {
        Reply::Failed => Err(ApiError::Transport),
        Reply::Answered { status, body } => {
            if status != STATUS_OK {
                Err(ApiError::Auth(status))
            } else {
                match body {
                    Some(t) => {
                        if t.access_token.as_str().is_empty() {
                            Err(ApiError::Decode)
                        } else {
                            Ok(t)
                        }
                    },
                    None => Err(ApiError::Decode),
                }
            }
        },
    }
}

fn expiry_from(expires_at: Option<u32>) -> (r: Option<i64>)
    ensures
        r == expiry_of(expires_at),
{
    match expires_at {
        Some(t) => Some(t as i64),
        None => None,
    }
}

/// The client's credentials and its current token pair.
#[derive(Debug)]
pub struct AuthData {
    pub client_secret: String,
    pub client_id: String,
    pub refresh_token: String,
    pub access_token: String,
    /// When the access token expires, in seconds since the Unix epoch, where
    /// the service said.
    pub token_expire_time: Option<i64>,
}

/// The query of the authorization-code exchange.
pub open spec fn exchange_query(client_id: Seq<char>, client_secret: Seq<char>, code: Seq<char>) -> Seq<
    (Seq<char>, Seq<char>),
> {
    seq![
        ("client_id"@, client_id),
        ("client_secret"@, client_secret),
        ("code"@, code),
        ("grant_type"@, "authorization_code"@),
    ]
}

/// The query of a refresh-token renewal.
pub open spec fn refresh_query(
    client_id: Seq<char>,
    client_secret: Seq<char>,
    refresh_token: Seq<char>,
) -> Seq<(Seq<char>, Seq<char>)> {
    seq![
        ("client_id"@, client_id),
        ("client_secret"@, client_secret),
        ("grant_type"@, "refresh_token"@),
        ("refresh_token"@, refresh_token),
    ]
}

impl AuthData {
    /// The access token is non-empty.
    pub open spec fn wf(&self) -> bool {
        self.access_token@.len() > 0
    }

    /// The credentials that an accepted exchange yields.
    pub open spec fn from_token(settings: Settings, t: Token) -> AuthData {
        AuthData {
            client_secret: settings.client_secret,
            client_id: settings.client_id,
            refresh_token: t.refresh_token,
            access_token: t.access_token,
            token_expire_time: expiry_of(t.expires_at),
        }
    }

    /// These credentials with the token pair and expiry of `t`.
    pub open spec fn with_token(self, t: Token) -> AuthData {
        AuthData {
            client_secret: self.client_secret,
            client_id: self.client_id,
            refresh_token: t.refresh_token,
            access_token: t.access_token,
            token_expire_time: expiry_of(t.expires_at),
        }
    }

    /// The URL to POST for the authorization-code exchange.
    pub fn exchange_url(settings: &Settings) -> (r: Result<String, ApiError>)
        ensures
            match url_with_query(
                EXCHANGE_ENDPOINT@,
                exchange_query(settings.client_id@, settings.client_secret@, settings.oauth_code@),
            ) {
                Some(u) => r matches Ok(s) && s@ == u,
                None => r == Err::<String, ApiError>(ApiError::Config),
            },
    {
        let mut params: Vec<(String, String)> = Vec::new();
        params.push(("client_id".to_owned(), settings.client_id.clone()));
        params.push(("client_secret".to_owned(), settings.client_secret.clone()));
        params.push(("code".to_owned(), settings.oauth_code.clone()));
        params.push(("grant_type".to_owned(), "authorization_code".to_owned()));
        assert(pairs_view(params@) =~= exchange_query(
            settings.client_id@,
            settings.client_secret@,
            settings.oauth_code@,
        ));
        url_for(EXCHANGE_ENDPOINT, &params)
    }

    /// Builds the credentials from the exchange's reply: they hold the
    /// client's id and secret and the token pair of the body.
    pub fn new(settings: Settings, reply: Reply<Token>) -> (r: Result<AuthData, ApiError>)
        ensures
            r == match token_outcome(reply) {
                Ok(t) => Ok(AuthData::from_token(settings, t)),
                Err(e) => Err::<AuthData, ApiError>(e),
            },
            r matches Ok(a) ==> a.wf(),
    {
        match accept_token(reply) {
            Ok(t) => Ok(
                AuthData {
                    client_secret: settings.client_secret,
                    client_id: settings.client_id,
                    refresh_token: t.refresh_token,
                    access_token: t.access_token,
                    token_expire_time: expiry_from(t.expires_at),
                },
            ),
            Err(e) => Err(e),
        }
    }

    /// The URL to POST for a refresh-token renewal; a renewal needs a
    /// non-empty refresh token, and its absence is a configuration error.
    pub fn refresh_url(&self) -> (r: Result<String, ApiError>)
        ensures
            self.refresh_token@.len() == 0 ==> r == Err::<String, ApiError>(ApiError::Config),
            self.refresh_token@.len() > 0 ==> match url_with_query(
                REFRESH_ENDPOINT@,
                refresh_query(self.client_id@, self.client_secret@, self.refresh_token@),
            ) {
                Some(u) => r matches Ok(s) && s@ == u,
                None => r == Err::<String, ApiError>(ApiError::Config),
            },
    {
        if self.refresh_token.as_str().is_empty() {
            return Err(ApiError::Config);
        }
        let mut params: Vec<(String, String)> = Vec::new();
        params.push(("client_id".to_owned(), self.client_id.clone()));
        params.push(("client_secret".to_owned(), self.client_secret.clone()));
        params.push(("grant_type".to_owned(), "refresh_token".to_owned()));
        params.push(("refresh_token".to_owned(), self.refresh_token.clone()));
        assert(pairs_view(params@) =~= refresh_query(
            self.client_id@,
            self.client_secret@,
            self.refresh_token@,
        ));
        url_for(REFRESH_ENDPOINT, &params)
    }

    /// Takes the renewal's reply: on success the token pair and expiry are
    /// replaced by those of the body; on any failure nothing changes.
    pub fn request_new_token(&mut self, reply: Reply<Token>) -> (r: Result<(), ApiError>)
        ensures
            match token_outcome(reply) {
                Ok(t) => r is Ok && *final(self) == old(self).with_token(t),
                Err(e) => r == Err::<(), ApiError>(e) && *final(self) == *old(self),
            },
            old(self).wf() ==> final(self).wf(),
    {
        match accept_token(reply) {
            Ok(t) => {
                self.refresh_token = t.refresh_token;
                self.access_token = t.access_token;
                self.token_expire_time = expiry_from(t.expires_at);
                Ok(())
            },
            Err(e) => Err(e),
        }
    }
}

/// A token endpoint that answers with any status other than 200 gives an
/// authorization error carrying that status, whatever the body; the exchange
/// then yields no credentials and a renewal leaves them as they were.
pub proof fn lemma_non_ok_status_fails(status: u16, body: Option<Token>)
    requires
        status != STATUS_OK,
    ensures
        token_outcome(Reply::Answered { status, body }) == Err::<Token, ApiError>(
            ApiError::Auth(status),
        ),
{
}

/// Credentials built from an accepted exchange hold the tokens of its body.
pub proof fn lemma_exchange_keeps_tokens(settings: Settings, reply: Reply<Token>)
    requires
        token_outcome(reply) is Ok,
    ensures
        ({
            let t = token_outcome(reply)->Ok_0;
            let a = AuthData::from_token(settings, t);
            a.access_token@ == t.access_token@ && a.refresh_token@ == t.refresh_token@
                && a.client_id == settings.client_id && a.client_secret == settings.client_secret
                && a.token_expire_time == expiry_of(t.expires_at) && a.wf()
        }),
{
}

/// After an exchange and then a renewal, both accepted, the token pair and
/// expiry are those of the renewal's body, and the client's id and secret
/// those of the settings.
pub proof fn lemma_refresh_takes_second(settings: Settings, first: Reply<Token>, second: Reply<Token>)
    requires
        token_outcome(first) is Ok,
        token_outcome(second) is Ok,
    ensures
        ({
            let t = token_outcome(second)->Ok_0;
            let a = AuthData::from_token(settings, token_outcome(first)->Ok_0).with_token(t);
            a.refresh_token == t.refresh_token && a.access_token == t.access_token
                && a.token_expire_time == expiry_of(t.expires_at) && a.client_id
                == settings.client_id && a.client_secret == settings.client_secret && a.wf()
        }),
{
}

} // verus!
