//! The authorization code exchange with an Okta identity provider, as the
//! decisions taken between HTTP round trips. The caller performs each request
//! that a step hands out and hands back the reply.
use vstd::prelude::*;

use crate::error::Error;
use crate::json::{json_text_member, text_member};

verus! {

/// The settings of one OAuth2 identity provider.
#[derive(Clone, Debug)]
pub struct OAuth2Cfg {
    pub client_id: String,
    pub client_secret: String,
    pub redirect_url: String,
    pub token_url: String,
    pub userinfo_url: String,
}

/// A user as an identity provider describes it. `id` is unique only among the
/// users of one provider.
#[derive(Clone, Debug)]
pub struct OAuth2User {
    pub id: String,
    pub username: String,
    pub email: Option<String>,
}

impl View for OAuth2User {
    type V = (Seq<char>, Seq<char>, Option<Seq<char>>);

    open spec fn view(&self) -> Self::V {
        (
            self.id@,
            self.username@,
            match self.email {
                Some(e) => Some(e@),
                None => None,
            },
        )
    }
}

/// The outcome of a successful exchange: the access token, as the provider
/// issued it, and the user it belongs to.
#[derive(Clone, Debug)]
pub struct AuthenticationResult {
    pub token: String,
    pub user: OAuth2User,
}

/// The HTTP method of a request to the provider.
#[derive(Clone, Copy, Debug, PartialEq, Eq, Structural)]
pub enum HttpMethod {
    Get,
    Post,
}

/// An HTTP request to be sent to the provider.
#[derive(Clone, Debug)]
pub struct HttpRequest {
    pub method: HttpMethod,
    pub url: String,
    pub headers: Vec<(String, String)>,
    pub body: String,
}

/// The provider's reply to a request: its status code and its body.
#[derive(Clone, Debug)]
pub struct HttpReply {
    pub status: u16,
    pub body: String,
}

/// How far an exchange has gone.
#[derive(Clone, Debug)]
pub enum AuthState {
    /// The code was sent to the token endpoint.
    AwaitingToken,
    /// The token was issued; the user's profile was asked for with it.
    AwaitingUser(String),
}

/// What to do next: send a request and hand its reply to `on_reply` with the
/// state, or stop with the outcome.
#[derive(Debug)]
pub enum AuthStep {
    Send(AuthState, HttpRequest),
    Done(Result<AuthenticationResult, Error>),
}

/// An identity provider that follows Okta's endpoints and reply shapes.
#[derive(Clone, Copy, Debug)]
pub struct Okta;

/// Whether a status code is a success, `200..=299`.
pub open spec fn is_success(status: u16) -> bool {
    200 <= status <= 299
}

/// The form that exchanges `code` for a token.
pub open spec fn token_form(config: OAuth2Cfg, code: Seq<char>) -> Seq<char> {
    "client_id="@ + config.client_id@ + "&client_secret="@ + config.client_secret@
        + "&grant_type=authorization_code&code="@ + code + "&redirect_uri="@
        + config.redirect_url@
}

/// Whether header `i` of `r` is `name: value`.
pub open spec fn has_header(r: HttpRequest, i: int, name: Seq<char>, value: Seq<char>) -> bool {
    0 <= i < r.headers@.len() && r.headers@[i].0@ == name && r.headers@[i].1@ == value
}

/// `r` is the request that exchanges `code` for a token: a form POST to the
/// token endpoint that asks for JSON.
pub open spec fn is_token_request(config: OAuth2Cfg, code: Seq<char>, r: HttpRequest) -> bool {
    &&& r.method == HttpMethod::Post
    &&& r.url@ == config.token_url@
    &&& r.headers@.len() == 2
    &&& has_header(r, 0, "Accept"@, "application/json"@)
    &&& has_header(r, 1, "Content-Type"@, "application/x-www-form-urlencoded"@)
    &&& r.body@ == token_form(config, code)
}

/// `r` is the request for the profile of the user that `token` was issued
/// to: a GET of the userinfo endpoint, with the token as bearer, that asks
/// for JSON.
pub open spec fn is_user_request(config: OAuth2Cfg, token: Seq<char>, r: HttpRequest) -> bool {
    &&& r.method == HttpMethod::Get
    &&& r.url@ == config.userinfo_url@
    &&& r.headers@.len() == 2
    &&& has_header(r, 0, "Accept"@, "application/json"@)
    &&& has_header(r, 1, "Authorization"@, "Bearer "@ + token)
    &&& r.body@.len() == 0
}

/// The cause held by the failure of a reply whose member `key` cannot be read.
pub open spec fn unreadable_member(key: Seq<char>) -> Seq<char> {
    "no valid member "@ + key
}

/// `e` is the failure for a reply that is not a success: its status and
/// its body, verbatim.
pub open spec fn is_rejection(reply: HttpReply, e: Error) -> bool {
    e matches Error::HttpResponse(s, b) && s == reply.status && b@ == reply.body@
}

/// `e` is the failure for a successful reply whose member `key` cannot be read.
pub open spec fn is_malformed(key: Seq<char>, e: Error) -> bool {
    e matches Error::Serialization(c) && c@ == unreadable_member(key)
}

/// `r` is what a reply of the token endpoint stands for.
pub open spec fn token_reply_result(reply: HttpReply, r: Result<String, Error>) -> bool {
    if !is_success(reply.status) {
        r matches Err(e) && is_rejection(reply, e)
    } else {
        match json_text_member(reply.body@, "access_token"@) {
            Some(Some(t)) => r matches Ok(x) && x@ == t,
            _ => r matches Err(e) && is_malformed("access_token"@, e),
        }
    }
}

/// The user that a userinfo body describes, where its members `sub` and
/// `preferred_username` are strings and `email` is a string, null or absent.
pub open spec fn decoded_user(body: Seq<char>) -> Option<
    (Seq<char>, Seq<char>, Option<Seq<char>>),
> {
    match (
        json_text_member(body, "sub"@),
        json_text_member(body, "preferred_username"@),
        json_text_member(body, "email"@),
    ) {
        (Some(Some(id)), Some(Some(name)), Some(email)) => Some((id, name, email)),
        _ => None,
    }
}

/// The first member of a userinfo body that cannot be read.
pub open spec fn first_unreadable(body: Seq<char>) -> Seq<char> {
    if !(json_text_member(body, "sub"@) matches Some(Some(_))) {
        "sub"@
    } else if !(json_text_member(body, "preferred_username"@) matches Some(Some(_))) {
        "preferred_username"@
    } else {
        "email"@
    }
}

/// `r` is what a reply of the userinfo endpoint stands for.
pub open spec fn user_reply_result(reply: HttpReply, r: Result<OAuth2User, Error>) -> bool {
    if !is_success(reply.status) {
        r matches Err(e) && is_rejection(reply, e)
    } else {
        match decoded_user(reply.body@) {
            Some(u) => r matches Ok(x) && x@ == u,
            None => r matches Err(e) && is_malformed(first_unreadable(reply.body@), e),
        }
    }
}

/// The failure for a successful reply whose member `key` cannot be read.
fn malformed(key: &str) -> (r: Error)
    ensures
        is_malformed(key@, r),
{
    let mut cause = String::from_str("no valid member ");
    cause.append(key);
    Error::Serialization(cause)
}

/// The failure for a reply that is not a success.
fn rejection(reply: &HttpReply) -> (r: Error)
    ensures
        is_rejection(*reply, r),
{
    Error::HttpResponse(reply.status, reply.body.clone())
}

impl Okta {
    /// The request that exchanges an authorization code for a token: a form
    /// POST to the token endpoint that asks for JSON.
    pub fn token_request(&self, config: &OAuth2Cfg, code: &str) -> (r: HttpRequest)
        ensures
            is_token_request(*config, code@, r),
    {
        let mut body = String::from_str("client_id=");
        body.append(config.client_id.as_str());
        body.append("&client_secret=");
        body.append(config.client_secret.as_str());
        body.append("&grant_type=authorization_code&code=");
        body.append(code);
        body.append("&redirect_uri=");
        body.append(config.redirect_url.as_str());
        let headers = vec![
            (String::from_str("Accept"), String::from_str("application/json")),
            (
                String::from_str("Content-Type"),
                String::from_str("application/x-www-form-urlencoded"),
            ),
        ];
        HttpRequest { method: HttpMethod::Post, url: config.token_url.clone(), headers, body }
    }

    /// The access token in a reply of the token endpoint. A reply that is not
    /// a success fails with its status and body; a successful one whose body
    /// has no string `access_token` fails as unreadable.
    pub fn token_from_reply(&self, reply: &HttpReply) -> (r: Result<String, Error>)
        ensures
            token_reply_result(*reply, r),
    {
        if !(200 <= reply.status && reply.status <= 299) {
            return Err(rejection(reply));
        }
        match text_member(reply.body.as_str(), "access_token") {
            Some(Some(t)) => Ok(t),
            _ => Err(malformed("access_token")),
        }
    }

    /// The request for the profile of the user that `token` was issued to: a
    /// GET of the userinfo endpoint, with the token as bearer, that asks for
    /// JSON.
    pub fn user_request(&self, config: &OAuth2Cfg, token: &str) -> (r: HttpRequest)
        ensures
            is_user_request(*config, token@, r),
    {
        let mut bearer = String::from_str("Bearer ");
        bearer.append(token);
        let headers = vec![
            (String::from_str("Accept"), String::from_str("application/json")),
            (String::from_str("Authorization"), bearer),
        ];
        HttpRequest {
            method: HttpMethod::Get,
            url: config.userinfo_url.clone(),
            headers,
            body: String::new(),
        }
    }

    /// The user that a reply of the userinfo endpoint describes. A reply that
    /// is not a success fails with its status and body; a successful one
    /// whose body does not describe a user fails as unreadable.
    pub fn user_from_reply(&self, reply: &HttpReply) -> (r: Result<OAuth2User, Error>)
        ensures
            user_reply_result(*reply, r),
    {
        if !(200 <= reply.status && reply.status <= 299) {
            return Err(rejection(reply));
        }
        let body = reply.body.as_str();
        let id = match text_member(body, "sub") {
            Some(Some(id)) => id,
            _ => return Err(malformed("sub")),
        };
        let username = match text_member(body, "preferred_username") {
            Some(Some(name)) => name,
            _ => return Err(malformed("preferred_username")),
        };
        let email = match text_member(body, "email") {
            Some(email) => email,
            None => return Err(malformed("email")),
        };
        Ok(OAuth2User { id, username, email })
    }

    /// The first step of an exchange: send `code` to the token endpoint.
    pub fn start(&self, config: &OAuth2Cfg, code: &str) -> (r: AuthStep)
        ensures
            r matches AuthStep::Send(AuthState::AwaitingToken, q) && is_token_request(
                *config,
                code@,
                q,
            ),
    {
        AuthStep::Send(AuthState::AwaitingToken, self.token_request(config, code))
    }

    /// The step after `reply` came back to the request sent in `state`. The
    /// token's reply either ends the exchange with its failure, or leads to
    /// the userinfo request with the token issued; the userinfo reply ends it,
    /// with the token and the user, or with the failure.
    pub fn on_reply(&self, config: &OAuth2Cfg, state: AuthState, reply: &HttpReply) -> (r: AuthStep)
        ensures
            state is AwaitingToken ==> {
                ||| r matches AuthStep::Done(Err(e)) && token_reply_result(*reply, Err(e))
                ||| r matches AuthStep::Send(AuthState::AwaitingUser(t), q) && token_reply_result(
                    *reply,
                    Ok(t),
                ) && is_user_request(*config, t@, q)
            },
            state matches AuthState::AwaitingUser(token) ==> {
                ||| r matches AuthStep::Done(Err(e)) && user_reply_result(*reply, Err(e))
                ||| r matches AuthStep::Done(Ok(a)) && a.token@ == token@ && user_reply_result(
                    *reply,
                    Ok(a.user),
                )
            },
    {
        match state {
            AuthState::AwaitingToken => match self.token_from_reply(reply) {
                Ok(t) => {
                    let q = self.user_request(config, t.as_str());
                    AuthStep::Send(AuthState::AwaitingUser(t), q)
                },
                Err(e) => AuthStep::Done(Err(e)),
            },
            AuthState::AwaitingUser(token) => match self.user_from_reply(reply) {
                Ok(user) => AuthStep::Done(Ok(AuthenticationResult { token, user })),
                Err(e) => AuthStep::Done(Err(e)),
            },
        }
    }
}

/// A failure of the exchange with a provider, whether it rejected a request
/// or answered with a body that cannot be read, is reported to external
/// clients as a plain `500`: its status and body stay in the failure, for
/// diagnosis, and out of the response status.
pub proof fn lemma_provider_failure_is_internal(reply: HttpReply, key: Seq<char>, e: Error)
    requires
        is_rejection(reply, e) || is_malformed(key, e),
    ensures
        e.http_code() == 500,
{
}

} // verus!
