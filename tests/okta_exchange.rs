use builder_gateway::error::Error;
use builder_gateway::okta::{AuthState, AuthStep, HttpMethod, HttpReply, OAuth2Cfg, Okta};

fn config() -> OAuth2Cfg {
    OAuth2Cfg {
        client_id: "cid".to_string(),
        client_secret: "SECRET-REDACTED".to_string(),
        redirect_url: "https://builder.example/cb".to_string(),
        token_url: "https://idp.example/token".to_string(),
        userinfo_url: "https://idp.example/userinfo".to_string(),
    }
}

fn reply(status: u16, body: &str) -> HttpReply {
    HttpReply { status, body: body.to_string() }
}

/// Runs an exchange against canned replies, one per request sent.
fn run(code: &str, replies: Vec<HttpReply>) -> (usize, Result<builder_gateway::okta::AuthenticationResult, Error>) {
    let okta = Okta;
    let cfg = config();
    let mut step = okta.start(&cfg, code);
    let mut sent = 0;
    let mut replies = replies.into_iter();
    loop {
        match step {
            AuthStep::Send(state, _request) => {
                sent += 1;
                let r = replies.next().expect("a reply for each request");
                step = okta.on_reply(&cfg, state, &r);
            }
            AuthStep::Done(result) => return (sent, result),
        }
    }
}

#[test]
fn happy_path() {
    let (sent, result) = run(
        "the-code",
        vec![
            reply(200, r#"{"access_token":"abc"}"#),
            reply(200, r#"{"sub":"u1","preferred_username":"alice","email":"a@x.com"}"#),
        ],
    );
    assert_eq!(sent, 2);
    let result = result.unwrap();
    assert_eq!(result.token, "abc");
    assert_eq!(result.user.id, "u1");
    assert_eq!(result.user.username, "alice");
    assert_eq!(result.user.email.as_deref(), Some("a@x.com"));
}

#[test]
fn rejected_exchange() {
    let (sent, result) = run("bad-code", vec![reply(401, "invalid_grant")]);
    assert_eq!(sent, 1);
    match result {
        Err(e) => {
            assert_eq!(e.http_status().as_u16(), 500);
            match e {
                Error::HttpResponse(status, body) => {
                    assert_eq!(status, 401);
                    assert_eq!(body, "invalid_grant");
                }
                other => panic!("unexpected failure {:?}", other),
            }
        }
        Ok(_) => panic!("a rejected exchange must fail"),
    }
}

#[test]
fn malformed_userinfo() {
    let (_, result) = run(
        "the-code",
        vec![reply(200, r#"{"access_token":"abc"}"#), reply(200, "this is not json")],
    );
    match result {
        Err(Error::Serialization(cause)) => assert_eq!(cause, "no valid member sub"),
        other => panic!("unexpected outcome {:?}", other),
    }
}

#[test]
fn malformed_token_reply() {
    let (sent, result) = run("c", vec![reply(200, r#"{"token":"abc"}"#)]);
    assert_eq!(sent, 1);
    match result {
        Err(Error::Serialization(cause)) => assert_eq!(cause, "no valid member access_token"),
        other => panic!("unexpected outcome {:?}", other),
    }
    let (_, result) = run("c", vec![reply(200, r#"{"access_token":5}"#)]);
    assert!(matches!(result, Err(Error::Serialization(_))));
}

#[test]
fn missing_email_is_absent() {
    let (_, result) = run(
        "the-code",
        vec![
            reply(200, r#"{"access_token":"abc","expires_in":3600}"#),
            reply(200, r#"{"sub":"u2","preferred_username":"bob"}"#),
        ],
    );
    let result = result.unwrap();
    assert_eq!(result.user.id, "u2");
    assert_eq!(result.user.username, "bob");
    assert!(result.user.email.is_none());
}

#[test]
fn null_email_is_absent_and_numeric_email_is_malformed() {
    let okta = Okta;
    let user = okta
        .user_from_reply(&reply(200, r#"{"sub":"u3","preferred_username":"c","email":null}"#))
        .unwrap();
    assert!(user.email.is_none());
    match okta.user_from_reply(&reply(200, r#"{"sub":"u3","preferred_username":"c","email":7}"#)) {
        Err(Error::Serialization(cause)) => assert_eq!(cause, "no valid member email"),
        other => panic!("unexpected outcome {:?}", other),
    }
    match okta.user_from_reply(&reply(200, r#"{"sub":"u3"}"#)) {
        Err(Error::Serialization(cause)) => assert_eq!(cause, "no valid member preferred_username"),
        other => panic!("unexpected outcome {:?}", other),
    }
}

#[test]
fn rejected_userinfo_keeps_status_and_body() {
    let (sent, result) = run(
        "the-code",
        vec![reply(200, r#"{"access_token":"abc"}"#), reply(403, "{\"error\":\"denied\"}")],
    );
    assert_eq!(sent, 2);
    match result {
        Err(Error::HttpResponse(status, body)) => {
            assert_eq!(status, 403);
            assert_eq!(body, "{\"error\":\"denied\"}");
        }
        other => panic!("unexpected outcome {:?}", other),
    }
}

#[test]
fn token_request_shape() {
    let okta = Okta;
    let cfg = config();
    let req = okta.token_request(&cfg, "xyz");
    assert_eq!(req.method, HttpMethod::Post);
    assert_eq!(req.url, "https://idp.example/token");
    assert_eq!(
        req.body,
        "client_id=cid&client_secret=SECRET-REDACTED&grant_type=authorization_code&code=xyz&redirect_uri=https://builder.example/cb"
    );
    assert_eq!(req.headers[0], ("Accept".to_string(), "application/json".to_string()));
    assert_eq!(
        req.headers[1],
        ("Content-Type".to_string(), "application/x-www-form-urlencoded".to_string())
    );
}

#[test]
fn user_request_shape() {
    let okta = Okta;
    let cfg = config();
    let req = okta.user_request(&cfg, "abc");
    assert_eq!(req.method, HttpMethod::Get);
    assert_eq!(req.url, "https://idp.example/userinfo");
    assert_eq!(req.headers[1], ("Authorization".to_string(), "Bearer abc".to_string()));
    assert!(req.body.is_empty());
    match okta.on_reply(&cfg, AuthState::AwaitingToken, &reply(204, r#"{"access_token":"t9"}"#)) {
        AuthStep::Send(AuthState::AwaitingUser(token), q) => {
            assert_eq!(token, "t9");
            assert_eq!(q.headers[1].1, "Bearer t9");
        }
        other => panic!("unexpected step {:?}", other),
    }
}

#[test]
fn token_from_reply_reads_the_member() {
    let okta = Okta;
    assert_eq!(okta.token_from_reply(&reply(200, r#"{"access_token":"abc"}"#)).unwrap(), "abc");
    assert!(matches!(
        okta.token_from_reply(&reply(299, "[]")),
        Err(Error::Serialization(_))
    ));
    assert!(matches!(
        okta.token_from_reply(&reply(300, r#"{"access_token":"abc"}"#)),
        Err(Error::HttpResponse(300, _))
    ));
}
