use builder_gateway::error::{CoreError, Error, NetError, QueryError};
use builder_gateway::status::{wire_status, HttpStatus, WireStatusCode};
use builder_gateway::status::WireStatusCode as W;

const ALL_CODES: [WireStatusCode; 26] = [
    WireStatusCode::Timeout,
    WireStatusCode::RemoteRejected,
    WireStatusCode::EntityNotFound,
    WireStatusCode::EntityConflict,
    WireStatusCode::AccessDenied,
    WireStatusCode::SessionExpired,
    WireStatusCode::BadRemoteReply,
    WireStatusCode::SecretKeyFetch,
    WireStatusCode::VcsClone,
    WireStatusCode::NoShard,
    WireStatusCode::Sock,
    WireStatusCode::RemoteUnavailable,
    WireStatusCode::BadToken,
    WireStatusCode::GroupNotComplete,
    WireStatusCode::Build,
    WireStatusCode::Export,
    WireStatusCode::PostProcessor,
    WireStatusCode::SecretKeyImport,
    WireStatusCode::InvalidIntegrations,
    WireStatusCode::PartialJobGroupPromote,
    WireStatusCode::Bug,
    WireStatusCode::Sys,
    WireStatusCode::DataStore,
    WireStatusCode::WorkspaceSetup,
    WireStatusCode::RegConflict,
    WireStatusCode::RegNotFound,
];

fn expected(code: WireStatusCode) -> u16 {
    match code {
        W::Timeout => 504,
        W::RemoteRejected => 406,
        W::EntityNotFound => 404,
        W::EntityConflict => 409,
        W::AccessDenied | W::SessionExpired => 401,
        W::BadRemoteReply | W::SecretKeyFetch | W::VcsClone => 502,
        W::NoShard | W::Sock | W::RemoteUnavailable => 503,
        W::BadToken => 403,
        W::GroupNotComplete | W::Build | W::Export | W::PostProcessor | W::SecretKeyImport
        | W::InvalidIntegrations => 422,
        W::PartialJobGroupPromote => 206,
        W::Bug | W::Sys | W::DataStore | W::WorkspaceSetup | W::RegConflict | W::RegNotFound => 500,
    }
}

#[test]
fn every_wire_code_has_its_status() {
    for code in ALL_CODES {
        let status = wire_status(code).as_u16();
        assert_eq!(status, expected(code), "{:?}", code);
        assert!((100..=999).contains(&status));
    }
}

#[test]
fn wire_status_examples() {
    assert_eq!(wire_status(WireStatusCode::AccessDenied).as_u16(), 401);
    assert_eq!(wire_status(WireStatusCode::EntityNotFound).as_u16(), 404);
    assert_eq!(wire_status(WireStatusCode::PartialJobGroupPromote).as_u16(), 206);
    assert_eq!(wire_status(WireStatusCode::Timeout).as_u16(), 504);
    assert_eq!(wire_status(WireStatusCode::BadToken).as_u16(), 403);
}

#[test]
fn net_error_delegates_to_wire_status() {
    for code in ALL_CODES {
        let e = Error::NetError(NetError { code, message: "remote said no".to_string() });
        assert_eq!(e.http_status().as_u16(), expected(code));
        assert_eq!(e.message(), "remote said no");
    }
}

#[test]
fn status_is_the_same_on_repeated_calls() {
    let e = Error::NetError(NetError {
        code: WireStatusCode::EntityConflict,
        message: "exists".to_string(),
    });
    let first = e.http_status();
    for _ in 0..10 {
        assert_eq!(e.http_status(), first);
    }
}

#[test]
fn missing_record_is_not_found() {
    let e = Error::DieselError(QueryError { not_found: true, message: "Record not found".to_string() });
    assert_eq!(e.http_status().as_u16(), 404);
    let e = Error::DieselError(QueryError { not_found: false, message: "broken".to_string() });
    assert_eq!(e.http_status().as_u16(), 500);
}

#[test]
fn core_rpc_code_is_forwarded_when_valid() {
    let e = Error::BuilderCore(CoreError { rpc_code: Some(418), message: "teapot".to_string() });
    assert_eq!(e.http_status().as_u16(), 418);
    let e = Error::BuilderCore(CoreError { rpc_code: Some(42), message: "odd".to_string() });
    assert_eq!(e.http_status().as_u16(), 500);
    let e = Error::BuilderCore(CoreError { rpc_code: None, message: "other".to_string() });
    assert_eq!(e.http_status().as_u16(), 500);
}

#[test]
fn other_categories_default_to_internal_error() {
    let cases = vec![
        Error::JobCreate("duplicate key".to_string()),
        Error::DbPoolTimeout("timed out".to_string()),
        Error::JobLogArchive(7, "denied".to_string()),
        Error::CaughtPanic("boom".to_string(), "worker".to_string()),
        Error::UnknownJobGroupState,
        Error::HttpResponse(401, "invalid_grant".to_string()),
        Error::Serialization("no valid member sub".to_string()),
    ];
    for e in cases {
        assert_eq!(e.http_status().as_u16(), 500);
    }
}

#[test]
fn messages_embed_their_cause() {
    assert_eq!(
        Error::JobSetState("deadlock".to_string()).message(),
        "Database error setting job state, deadlock"
    );
    assert_eq!(
        Error::DbPoolTimeout("timed out".to_string()).message(),
        "Timeout getting connection from the database pool, timed out"
    );
    assert_eq!(
        Error::CaughtPanic("boom".to_string(), "in worker".to_string()).message(),
        "Caught a panic: boom. in worker"
    );
    assert_eq!(
        Error::BadPort("70000".to_string()).message(),
        "70000 is an invalid port. Valid range 1-65535."
    );
    assert_eq!(Error::Zmq("socket closed".to_string()).message(), "socket closed");
    assert_eq!(Error::InvalidUrl.message(), "Bad URL!");
    assert_eq!(Error::UnknownJobGroup.message(), "Unknown Group");
    assert_eq!(
        Error::LogDirIsNotDir("/var/log/x".to_string()).message(),
        "Build log directory \"/var/log/x\" is not a directory!"
    );
}

#[test]
fn messages_write_numbers_in_decimal() {
    assert_eq!(
        Error::JobLogArchive(1234567890, "denied".to_string()).message(),
        "Log archiving error for job 1234567890, denied"
    );
    assert_eq!(
        Error::JobLogRetrieval(0, "missing".to_string()).message(),
        "Log retrieval error for job 0, missing"
    );
    assert_eq!(
        Error::JobLogRetrieval(u64::MAX, "x".to_string()).message(),
        "Log retrieval error for job 18446744073709551615, x"
    );
    assert_eq!(
        Error::HttpResponse(401, "invalid_grant".to_string()).message(),
        "HTTP response error, status 401: invalid_grant"
    );
}

#[test]
fn descriptions() {
    assert_eq!(Error::CaughtPanic("a".to_string(), "b".to_string()).description(), "Caught a panic");
    assert_eq!(Error::InvalidUrl.description(), "Bad Url!");
    assert_eq!(Error::JobGet("gone".to_string()).description(), "gone");
    assert_eq!(
        Error::LogDirNotWritable("/tmp/l".to_string()).description(),
        "Build log directory is not writable"
    );
}

#[test]
fn http_status_from_u16_bounds() {
    assert!(HttpStatus::from_u16(99).is_none());
    assert_eq!(HttpStatus::from_u16(100).unwrap().as_u16(), 100);
    assert_eq!(HttpStatus::from_u16(999).unwrap().as_u16(), 999);
    assert!(HttpStatus::from_u16(1000).is_none());
    assert_eq!(HttpStatus::from_u16(302).unwrap().as_u16(), 302);
}

#[test]
fn empty_causes_still_give_a_message() {
    assert_eq!(Error::Zmq(String::new()).message(), "ZeroMQ error");
    assert_eq!(Error::IO(String::new()).message(), "I/O error");
    assert_eq!(
        Error::NetError(NetError { code: WireStatusCode::Sys, message: String::new() }).message(),
        "Network error"
    );
    assert_eq!(
        Error::JobGet(String::new()).message(),
        "Database error getting job data, "
    );
    assert!(!Error::UnknownJobState(String::new()).message().is_empty());
}
