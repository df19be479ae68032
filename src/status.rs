//! Status codes exchanged between internal services, and the HTTP statuses
//! they are reported as to external clients.
use vstd::prelude::*;

verus! {

/// A failure category that internal services report to one another.
#[derive(Clone, Copy, Debug, PartialEq, Eq, Structural)]
pub enum WireStatusCode {
    Timeout,
    RemoteRejected,
    EntityNotFound,
    EntityConflict,
    AccessDenied,
    SessionExpired,
    BadRemoteReply,
    SecretKeyFetch,
    VcsClone,
    NoShard,
    Sock,
    RemoteUnavailable,
    BadToken,
    GroupNotComplete,
    Build,
    Export,
    PostProcessor,
    SecretKeyImport,
    InvalidIntegrations,
    PartialJobGroupPromote,
    Bug,
    Sys,
    DataStore,
    WorkspaceSetup,
    RegConflict,
    RegNotFound,
}

/// An HTTP status code as seen by external clients: always in `100..=999`,
/// the range that HTTP status codes are written in.
#[derive(Clone, Copy, Debug, PartialEq, Eq, Structural)]
pub struct HttpStatus {
    code: u16,
}

/// Whether `code` can be an HTTP status code.
pub open spec fn is_status_code(code: int) -> bool {
    100 <= code <= 999
}

/// The HTTP status code that a wire status code is reported as.
pub open spec fn wire_http(code: WireStatusCode) -> u16 {
    match code {
        WireStatusCode::Timeout => 504,
        WireStatusCode::RemoteRejected => 406,
        WireStatusCode::EntityNotFound => 404,
        WireStatusCode::EntityConflict => 409,
        WireStatusCode::AccessDenied | WireStatusCode::SessionExpired => 401,
        WireStatusCode::BadRemoteReply
        | WireStatusCode::SecretKeyFetch
        | WireStatusCode::VcsClone => 502,
        WireStatusCode::NoShard
        | WireStatusCode::Sock
        | WireStatusCode::RemoteUnavailable => 503,
        WireStatusCode::BadToken => 403,
        WireStatusCode::GroupNotComplete
        | WireStatusCode::Build
        | WireStatusCode::Export
        | WireStatusCode::PostProcessor
        | WireStatusCode::SecretKeyImport
        | WireStatusCode::InvalidIntegrations => 422,
        WireStatusCode::PartialJobGroupPromote => 206,
        WireStatusCode::Bug
        | WireStatusCode::Sys
        | WireStatusCode::DataStore
        | WireStatusCode::WorkspaceSetup
        | WireStatusCode::RegConflict
        | WireStatusCode::RegNotFound => 500,
    }
}

impl View for HttpStatus {
    type V = u16;

    closed spec fn view(&self) -> u16 {
        self.code
    }
}

impl HttpStatus {
    #[verifier::type_invariant]
    spec fn inv(self) -> bool {
        is_status_code(self.code as int)
    }

    /// The status with the given code, where `code` lies in `100..=999`.
    pub fn from_u16(code: u16) -> (r: Option<HttpStatus>)
        ensures
            r is Some <==> is_status_code(code as int),
            r matches Some(s) ==> s@ == code,
    {
        if 100 <= code && code <= 999 {
            Some(HttpStatus { code })
        } else {
            None
        }
    }

    /// The numeric code of this status.
    pub fn as_u16(&self) -> (r: u16)
        ensures
            r == self@,
            is_status_code(r as int),
    {
        proof {
            use_type_invariant(self);
        }
        self.code
    }

    /// `500 Internal Server Error`.
    pub fn internal_server_error() -> (r: HttpStatus)
        ensures
            r@ == 500,
    {
        HttpStatus { code: 500 }
    }

    /// `404 Not Found`.
    pub fn not_found() -> (r: HttpStatus)
        ensures
            r@ == 404,
    {
        HttpStatus { code: 404 }
    }
}

/// The HTTP status that a wire status code is reported as to external
/// clients. Every code has exactly one.
pub fn wire_status(code: WireStatusCode) -> (r: HttpStatus)
    ensures
        r@ == wire_http(code),
{
    let n: u16 = match code {
        WireStatusCode::Timeout => 504,
        WireStatusCode::RemoteRejected => 406,
        WireStatusCode::EntityNotFound => 404,
        WireStatusCode::EntityConflict => 409,
        WireStatusCode::AccessDenied | WireStatusCode::SessionExpired => 401,
        WireStatusCode::BadRemoteReply
        | WireStatusCode::SecretKeyFetch
        | WireStatusCode::VcsClone => 502,
        WireStatusCode::NoShard
        | WireStatusCode::Sock
        | WireStatusCode::RemoteUnavailable => 503,
        WireStatusCode::BadToken => 403,
        WireStatusCode::GroupNotComplete
        | WireStatusCode::Build
        | WireStatusCode::Export
        | WireStatusCode::PostProcessor
        | WireStatusCode::SecretKeyImport
        | WireStatusCode::InvalidIntegrations => 422,
        WireStatusCode::PartialJobGroupPromote => 206,
        WireStatusCode::Bug
        | WireStatusCode::Sys
        | WireStatusCode::DataStore
        | WireStatusCode::WorkspaceSetup
        | WireStatusCode::RegConflict
        | WireStatusCode::RegNotFound => 500,
    };
    HttpStatus { code: n }
}

/// Every wire status code is reported as a standard HTTP status code: one of
/// the statuses of the mapping above, and only that one.
pub proof fn lemma_wire_status_total(code: WireStatusCode)
    ensures
        is_status_code(wire_http(code) as int),
        wire_http(code) == 504 || wire_http(code) == 406 || wire_http(code) == 404
            || wire_http(code) == 409 || wire_http(code) == 401 || wire_http(code) == 502
            || wire_http(code) == 503 || wire_http(code) == 403 || wire_http(code) == 422
            || wire_http(code) == 206 || wire_http(code) == 500,
        forall|s: HttpStatus, t: HttpStatus|
            s@ == wire_http(code) && t@ == wire_http(code) ==> s == t,
{
}

} // verus!
