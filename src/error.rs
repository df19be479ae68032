//! The closed set of failure categories of the build service, how each is
//! rendered as text, and the HTTP status each is reported as.
use vstd::prelude::*;

use crate::status::{is_status_code, wire_http, wire_status, HttpStatus, WireStatusCode};

verus! {

/// A failure of the builder core library: the HTTP status code of a remote
/// call that it reported, if that is what failed, and its message.
#[derive(Clone, Debug)]
pub struct CoreError {
    pub rpc_code: Option<u16>,
    pub message: String,
}

/// A failure of the query builder: whether it is the "no such record" case,
/// and its message.
#[derive(Clone, Debug)]
pub struct QueryError {
    pub not_found: bool,
    pub message: String,
}

/// A failure that another service reported: its wire status code and message.
#[derive(Clone, Debug)]
pub struct NetError {
    pub code: WireStatusCode,
    pub message: String,
}

/// A failure of the build service. Each case names a category and owns the
/// message of the underlying cause.
#[derive(Clone, Debug)]
pub enum Error {
    /// A port number that could not be read or lies outside `1..=65535`; holds the text given.
    BadPort(String),
    /// A failure reported by the builder core library.
    BuilderCore(CoreError),
    /// Database error creating or updating a busy worker; holds the cause's message.
    BusyWorkerUpsert(String),
    /// Database error deleting a busy worker; holds the cause's message.
    BusyWorkerDelete(String),
    /// Database error retrieving busy workers; holds the cause's message.
    BusyWorkersGet(String),
    /// A panic caught at a request boundary: its message and where it was caught.
    CaughtPanic(String, String),
    /// A failure of a connection to another service.
    ConnErr(String),
    /// A failure of the database layer.
    Db(String),
    /// Timeout getting connection from the database pool; holds the cause's message.
    DbPoolTimeout(String),
    /// Database transaction error; holds the cause's message.
    DbTransaction(String),
    /// Failed to start database transaction; holds the cause's message.
    DbTransactionStart(String),
    /// Failed to commit database transaction; holds the cause's message.
    DbTransactionCommit(String),
    /// A failure reported by the query builder.
    DieselError(QueryError),
    /// A failure reported by the package core library.
    HabitatCore(String),
    /// A URL could not be parsed.
    InvalidUrl,
    /// A failure of an input or output operation.
    IO(String),
    /// Database error creating audit entry; holds the cause's message.
    JobGroupAudit(String),
    /// Database error creating a new group; holds the cause's message.
    JobGroupCreate(String),
    /// Database error canceling a job group; holds the cause's message.
    JobGroupCancel(String),
    /// Database error getting group data; holds the cause's message.
    JobGroupGet(String),
    /// Database error getting group data for an origin; holds the cause's message.
    JobGroupOriginGet(String),
    /// Database error getting pending group; holds the cause's message.
    JobGroupPending(String),
    /// Database error setting group state; holds the cause's message.
    JobGroupSetState(String),
    /// Database error inserting a new package; holds the cause's message.
    JobGraphPackageInsert(String),
    /// Database error retrieving package statistics; holds the cause's message.
    JobGraphPackageStats(String),
    /// Database error retrieving packages; holds the cause's message.
    JobGraphPackagesGet(String),
    /// Database error setting project state; holds the cause's message.
    JobGroupProjectSetState(String),
    /// Database error creating a new job; holds the cause's message.
    JobCreate(String),
    /// Database error getting job data; holds the cause's message.
    JobGet(String),
    /// Storing the log of a job in object storage failed.
    JobLogArchive(u64, String),
    /// Fetching the log of a job from object storage failed.
    JobLogRetrieval(u64, String),
    /// Database error marking job as archived; holds the cause's message.
    JobMarkArchived(String),
    /// Database error getting pending jobs; holds the cause's message.
    JobPending(String),
    /// Database error reseting jobs; holds the cause's message.
    JobReset(String),
    /// Database error setting job log URL; holds the cause's message.
    JobSetLogUrl(String),
    /// Database error setting job state; holds the cause's message.
    JobSetState(String),
    /// Database error retrieving sync jobs; holds the cause's message.
    SyncJobs(String),
    /// The build log directory (its path) does not exist (the cause).
    LogDirDoesNotExist(String, String),
    /// The build log directory (its path) is not a directory.
    LogDirIsNotDir(String),
    /// The build log directory (its path) cannot be written.
    LogDirNotWritable(String),
    /// A failure that another service reported, with its wire status code.
    NetError(NetError),
    /// A version control installation id could not be read as a `u64`.
    ParseVCSInstallationId(String),
    /// Database error getting jobs for project; holds the cause's message.
    ProjectJobsGet(String),
    /// A message could not be encoded or decoded.
    Protobuf(String),
    /// A protocol value could not be read.
    Protocol(String),
    /// A version control system read from the database matches no known one.
    UnknownVCS,
    /// A job group read from the database matches no known group.
    UnknownJobGroup,
    /// A job group state read from the database matches no known state.
    UnknownJobGroupState,
    /// A package read from the database matches no known package.
    UnknownJobGraphPackage,
    /// A project state read from the database matches no known state.
    UnknownJobGroupProjectState,
    /// A job state read from the database matches no known state.
    UnknownJobState(String),
    /// A failure of the message transport.
    Zmq(String),
    /// An HTTP request to an identity provider could not be made or read.
    HttpClient(String),
    /// An identity provider answered with a status that is not a success: the
    /// status and the body, verbatim.
    HttpResponse(u16, String),
    /// An identity provider answered with success, but the body does not hold the expected members.
    Serialization(String),
}

/// The character of a decimal digit `d < 10`.
pub open spec fn digit_char(d: nat) -> char {
    if d == 0 {
        '0'
    } else if d == 1 {
        '1'
    } else if d == 2 {
        '2'
    } else if d == 3 {
        '3'
    } else if d == 4 {
        '4'
    } else if d == 5 {
        '5'
    } else if d == 6 {
        '6'
    } else if d == 7 {
        '7'
    } else if d == 8 {
        '8'
    } else {
        '9'
    }
}

/// The decimal digits of `n`, most significant first, without leading zeros.
pub open spec fn decimal(n: nat) -> Seq<char>
    decreases n,
{
    if n < 10 {
        seq![digit_char(n)]
    } else {
        decimal(n / 10).push(digit_char(n % 10))
    }
}

/// Relies on the `Display` impl of `u64` (through `ToString::to_string`): a
/// number is written as its decimal digits, with no sign and no leading zeros.
#[verifier::external_body]
fn decimal_text(n: u64) -> (r: String)
    ensures
        r@ == decimal(n as nat),
{
    n.to_string()
}

/// The text of `a` followed by the text of `b`.
fn joined(a: &str, b: &str) -> (r: String)
    ensures
        r@ == a@ + b@,
{
    let s = String::from_str(a);
    s.concat(b)
}

/// `s`, or `fallback` where `s` is empty.
pub open spec fn nonempty_or(s: Seq<char>, fallback: Seq<char>) -> Seq<char> {
    if s.len() == 0 {
        fallback
    } else {
        s
    }
}

/// The text of `s`, or `fallback` where `s` is empty.
fn nonempty_or_text(s: &String, fallback: &str) -> (r: String)
    ensures
        r@ == nonempty_or(s@, fallback@),
{
    if s.as_str().is_empty() {
        String::from_str(fallback)
    } else {
        s.clone()
    }
}

/// The HTTP status code that a failure of the builder core library is
/// reported as: the code of a failed remote call where it is one, else 500.
pub open spec fn core_http(e: CoreError) -> u16 {
    match e.rpc_code {
        Some(c) => if is_status_code(c as int) {
            c
        } else {
            500
        },
        None => 500,
    }
}

/// The HTTP status code that a failure of the query builder is reported as.
pub open spec fn query_http(e: QueryError) -> u16 {
    if e.not_found {
        404
    } else {
        500
    }
}

/// The HTTP status of a failure of the builder core library.
pub fn core_err_to_http(e: &CoreError) -> (r: HttpStatus)
    ensures
        r@ == core_http(*e),
{
    match e.rpc_code {
        Some(c) => match HttpStatus::from_u16(c) {
            Some(s) => s,
            None => HttpStatus::internal_server_error(),
        },
        None => HttpStatus::internal_server_error(),
    }
}

/// The HTTP status of a failure of the query builder.
pub fn query_err_to_http(e: &QueryError) -> (r: HttpStatus)
    ensures
        r@ == query_http(*e),
{
    if e.not_found {
        HttpStatus::not_found()
    } else {
        HttpStatus::internal_server_error()
    }
}

impl Error {
    /// The human-readable text of this failure. It holds the message of the
    /// underlying cause.
    pub open spec fn message_view(self) -> Seq<char> {
        match self {
            Error::BadPort(e) => e@ + " is an invalid port. Valid range 1-65535."@,
            Error::BuilderCore(e) => nonempty_or(e.message@, "Builder core error"@),
            Error::BusyWorkerUpsert(e) => "Database error creating or updating a busy worker, "@
                + e@,
            Error::BusyWorkerDelete(e) => "Database error deleting a busy worker, "@ + e@,
            Error::BusyWorkersGet(e) => "Database error retrieving busy workers, "@ + e@,
            Error::CaughtPanic(msg, source) => "Caught a panic: "@ + msg@ + ". "@ + source@,
            Error::ConnErr(e) => nonempty_or(e@, "Connection error"@),
            Error::Db(e) => nonempty_or(e@, "Database error"@),
            Error::DbPoolTimeout(e) => "Timeout getting connection from the database pool, "@ + e@,
            Error::DbTransaction(e) => "Database transaction error, "@ + e@,
            Error::DbTransactionStart(e) => "Failed to start database transaction, "@ + e@,
            Error::DbTransactionCommit(e) => "Failed to commit database transaction, "@ + e@,
            Error::DieselError(e) => nonempty_or(e.message@, "Query error"@),
            Error::HabitatCore(e) => nonempty_or(e@, "Habitat core error"@),
            Error::InvalidUrl => "Bad URL!"@,
            Error::IO(e) => nonempty_or(e@, "I/O error"@),
            Error::JobGroupAudit(e) => "Database error creating audit entry, "@ + e@,
            Error::JobGroupCreate(e) => "Database error creating a new group, "@ + e@,
            Error::JobGroupCancel(e) => "Database error canceling a job group, "@ + e@,
            Error::JobGroupGet(e) => "Database error getting group data, "@ + e@,
            Error::JobGroupOriginGet(e) => "Database error getting group data for an origin, "@
                + e@,
            Error::JobGroupPending(e) => "Database error getting pending group, "@ + e@,
            Error::JobGroupSetState(e) => "Database error setting group state, "@ + e@,
            Error::JobGraphPackageInsert(e) => "Database error inserting a new package, "@ + e@,
            Error::JobGraphPackageStats(e) => "Database error retrieving package statistics, "@
                + e@,
            Error::JobGraphPackagesGet(e) => "Database error retrieving packages, "@ + e@,
            Error::JobGroupProjectSetState(e) => "Database error setting project state, "@ + e@,
            Error::JobCreate(e) => "Database error creating a new job, "@ + e@,
            Error::JobGet(e) => "Database error getting job data, "@ + e@,
            Error::JobLogArchive(id, e) => "Log archiving error for job "@
                + decimal(id as nat)
                + ", "@
                + e@,
            Error::JobLogRetrieval(id, e) => "Log retrieval error for job "@
                + decimal(id as nat)
                + ", "@
                + e@,
            Error::JobMarkArchived(e) => "Database error marking job as archived, "@ + e@,
            Error::JobPending(e) => "Database error getting pending jobs, "@ + e@,
            Error::JobReset(e) => "Database error reseting jobs, "@ + e@,
            Error::JobSetLogUrl(e) => "Database error setting job log URL, "@ + e@,
            Error::JobSetState(e) => "Database error setting job state, "@ + e@,
            Error::SyncJobs(e) => "Database error retrieving sync jobs, "@ + e@,
            Error::LogDirDoesNotExist(path, e) => "Build log directory \""@
                + path@
                + "\" doesn't exist!: "@
                + e@,
            Error::LogDirIsNotDir(path) => "Build log directory \""@
                + path@
                + "\" is not a directory!"@,
            Error::LogDirNotWritable(path) => "Build log directory \""@
                + path@
                + "\" is not writable!"@,
            Error::NetError(e) => nonempty_or(e.message@, "Network error"@),
            Error::ParseVCSInstallationId(e) => "VCS installation id could not be parsed as u64, "@
                + e@,
            Error::ProjectJobsGet(e) => "Database error getting jobs for project, "@ + e@,
            Error::Protobuf(e) => nonempty_or(e@, "Protobuf error"@),
            Error::Protocol(e) => nonempty_or(e@, "Protocol error"@),
            Error::UnknownVCS => "Unknown VCS"@,
            Error::UnknownJobGroup => "Unknown Group"@,
            Error::UnknownJobGroupState => "Unknown Group State"@,
            Error::UnknownJobGraphPackage => "Unknown Package"@,
            Error::UnknownJobGroupProjectState => "Unknown Project State"@,
            Error::UnknownJobState(e) => nonempty_or(e@, "Unknown Job State"@),
            Error::Zmq(e) => nonempty_or(e@, "ZeroMQ error"@),
            Error::HttpClient(e) => "HTTP client error, "@ + e@,
            Error::HttpResponse(status, body) => "HTTP response error, status "@
                + decimal(status as nat)
                + ": "@
                + body@,
            Error::Serialization(e) => "Unable to read the response body, "@ + e@,
        }
    }

    /// The message of the underlying cause, for the categories that wrap one.
    pub open spec fn cause_view(self) -> Option<Seq<char>> {
        match self {
            Error::BadPort(e) => Some(e@),
            Error::BuilderCore(e) => Some(e.message@),
            Error::BusyWorkerUpsert(e) => Some(e@),
            Error::BusyWorkerDelete(e) => Some(e@),
            Error::BusyWorkersGet(e) => Some(e@),
            Error::CaughtPanic(msg, _) => Some(msg@),
            Error::ConnErr(e) => Some(e@),
            Error::Db(e) => Some(e@),
            Error::DbPoolTimeout(e) => Some(e@),
            Error::DbTransaction(e) => Some(e@),
            Error::DbTransactionStart(e) => Some(e@),
            Error::DbTransactionCommit(e) => Some(e@),
            Error::DieselError(e) => Some(e.message@),
            Error::HabitatCore(e) => Some(e@),
            Error::InvalidUrl => None,
            Error::IO(e) => Some(e@),
            Error::JobGroupAudit(e) => Some(e@),
            Error::JobGroupCreate(e) => Some(e@),
            Error::JobGroupCancel(e) => Some(e@),
            Error::JobGroupGet(e) => Some(e@),
            Error::JobGroupOriginGet(e) => Some(e@),
            Error::JobGroupPending(e) => Some(e@),
            Error::JobGroupSetState(e) => Some(e@),
            Error::JobGraphPackageInsert(e) => Some(e@),
            Error::JobGraphPackageStats(e) => Some(e@),
            Error::JobGraphPackagesGet(e) => Some(e@),
            Error::JobGroupProjectSetState(e) => Some(e@),
            Error::JobCreate(e) => Some(e@),
            Error::JobGet(e) => Some(e@),
            Error::JobLogArchive(_, e) => Some(e@),
            Error::JobLogRetrieval(_, e) => Some(e@),
            Error::JobMarkArchived(e) => Some(e@),
            Error::JobPending(e) => Some(e@),
            Error::JobReset(e) => Some(e@),
            Error::JobSetLogUrl(e) => Some(e@),
            Error::JobSetState(e) => Some(e@),
            Error::SyncJobs(e) => Some(e@),
            Error::LogDirDoesNotExist(_, e) => Some(e@),
            Error::LogDirIsNotDir(_) => None,
            Error::LogDirNotWritable(_) => None,
            Error::NetError(e) => Some(e.message@),
            Error::ParseVCSInstallationId(e) => Some(e@),
            Error::ProjectJobsGet(e) => Some(e@),
            Error::Protobuf(e) => Some(e@),
            Error::Protocol(e) => Some(e@),
            Error::UnknownVCS => None,
            Error::UnknownJobGroup => None,
            Error::UnknownJobGroupState => None,
            Error::UnknownJobGraphPackage => None,
            Error::UnknownJobGroupProjectState => None,
            Error::UnknownJobState(e) => Some(e@),
            Error::Zmq(e) => Some(e@),
            Error::HttpClient(e) => Some(e@),
            Error::HttpResponse(_, body) => Some(body@),
            Error::Serialization(e) => Some(e@),
        }
    }

    /// A short text for this failure's category: fixed for the categories
    /// that name their own failure, the cause's message for the others.
    pub open spec fn description_view(self) -> Seq<char> {
        match self {
            Error::BadPort(_) => {
                "Received an invalid port or a number outside of the valid range."@
            },
            Error::BuilderCore(e) => e.message@,
            Error::BusyWorkerUpsert(e) => e@,
            Error::BusyWorkerDelete(e) => e@,
            Error::BusyWorkersGet(e) => e@,
            Error::CaughtPanic(_, _) => "Caught a panic"@,
            Error::ConnErr(e) => e@,
            Error::Db(e) => e@,
            Error::DbPoolTimeout(e) => e@,
            Error::DbTransaction(e) => e@,
            Error::DbTransactionStart(e) => e@,
            Error::DbTransactionCommit(e) => e@,
            Error::DieselError(e) => e.message@,
            Error::HabitatCore(e) => e@,
            Error::InvalidUrl => "Bad Url!"@,
            Error::IO(e) => e@,
            Error::JobGroupAudit(e) => e@,
            Error::JobGroupCreate(e) => e@,
            Error::JobGroupCancel(e) => e@,
            Error::JobGroupGet(e) => e@,
            Error::JobGroupOriginGet(e) => e@,
            Error::JobGroupPending(e) => e@,
            Error::JobGroupSetState(e) => e@,
            Error::JobGraphPackageInsert(e) => e@,
            Error::JobGraphPackageStats(e) => e@,
            Error::JobGraphPackagesGet(e) => e@,
            Error::JobGroupProjectSetState(e) => e@,
            Error::JobCreate(e) => e@,
            Error::JobGet(e) => e@,
            Error::JobLogArchive(_, e) => e@,
            Error::JobLogRetrieval(_, e) => e@,
            Error::JobMarkArchived(e) => e@,
            Error::JobPending(e) => e@,
            Error::JobReset(e) => e@,
            Error::JobSetLogUrl(e) => e@,
            Error::JobSetState(e) => e@,
            Error::SyncJobs(e) => e@,
            Error::LogDirDoesNotExist(_, e) => e@,
            Error::LogDirIsNotDir(_) => "Build log directory is not a directory"@,
            Error::LogDirNotWritable(_) => "Build log directory is not writable"@,
            Error::NetError(e) => e.message@,
            Error::ParseVCSInstallationId(_) => "VCS installation id could not be parsed as u64"@,
            Error::ProjectJobsGet(e) => e@,
            Error::Protobuf(e) => e@,
            Error::Protocol(e) => e@,
            Error::UnknownVCS => "Unknown VCS"@,
            Error::UnknownJobGroup => "Unknown Group"@,
            Error::UnknownJobGroupState => "Unknown Group State"@,
            Error::UnknownJobGraphPackage => "Unknown Package"@,
            Error::UnknownJobGroupProjectState => "Unknown Project State"@,
            Error::UnknownJobState(e) => e@,
            Error::Zmq(e) => e@,
            Error::HttpClient(e) => e@,
            Error::HttpResponse(_, body) => body@,
            Error::Serialization(e) => e@,
        }
    }

    /// The HTTP status code this failure is reported as: that of its wire
    /// status code if it carries one; 404 for a missing record; 500 otherwise.
    pub open spec fn http_code(self) -> u16 {
        match self {
            Error::NetError(e) => wire_http(e.code),
            Error::BuilderCore(e) => core_http(e),
            Error::DieselError(e) => query_http(e),
            _ => 500,
        }
    }

    /// The human-readable text of this failure.
    pub fn message(&self) -> (r: String)
        ensures
            r@ == self.message_view(),
    {
        match self {
            Error::BadPort(e) => joined(e.as_str(), " is an invalid port. Valid range 1-65535."),
            Error::BuilderCore(e) => nonempty_or_text(&e.message, "Builder core error"),
            Error::BusyWorkerUpsert(e) => joined(
                "Database error creating or updating a busy worker, ",
                e.as_str(),
            ),
            Error::BusyWorkerDelete(e) => joined(
                "Database error deleting a busy worker, ",
                e.as_str(),
            ),
            Error::BusyWorkersGet(e) => joined(
                "Database error retrieving busy workers, ",
                e.as_str(),
            ),
            Error::CaughtPanic(msg, source) => joined(
                joined("Caught a panic: ", msg.as_str()).as_str(),
                joined(". ", source.as_str()).as_str(),
            ),
            Error::ConnErr(e) => nonempty_or_text(e, "Connection error"),
            Error::Db(e) => nonempty_or_text(e, "Database error"),
            Error::DbPoolTimeout(e) => joined(
                "Timeout getting connection from the database pool, ",
                e.as_str(),
            ),
            Error::DbTransaction(e) => joined("Database transaction error, ", e.as_str()),
            Error::DbTransactionStart(e) => joined(
                "Failed to start database transaction, ",
                e.as_str(),
            ),
            Error::DbTransactionCommit(e) => joined(
                "Failed to commit database transaction, ",
                e.as_str(),
            ),
            Error::DieselError(e) => nonempty_or_text(&e.message, "Query error"),
            Error::HabitatCore(e) => nonempty_or_text(e, "Habitat core error"),
            Error::InvalidUrl => String::from_str("Bad URL!"),
            Error::IO(e) => nonempty_or_text(e, "I/O error"),
            Error::JobGroupAudit(e) => joined("Database error creating audit entry, ", e.as_str()),
            Error::JobGroupCreate(e) => joined("Database error creating a new group, ", e.as_str()),
            Error::JobGroupCancel(e) => joined(
                "Database error canceling a job group, ",
                e.as_str(),
            ),
            Error::JobGroupGet(e) => joined("Database error getting group data, ", e.as_str()),
            Error::JobGroupOriginGet(e) => joined(
                "Database error getting group data for an origin, ",
                e.as_str(),
            ),
            Error::JobGroupPending(e) => joined(
                "Database error getting pending group, ",
                e.as_str(),
            ),
            Error::JobGroupSetState(e) => joined(
                "Database error setting group state, ",
                e.as_str(),
            ),
            Error::JobGraphPackageInsert(e) => joined(
                "Database error inserting a new package, ",
                e.as_str(),
            ),
            Error::JobGraphPackageStats(e) => joined(
                "Database error retrieving package statistics, ",
                e.as_str(),
            ),
            Error::JobGraphPackagesGet(e) => joined(
                "Database error retrieving packages, ",
                e.as_str(),
            ),
            Error::JobGroupProjectSetState(e) => joined(
                "Database error setting project state, ",
                e.as_str(),
            ),
            Error::JobCreate(e) => joined("Database error creating a new job, ", e.as_str()),
            Error::JobGet(e) => joined("Database error getting job data, ", e.as_str()),
            Error::JobLogArchive(id, e) => joined(
                joined("Log archiving error for job ", decimal_text(*id).as_str()).as_str(),
                joined(", ", e.as_str()).as_str(),
            ),
            Error::JobLogRetrieval(id, e) => joined(
                joined("Log retrieval error for job ", decimal_text(*id).as_str()).as_str(),
                joined(", ", e.as_str()).as_str(),
            ),
            Error::JobMarkArchived(e) => joined(
                "Database error marking job as archived, ",
                e.as_str(),
            ),
            Error::JobPending(e) => joined("Database error getting pending jobs, ", e.as_str()),
            Error::JobReset(e) => joined("Database error reseting jobs, ", e.as_str()),
            Error::JobSetLogUrl(e) => joined("Database error setting job log URL, ", e.as_str()),
            Error::JobSetState(e) => joined("Database error setting job state, ", e.as_str()),
            Error::SyncJobs(e) => joined("Database error retrieving sync jobs, ", e.as_str()),
            Error::LogDirDoesNotExist(path, e) => joined(
                joined("Build log directory \"", path.as_str()).as_str(),
                joined("\" doesn't exist!: ", e.as_str()).as_str(),
            ),
            Error::LogDirIsNotDir(path) => joined(
                joined("Build log directory \"", path.as_str()).as_str(),
                "\" is not a directory!",
            ),
            Error::LogDirNotWritable(path) => joined(
                joined("Build log directory \"", path.as_str()).as_str(),
                "\" is not writable!",
            ),
            Error::NetError(e) => nonempty_or_text(&e.message, "Network error"),
            Error::ParseVCSInstallationId(e) => joined(
                "VCS installation id could not be parsed as u64, ",
                e.as_str(),
            ),
            Error::ProjectJobsGet(e) => joined(
                "Database error getting jobs for project, ",
                e.as_str(),
            ),
            Error::Protobuf(e) => nonempty_or_text(e, "Protobuf error"),
            Error::Protocol(e) => nonempty_or_text(e, "Protocol error"),
            Error::UnknownVCS => String::from_str("Unknown VCS"),
            Error::UnknownJobGroup => String::from_str("Unknown Group"),
            Error::UnknownJobGroupState => String::from_str("Unknown Group State"),
            Error::UnknownJobGraphPackage => String::from_str("Unknown Package"),
            Error::UnknownJobGroupProjectState => String::from_str("Unknown Project State"),
            Error::UnknownJobState(e) => nonempty_or_text(e, "Unknown Job State"),
            Error::Zmq(e) => nonempty_or_text(e, "ZeroMQ error"),
            Error::HttpClient(e) => joined("HTTP client error, ", e.as_str()),
            Error::HttpResponse(status, body) => joined(
                joined(
                    "HTTP response error, status ",
                    decimal_text(*status as u64).as_str(),
                ).as_str(),
                joined(": ", body.as_str()).as_str(),
            ),
            Error::Serialization(e) => joined("Unable to read the response body, ", e.as_str()),
        }
    }

    /// A short text for this failure's category.
    pub fn description(&self) -> (r: String)
        ensures
            r@ == self.description_view(),
    {
        match self {
            Error::BadPort(_) => String::from_str(
                "Received an invalid port or a number outside of the valid range.",
            ),
            Error::BuilderCore(e) => e.message.clone(),
            Error::BusyWorkerUpsert(e) => e.clone(),
            Error::BusyWorkerDelete(e) => e.clone(),
            Error::BusyWorkersGet(e) => e.clone(),
            Error::CaughtPanic(_, _) => String::from_str("Caught a panic"),
            Error::ConnErr(e) => e.clone(),
            Error::Db(e) => e.clone(),
            Error::DbPoolTimeout(e) => e.clone(),
            Error::DbTransaction(e) => e.clone(),
            Error::DbTransactionStart(e) => e.clone(),
            Error::DbTransactionCommit(e) => e.clone(),
            Error::DieselError(e) => e.message.clone(),
            Error::HabitatCore(e) => e.clone(),
            Error::InvalidUrl => String::from_str("Bad Url!"),
            Error::IO(e) => e.clone(),
            Error::JobGroupAudit(e) => e.clone(),
            Error::JobGroupCreate(e) => e.clone(),
            Error::JobGroupCancel(e) => e.clone(),
            Error::JobGroupGet(e) => e.clone(),
            Error::JobGroupOriginGet(e) => e.clone(),
            Error::JobGroupPending(e) => e.clone(),
            Error::JobGroupSetState(e) => e.clone(),
            Error::JobGraphPackageInsert(e) => e.clone(),
            Error::JobGraphPackageStats(e) => e.clone(),
            Error::JobGraphPackagesGet(e) => e.clone(),
            Error::JobGroupProjectSetState(e) => e.clone(),
            Error::JobCreate(e) => e.clone(),
            Error::JobGet(e) => e.clone(),
            Error::JobLogArchive(_, e) => e.clone(),
            Error::JobLogRetrieval(_, e) => e.clone(),
            Error::JobMarkArchived(e) => e.clone(),
            Error::JobPending(e) => e.clone(),
            Error::JobReset(e) => e.clone(),
            Error::JobSetLogUrl(e) => e.clone(),
            Error::JobSetState(e) => e.clone(),
            Error::SyncJobs(e) => e.clone(),
            Error::LogDirDoesNotExist(_, e) => e.clone(),
            Error::LogDirIsNotDir(_) => String::from_str("Build log directory is not a directory"),
            Error::LogDirNotWritable(_) => String::from_str("Build log directory is not writable"),
            Error::NetError(e) => e.message.clone(),
            Error::ParseVCSInstallationId(_) => String::from_str(
                "VCS installation id could not be parsed as u64",
            ),
            Error::ProjectJobsGet(e) => e.clone(),
            Error::Protobuf(e) => e.clone(),
            Error::Protocol(e) => e.clone(),
            Error::UnknownVCS => String::from_str("Unknown VCS"),
            Error::UnknownJobGroup => String::from_str("Unknown Group"),
            Error::UnknownJobGroupState => String::from_str("Unknown Group State"),
            Error::UnknownJobGraphPackage => String::from_str("Unknown Package"),
            Error::UnknownJobGroupProjectState => String::from_str("Unknown Project State"),
            Error::UnknownJobState(e) => e.clone(),
            Error::Zmq(e) => e.clone(),
            Error::HttpClient(e) => e.clone(),
            Error::HttpResponse(_, body) => body.clone(),
            Error::Serialization(e) => e.clone(),
        }
    }

    /// The HTTP status that this failure is reported as to external clients.
    pub fn http_status(&self) -> (r: HttpStatus)
        ensures
            r@ == self.http_code(),
    {
        match self {
            Error::NetError(e) => wire_status(e.code),
            Error::BuilderCore(e) => core_err_to_http(e),
            Error::DieselError(e) => query_err_to_http(e),
            _ => HttpStatus::internal_server_error(),
        }
    }
}

/// The HTTP status that a failure is reported as is a function of the
/// failure alone: equal failures are reported with equal statuses, on every
/// call and in every context.
pub proof fn lemma_http_status_deterministic(a: Error, b: Error)
    requires
        a == b,
    ensures
        a.http_code() == b.http_code(),
{
}

/// A failure that carries a wire status code is reported with the status of
/// that code, whatever its message.
pub proof fn lemma_wire_code_decides(e: NetError)
    ensures
        Error::NetError(e).http_code() == wire_http(e.code),
{
}

/// Whether `c` occurs in `s`.
pub open spec fn embeds(s: Seq<char>, c: Seq<char>) -> bool {
    exists|i: int| 0 <= i && i + c.len() <= s.len() && #[trigger] s.subrange(i, i + c.len()) == c
}

proof fn lemma_embeds(s: Seq<char>, a: Seq<char>, c: Seq<char>, b: Seq<char>)
    requires
        s =~= a + c + b,
    ensures
        embeds(s, c),
{
    assert(s.subrange(a.len() as int, (a.len() + c.len()) as int) =~= c);
}

proof fn lemma_fallback_embeds(c: Seq<char>, fallback: Seq<char>)
    ensures
        embeds(nonempty_or(c, fallback), c),
{
    let s = nonempty_or(c, fallback);
    let i: int = 0;
    assert(s.subrange(i, i + c.len()) =~= c);
}

/// The text of every failure is non-empty.
pub proof fn lemma_message_nonempty(err: Error)
    ensures
        err.message_view().len() > 0,
{
    match err {
            Error::BadPort(_) => reveal_strlit(" is an invalid port. Valid range 1-65535."),
            Error::BuilderCore(_) => reveal_strlit("Builder core error"),
            Error::BusyWorkerUpsert(_) => reveal_strlit(
                "Database error creating or updating a busy worker, ",
            ),
            Error::BusyWorkerDelete(_) => reveal_strlit("Database error deleting a busy worker, "),
            Error::BusyWorkersGet(_) => reveal_strlit("Database error retrieving busy workers, "),
            Error::CaughtPanic(_, _) => reveal_strlit("Caught a panic: "),
            Error::ConnErr(_) => reveal_strlit("Connection error"),
            Error::Db(_) => reveal_strlit("Database error"),
            Error::DbPoolTimeout(_) => reveal_strlit(
                "Timeout getting connection from the database pool, ",
            ),
            Error::DbTransaction(_) => reveal_strlit("Database transaction error, "),
            Error::DbTransactionStart(_) => reveal_strlit("Failed to start database transaction, "),
            Error::DbTransactionCommit(_) => reveal_strlit(
                "Failed to commit database transaction, ",
            ),
            Error::DieselError(_) => reveal_strlit("Query error"),
            Error::HabitatCore(_) => reveal_strlit("Habitat core error"),
            Error::InvalidUrl => reveal_strlit("Bad URL!"),
            Error::IO(_) => reveal_strlit("I/O error"),
            Error::JobGroupAudit(_) => reveal_strlit("Database error creating audit entry, "),
            Error::JobGroupCreate(_) => reveal_strlit("Database error creating a new group, "),
            Error::JobGroupCancel(_) => reveal_strlit("Database error canceling a job group, "),
            Error::JobGroupGet(_) => reveal_strlit("Database error getting group data, "),
            Error::JobGroupOriginGet(_) => reveal_strlit(
                "Database error getting group data for an origin, ",
            ),
            Error::JobGroupPending(_) => reveal_strlit("Database error getting pending group, "),
            Error::JobGroupSetState(_) => reveal_strlit("Database error setting group state, "),
            Error::JobGraphPackageInsert(_) => reveal_strlit(
                "Database error inserting a new package, ",
            ),
            Error::JobGraphPackageStats(_) => reveal_strlit(
                "Database error retrieving package statistics, ",
            ),
            Error::JobGraphPackagesGet(_) => reveal_strlit("Database error retrieving packages, "),
            Error::JobGroupProjectSetState(_) => reveal_strlit(
                "Database error setting project state, ",
            ),
            Error::JobCreate(_) => reveal_strlit("Database error creating a new job, "),
            Error::JobGet(_) => reveal_strlit("Database error getting job data, "),
            Error::JobLogArchive(_, _) => reveal_strlit("Log archiving error for job "),
            Error::JobLogRetrieval(_, _) => reveal_strlit("Log retrieval error for job "),
            Error::JobMarkArchived(_) => reveal_strlit("Database error marking job as archived, "),
            Error::JobPending(_) => reveal_strlit("Database error getting pending jobs, "),
            Error::JobReset(_) => reveal_strlit("Database error reseting jobs, "),
            Error::JobSetLogUrl(_) => reveal_strlit("Database error setting job log URL, "),
            Error::JobSetState(_) => reveal_strlit("Database error setting job state, "),
            Error::SyncJobs(_) => reveal_strlit("Database error retrieving sync jobs, "),
            Error::LogDirDoesNotExist(_, _) => reveal_strlit("Build log directory \""),
            Error::LogDirIsNotDir(_) => reveal_strlit("Build log directory \""),
            Error::LogDirNotWritable(_) => reveal_strlit("Build log directory \""),
            Error::NetError(_) => reveal_strlit("Network error"),
            Error::ParseVCSInstallationId(_) => reveal_strlit(
                "VCS installation id could not be parsed as u64, ",
            ),
            Error::ProjectJobsGet(_) => reveal_strlit("Database error getting jobs for project, "),
            Error::Protobuf(_) => reveal_strlit("Protobuf error"),
            Error::Protocol(_) => reveal_strlit("Protocol error"),
            Error::UnknownVCS => reveal_strlit("Unknown VCS"),
            Error::UnknownJobGroup => reveal_strlit("Unknown Group"),
            Error::UnknownJobGroupState => reveal_strlit("Unknown Group State"),
            Error::UnknownJobGraphPackage => reveal_strlit("Unknown Package"),
            Error::UnknownJobGroupProjectState => reveal_strlit("Unknown Project State"),
            Error::UnknownJobState(_) => reveal_strlit("Unknown Job State"),
            Error::Zmq(_) => reveal_strlit("ZeroMQ error"),
            Error::HttpClient(_) => reveal_strlit("HTTP client error, "),
            Error::HttpResponse(_, _) => reveal_strlit("HTTP response error, status "),
            Error::Serialization(_) => reveal_strlit("Unable to read the response body, "),
    }
}

/// The text of a failure holds the message of the cause it wraps, for every
/// category that wraps one.
pub proof fn lemma_message_holds_cause(err: Error)
    ensures
        err.cause_view() matches Some(c) ==> embeds(err.message_view(), c),
{
    match err {
            Error::BadPort(e) => lemma_embeds(
                err.message_view(),
                Seq::empty(),
                e@,
                " is an invalid port. Valid range 1-65535."@,
            ),
            Error::BuilderCore(e) => lemma_fallback_embeds(e.message@, "Builder core error"@),
            Error::BusyWorkerUpsert(e) => lemma_embeds(
                err.message_view(),
                "Database error creating or updating a busy worker, "@,
                e@,
                Seq::empty(),
            ),
            Error::BusyWorkerDelete(e) => lemma_embeds(
                err.message_view(),
                "Database error deleting a busy worker, "@,
                e@,
                Seq::empty(),
            ),
            Error::BusyWorkersGet(e) => lemma_embeds(
                err.message_view(),
                "Database error retrieving busy workers, "@,
                e@,
                Seq::empty(),
            ),
            Error::CaughtPanic(msg, source) => lemma_embeds(
                err.message_view(),
                "Caught a panic: "@,
                msg@,
                ". "@ + source@,
            ),
            Error::ConnErr(e) => lemma_fallback_embeds(e@, "Connection error"@),
            Error::Db(e) => lemma_fallback_embeds(e@, "Database error"@),
            Error::DbPoolTimeout(e) => lemma_embeds(
                err.message_view(),
                "Timeout getting connection from the database pool, "@,
                e@,
                Seq::empty(),
            ),
            Error::DbTransaction(e) => lemma_embeds(
                err.message_view(),
                "Database transaction error, "@,
                e@,
                Seq::empty(),
            ),
            Error::DbTransactionStart(e) => lemma_embeds(
                err.message_view(),
                "Failed to start database transaction, "@,
                e@,
                Seq::empty(),
            ),
            Error::DbTransactionCommit(e) => lemma_embeds(
                err.message_view(),
                "Failed to commit database transaction, "@,
                e@,
                Seq::empty(),
            ),
            Error::DieselError(e) => lemma_fallback_embeds(e.message@, "Query error"@),
            Error::HabitatCore(e) => lemma_fallback_embeds(e@, "Habitat core error"@),
            Error::IO(e) => lemma_fallback_embeds(e@, "I/O error"@),
            Error::JobGroupAudit(e) => lemma_embeds(
                err.message_view(),
                "Database error creating audit entry, "@,
                e@,
                Seq::empty(),
            ),
            Error::JobGroupCreate(e) => lemma_embeds(
                err.message_view(),
                "Database error creating a new group, "@,
                e@,
                Seq::empty(),
            ),
            Error::JobGroupCancel(e) => lemma_embeds(
                err.message_view(),
                "Database error canceling a job group, "@,
                e@,
                Seq::empty(),
            ),
            Error::JobGroupGet(e) => lemma_embeds(
                err.message_view(),
                "Database error getting group data, "@,
                e@,
                Seq::empty(),
            ),
            Error::JobGroupOriginGet(e) => lemma_embeds(
                err.message_view(),
                "Database error getting group data for an origin, "@,
                e@,
                Seq::empty(),
            ),
            Error::JobGroupPending(e) => lemma_embeds(
                err.message_view(),
                "Database error getting pending group, "@,
                e@,
                Seq::empty(),
            ),
            Error::JobGroupSetState(e) => lemma_embeds(
                err.message_view(),
                "Database error setting group state, "@,
                e@,
                Seq::empty(),
            ),
            Error::JobGraphPackageInsert(e) => lemma_embeds(
                err.message_view(),
                "Database error inserting a new package, "@,
                e@,
                Seq::empty(),
            ),
            Error::JobGraphPackageStats(e) => lemma_embeds(
                err.message_view(),
                "Database error retrieving package statistics, "@,
                e@,
                Seq::empty(),
            ),
            Error::JobGraphPackagesGet(e) => lemma_embeds(
                err.message_view(),
                "Database error retrieving packages, "@,
                e@,
                Seq::empty(),
            ),
            Error::JobGroupProjectSetState(e) => lemma_embeds(
                err.message_view(),
                "Database error setting project state, "@,
                e@,
                Seq::empty(),
            ),
            Error::JobCreate(e) => lemma_embeds(
                err.message_view(),
                "Database error creating a new job, "@,
                e@,
                Seq::empty(),
            ),
            Error::JobGet(e) => lemma_embeds(
                err.message_view(),
                "Database error getting job data, "@,
                e@,
                Seq::empty(),
            ),
            Error::JobLogArchive(id, e) => lemma_embeds(
                err.message_view(),
                "Log archiving error for job "@ + decimal(id as nat) + ", "@,
                e@,
                Seq::empty(),
            ),
            Error::JobLogRetrieval(id, e) => lemma_embeds(
                err.message_view(),
                "Log retrieval error for job "@ + decimal(id as nat) + ", "@,
                e@,
                Seq::empty(),
            ),
            Error::JobMarkArchived(e) => lemma_embeds(
                err.message_view(),
                "Database error marking job as archived, "@,
                e@,
                Seq::empty(),
            ),
            Error::JobPending(e) => lemma_embeds(
                err.message_view(),
                "Database error getting pending jobs, "@,
                e@,
                Seq::empty(),
            ),
            Error::JobReset(e) => lemma_embeds(
                err.message_view(),
                "Database error reseting jobs, "@,
                e@,
                Seq::empty(),
            ),
            Error::JobSetLogUrl(e) => lemma_embeds(
                err.message_view(),
                "Database error setting job log URL, "@,
                e@,
                Seq::empty(),
            ),
            Error::JobSetState(e) => lemma_embeds(
                err.message_view(),
                "Database error setting job state, "@,
                e@,
                Seq::empty(),
            ),
            Error::SyncJobs(e) => lemma_embeds(
                err.message_view(),
                "Database error retrieving sync jobs, "@,
                e@,
                Seq::empty(),
            ),
            Error::LogDirDoesNotExist(path, e) => lemma_embeds(
                err.message_view(),
                "Build log directory \""@ + path@ + "\" doesn't exist!: "@,
                e@,
                Seq::empty(),
            ),
            Error::NetError(e) => lemma_fallback_embeds(e.message@, "Network error"@),
            Error::ParseVCSInstallationId(e) => lemma_embeds(
                err.message_view(),
                "VCS installation id could not be parsed as u64, "@,
                e@,
                Seq::empty(),
            ),
            Error::ProjectJobsGet(e) => lemma_embeds(
                err.message_view(),
                "Database error getting jobs for project, "@,
                e@,
                Seq::empty(),
            ),
            Error::Protobuf(e) => lemma_fallback_embeds(e@, "Protobuf error"@),
            Error::Protocol(e) => lemma_fallback_embeds(e@, "Protocol error"@),
            Error::UnknownJobState(e) => lemma_fallback_embeds(e@, "Unknown Job State"@),
            Error::Zmq(e) => lemma_fallback_embeds(e@, "ZeroMQ error"@),
            Error::HttpClient(e) => lemma_embeds(
                err.message_view(),
                "HTTP client error, "@,
                e@,
                Seq::empty(),
            ),
            Error::HttpResponse(status, body) => lemma_embeds(
                err.message_view(),
                "HTTP response error, status "@ + decimal(status as nat) + ": "@,
                body@,
                Seq::empty(),
            ),
            Error::Serialization(e) => lemma_embeds(
                err.message_view(),
                "Unable to read the response body, "@,
                e@,
                Seq::empty(),
            ),
            _ => {},
    }
}

} // verus!
