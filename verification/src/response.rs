//! The reply to a listing request, for each outcome of the storage query.
//!
//! A query either yields the full list of records or fails as a whole. The
//! list becomes a 200 reply with the JSON array as its body. A failure becomes
//! a 500 reply with a fixed body that says nothing of the cause; the cause goes
//! into one diagnostic line for the operator instead.

use crate::json::{render_users, users_json};
use crate::user::{views, User, UserView};
use vstd::prelude::*;
use vstd::string::StringExecFns;

verus! {

/// Why a query produced no rows to return.
#[derive(Clone, Copy, Debug, PartialEq, Eq)]
pub enum FailureKind {
    /// No connection to storage could be had: the pool gave none, or the
    /// network to storage is down.
    ConnectionUnavailable,
    /// Storage was reached and refused or failed the query.
    QueryFailed,
    /// Storage answered with rows that do not have the declared columns.
    MalformedResult,
}

/// A failed query: its classification and the detail for the operator.
#[derive(Clone, Debug, PartialEq, Eq)]
pub struct Failure {
    pub kind: FailureKind,
    pub detail: String,
}

/// How the body of a response is to be read.
#[derive(Clone, Copy, Debug, PartialEq, Eq)]
pub enum BodyKind {
    Json,
    PlainText,
}

/// What is sent back to the caller.
#[derive(Clone, Debug, PartialEq, Eq)]
pub struct Response {
    pub status: u16,
    pub kind: BodyKind,
    pub body: String,
}

/// The handling of one request: the response for the caller and, on failure,
/// the line for the diagnostic stream.
#[derive(Clone, Debug, PartialEq, Eq)]
pub struct Reply {
    pub response: Response,
    pub diagnostic: Option<String>,
}

/// The value of a [`Reply`].
pub struct ReplyView {
    pub status: u16,
    pub kind: BodyKind,
    pub body: Seq<char>,
    pub diagnostic: Option<Seq<char>>,
}

impl View for Reply {
    type V = ReplyView;

    open spec fn view(&self) -> ReplyView {
        ReplyView {
            status: self.response.status,
            kind: self.response.kind,
            body: self.response.body@,
            diagnostic: match self.diagnostic {
                Some(line) => Some(line@),
                None => None,
            },
        }
    }
}

/// The path of the one route that the service answers, for `GET`.
pub open spec fn route_text() -> Seq<char> {
    "/get-users"@
}

/// The path of the one route that the service answers, for `GET`.
pub fn route_path() -> (path: &'static str)
    ensures
        path@ == route_text(),
{
    "/get-users"
}

/// The content type that announces a body of the given kind, if any is
/// announced: JSON is, the plain text of a failure is sent bare.
pub open spec fn content_type_text(kind: BodyKind) -> Option<Seq<char>> {
    match kind {
        BodyKind::Json => Some("application/json"@),
        BodyKind::PlainText => None,
    }
}

impl BodyKind {
    /// The value of the content type header for a body of this kind, or
    /// `None` where the response carries no such header.
    pub fn content_type(&self) -> (header: Option<&'static str>)
        ensures
            match header {
                Some(text) => content_type_text(*self) == Some(text@),
                None => content_type_text(*self) is None,
            },
    {
        match self {
            BodyKind::Json => Some("application/json"),
            BodyKind::PlainText => None,
        }
    }
}

/// The status code for a successful listing.
pub open spec fn success_status() -> u16 {
    200
}

/// The status code for each kind of failure. Every kind is an internal error
/// to the caller.
pub open spec fn failure_status(kind: FailureKind) -> u16 {
    match kind {
        FailureKind::ConnectionUnavailable => 500,
        FailureKind::QueryFailed => 500,
        FailureKind::MalformedResult => 500,
    }
}

/// The body of every failure response.
pub open spec fn generic_body() -> Seq<char> {
    "Something went wrong"@
}

/// The diagnostic line for a failure with the given detail.
pub open spec fn diagnostic_text(detail: Seq<char>) -> Seq<char> {
    "Database error: "@ + detail
}

/// The reply to a request whose query returned the given records.
pub open spec fn success_reply(users: Seq<UserView>) -> ReplyView {
    ReplyView {
        status: success_status(),
        kind: BodyKind::Json,
        body: users_json(users),
        diagnostic: None,
    }
}

/// The reply to a request whose query failed.
pub open spec fn failure_reply(kind: FailureKind, detail: Seq<char>) -> ReplyView {
    ReplyView {
        status: failure_status(kind),
        kind: BodyKind::PlainText,
        body: generic_body(),
        diagnostic: Some(diagnostic_text(detail)),
    }
}

/// The reply for an outcome of the query.
pub open spec fn reply_for(outcome: Result<Vec<User>, Failure>) -> ReplyView {
    match outcome {
        Ok(users) => success_reply(views(users@)),
        Err(failure) => failure_reply(failure.kind, failure.detail@),
    }
}

/// Whatever the failure, the caller sees status 500 and the same non-empty
/// body: nothing of the failure's kind or detail reaches the response.
pub proof fn lemma_failure_is_generic(kind: FailureKind, detail: Seq<char>)
    ensures
        failure_reply(kind, detail).status == 500,
        failure_reply(kind, detail).kind == BodyKind::PlainText,
        failure_reply(kind, detail).body == "Something went wrong"@,
        failure_reply(kind, detail).body.len() == 20,
        forall|k: FailureKind, d: Seq<char>| #[trigger]
            failure_reply(k, d).body == failure_reply(kind, detail).body,
{
    reveal_strlit("Something went wrong");
}

/// A reply is determined by the outcome of its own query, taken by value:
/// equal lists of records give equal replies, and so do equal failures.
pub proof fn lemma_reply_is_determined_by_outcome(
    first: Result<Vec<User>, Failure>,
    second: Result<Vec<User>, Failure>,
)
    requires
        match (first, second) {
            (Ok(a), Ok(b)) => views(a@) == views(b@),
            (Err(f), Err(g)) => f.kind == g.kind && f.detail@ == g.detail@,
            _ => false,
        },
    ensures
        reply_for(first) == reply_for(second),
{
}

/// The status code that the caller sees for a failure of the given kind.
pub fn status_of(kind: FailureKind) -> (code: u16)
    ensures
        code == failure_status(kind),
        code == 500,
{
    match kind {
        FailureKind::ConnectionUnavailable => 500,
        FailureKind::QueryFailed => 500,
        FailureKind::MalformedResult => 500,
    }
}

/// The line that reports a failure on the diagnostic stream.
pub fn diagnostic_line(detail: &str) -> (line: String)
    ensures
        line@ == diagnostic_text(detail@),
{
    String::from_str("Database error: ").concat(detail)
}

/// Handles one listing request, given how the query ended.
///
/// Records become a 200 reply whose body is their JSON array, in the order
/// given, and no diagnostic. A failure becomes a 500 reply with the generic
/// body and exactly one diagnostic line carrying the detail.
pub fn list_users(outcome: Result<Vec<User>, Failure>) -> (reply: Reply)
    ensures
        reply@ == reply_for(outcome),
{
    match outcome {
        Ok(users) => Reply {
            response: Response { status: 200, kind: BodyKind::Json, body: render_users(&users) },
            diagnostic: None,
        },
        Err(failure) => Reply {
            response: Response {
                status: status_of(failure.kind),
                kind: BodyKind::PlainText,
                body: String::from_str("Something went wrong"),
            },
            diagnostic: Some(diagnostic_line(failure.detail.as_str())),
        },
    }
}

} // verus!
