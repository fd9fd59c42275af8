//! The answers that a request can get.

use vstd::prelude::*;

verus! {

/// The HTTP status of an answer.
#[derive(Clone, Copy, Debug, PartialEq, Eq, Structural)]
pub enum Status {
    Success,
    Created,
    BadRequest,
    Unauthorized,
    Forbidden,
    NotFound,
    Conflict,
    Gone,
    TooManyRequests,
    Internal,
    NotImplemented,
    Unavailable,
}

impl Status {
    /// The number of the status.
    pub open spec fn number(self) -> u16 {
        match self {
            Status::Success => 200,
            Status::Created => 201,
            Status::BadRequest => 400,
            Status::Unauthorized => 401,
            Status::Forbidden => 403,
            Status::NotFound => 404,
            Status::Conflict => 409,
            Status::Gone => 410,
            Status::TooManyRequests => 429,
            Status::Internal => 500,
            Status::NotImplemented => 501,
            Status::Unavailable => 503,
        }
    }

    /// The number of the status.
    pub fn code(self) -> (r: u16)
        ensures
            r == self.number(),
    {
        match self {
            Status::Success => 200,
            Status::Created => 201,
            Status::BadRequest => 400,
            Status::Unauthorized => 401,
            Status::Forbidden => 403,
            Status::NotFound => 404,
            Status::Conflict => 409,
            Status::Gone => 410,
            Status::TooManyRequests => 429,
            Status::Internal => 500,
            Status::NotImplemented => 501,
            Status::Unavailable => 503,
        }
    }
}

/// The text of a status: its number and its reason phrase.
pub open spec fn status_line(s: Status) -> Seq<char> {
    match s {
        Status::Success => "200 OK"@,
        Status::Created => "201 Created"@,
        Status::BadRequest => "400 Bad Request"@,
        Status::Unauthorized => "401 Unauthorized"@,
        Status::Forbidden => "403 Forbidden"@,
        Status::NotFound => "404 Not Found"@,
        Status::Conflict => "409 Conflict"@,
        Status::Gone => "410 Gone"@,
        Status::TooManyRequests => "429 Too Many Requests"@,
        Status::Internal => "500 Internal Server Error"@,
        Status::NotImplemented => "501 Not Implemented"@,
        Status::Unavailable => "503 Service Unavailable"@,
    }
}

/// The text of a status.
pub fn status_text(s: Status) -> (r: &'static str)
    ensures
        r@ == status_line(s),
{
    match s {
        Status::Success => "200 OK",
        Status::Created => "201 Created",
        Status::BadRequest => "400 Bad Request",
        Status::Unauthorized => "401 Unauthorized",
        Status::Forbidden => "403 Forbidden",
        Status::NotFound => "404 Not Found",
        Status::Conflict => "409 Conflict",
        Status::Gone => "410 Gone",
        Status::TooManyRequests => "429 Too Many Requests",
        Status::Internal => "500 Internal Server Error",
        Status::NotImplemented => "501 Not Implemented",
        Status::Unavailable => "503 Service Unavailable",
    }
}

/// An answer in words.
#[derive(Clone, Debug)]
pub struct MessageResponse {
    pub message: String,
}

/// A refusal in words.
#[derive(Clone, Debug)]
pub struct Refusal {
    pub status: Status,
    pub message: String,
}

/// A refusal with a message of its own.
pub fn refuse(status: Status, message: String) -> (r: Refusal)
    ensures
        r.status == status,
        r.message == message,
{
    Refusal { status, message }
}

/// An answer in words.
pub fn say(message: String) -> (r: MessageResponse)
    ensures
        r.message == message,
{
    MessageResponse { message }
}

/// A change of one row by its key: a row that is not there is not found.
pub fn require_row(rows_affected: u64) -> (r: Result<(), Status>)
    ensures
        r is Ok <==> rows_affected != 0,
        r matches Err(s) ==> s == Status::NotFound,
{
    if rows_affected == 0 {
        Err(Status::NotFound)
    } else {
        Ok(())
    }
}

/// How an engine of the firewall can fail.
#[derive(Clone, Copy, Debug, PartialEq, Eq, Structural)]
pub enum FailureKind {
    /// What was asked for is not valid.
    Validation,
    /// What was asked for is not there.
    NotFound,
    /// Anything else.
    Other,
}

/// A failure of an engine, with its text.
#[derive(Clone, Debug)]
pub struct EngineFailure {
    pub kind: FailureKind,
    pub text: String,
}

/// The status of a failure.
pub open spec fn kind_status(k: FailureKind) -> Status {
    match k {
        FailureKind::Validation => Status::BadRequest,
        FailureKind::NotFound => Status::NotFound,
        FailureKind::Other => Status::Internal,
    }
}

/// The answer to a request on which an engine failed: the text of the failure
/// reaches the caller.
pub fn engine_refusal(e: EngineFailure) -> (r: Refusal)
    ensures
        r.status == kind_status(e.kind),
        r.message == e.text,
{
    let status = match e.kind {
        FailureKind::Validation => Status::BadRequest,
        FailureKind::NotFound => Status::NotFound,
        FailureKind::Other => Status::Internal,
    };
    Refusal { status, message: e.text }
}

// ---------------------------------------------------------------------------
// Laws
// ---------------------------------------------------------------------------

/// No two statuses have the same number: 2 hundreds are successes, 4 are the caller's fault and
/// 5 the server's.
pub proof fn statuses_differ(a: Status, b: Status)
    ensures
        a.number() == b.number() ==> a == b,
        200 <= a.number() <= 299 <==> a is Success || a is Created,
        500 <= a.number() <= 599 <==> a is Internal || a is NotImplemented || a is Unavailable,
        400 <= a.number() <= 499 <==> !(a is Success || a is Created || a is Internal || a is NotImplemented
            || a is Unavailable),
{
}

/// A status line is the number of the status, a blank and its name.
pub proof fn status_lines_start_with_the_number(a: Status)
    ensures
        status_line(a).len() > 4,
        status_line(a)[3] == ' ',
        status_line(a)[0] as int - '0' as int == a.number() / 100,
        status_line(a)[1] as int - '0' as int == (a.number() / 10) % 10,
        status_line(a)[2] as int - '0' as int == a.number() % 10,
{
    reveal_strlit("200 OK");
    reveal_strlit("201 Created");
    reveal_strlit("400 Bad Request");
    reveal_strlit("401 Unauthorized");
    reveal_strlit("403 Forbidden");
    reveal_strlit("404 Not Found");
    reveal_strlit("409 Conflict");
    reveal_strlit("410 Gone");
    reveal_strlit("429 Too Many Requests");
    reveal_strlit("500 Internal Server Error");
    reveal_strlit("501 Not Implemented");
    reveal_strlit("503 Service Unavailable");
}

/// What is not valid is a bad request, what is missing is not found, and anything else is the
/// server's own failure.
pub proof fn failures_have_their_status(k: FailureKind)
    ensures
        kind_status(k) == Status::BadRequest <==> k is Validation,
        kind_status(k) == Status::NotFound <==> k is NotFound,
        kind_status(k) == Status::Internal <==> k is Other,
{
}

} // verus!
