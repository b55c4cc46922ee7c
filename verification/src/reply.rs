use vstd::prelude::*;
use vstd::string::*;

use crate::poll_config::ErrorKind;

verus! {

/// The status of a reply.
#[derive(Clone, Copy, Debug, PartialEq, Eq, Structural)]
pub enum Status {
    Success,
    BadRequest,
    Unauthorized,
    Forbidden,
    NotFound,
    Conflict,
    InternalServerError,
    NotImplemented,
}

impl Status {
    /// The number that stands for the status on the wire.
    pub open spec fn code_of(self) -> u16 {
        match self {
            Status::Success => 200,
            Status::BadRequest => 400,
            Status::Unauthorized => 401,
            Status::Forbidden => 403,
            Status::NotFound => 404,
            Status::Conflict => 409,
            Status::InternalServerError => 500,
            Status::NotImplemented => 501,
        }
    }

    /// The number that stands for the status on the wire.
    pub fn code(self) -> (code: u16)
        ensures
            code == self.code_of(),
    {
        match self {
            Status::Success => 200,
            Status::BadRequest => 400,
            Status::Unauthorized => 401,
            Status::Forbidden => 403,
            Status::NotFound => 404,
            Status::Conflict => 409,
            Status::InternalServerError => 500,
            Status::NotImplemented => 501,
        }
    }
}

/// The status that reports a failure of the given kind.
pub open spec fn status_of(kind: ErrorKind) -> Status {
    match kind {
        ErrorKind::NotFound => Status::NotFound,
        ErrorKind::Conflict => Status::Conflict,
        ErrorKind::Unauthorized => Status::Unauthorized,
        ErrorKind::Upstream => Status::InternalServerError,
        ErrorKind::Serialization => Status::InternalServerError,
    }
}

/// The status that reports a failure of the given kind.
pub fn status_for(kind: ErrorKind) -> (status: Status)
    ensures
        status == status_of(kind),
{
    match kind {
        ErrorKind::NotFound => Status::NotFound,
        ErrorKind::Conflict => Status::Conflict,
        ErrorKind::Unauthorized => Status::Unauthorized,
        ErrorKind::Upstream => Status::InternalServerError,
        ErrorKind::Serialization => Status::InternalServerError,
    }
}

/// What a request is answered with: a status and a text.
#[derive(Debug)]
pub struct Reply {
    pub status: Status,
    pub body: String,
}

/// A reply as a mathematical value.
pub struct ReplyView {
    pub status: Status,
    pub body: Seq<char>,
}

impl View for Reply {
    type V = ReplyView;

    open spec fn view(&self) -> ReplyView {
        ReplyView { status: self.status, body: self.body@ }
    }
}

impl Reply {
    /// The reply with the given status and text.
    pub fn new(status: Status, body: &str) -> (reply: Reply)
        ensures
            reply@ == (ReplyView { status, body: body@ }),
    {
        Reply { status, body: String::from_str(body) }
    }
}

} // verus!
