use vstd::prelude::*;
use vstd::string::*;

verus! {

/// The kinds of failure that a caller can tell apart.
#[derive(Clone, Copy, Debug, PartialEq, Eq, Structural)]
pub enum ErrorKind {
    /// The poll or the user does not exist.
    NotFound,
    /// The request contradicts the state: the vote is already held, or the
    /// poll is closed.
    Conflict,
    /// The requester is not the creator.
    Unauthorized,
    /// The store failed.
    Upstream,
    /// A stored state could not be read back.
    Serialization,
}

/// What can go wrong with a poll. Each variant carries its detail as text.
#[derive(Debug)]
pub enum PollError {
    MongoError(String),
    PollNotFound(String),
    PollAlreadyExists(String),
    PollCreationError(String),
    PollVoteError(String),
    PollUpdateError(String),
    GeneralError(String),
    PollDeletionError(String),
    AlreadyVotedError(String),
    PollUnauthorizedAccess(String),
}

/// An error as a mathematical value.
pub enum PollErrorView {
    MongoError(Seq<char>),
    PollNotFound(Seq<char>),
    PollAlreadyExists(Seq<char>),
    PollCreationError(Seq<char>),
    PollVoteError(Seq<char>),
    PollUpdateError(Seq<char>),
    GeneralError(Seq<char>),
    PollDeletionError(Seq<char>),
    AlreadyVotedError(Seq<char>),
    PollUnauthorizedAccess(Seq<char>),
}

impl View for PollError {
    type V = PollErrorView;

    open spec fn view(&self) -> PollErrorView {
        match self {
            PollError::MongoError(detail) => PollErrorView::MongoError(detail@),
            PollError::PollNotFound(detail) => PollErrorView::PollNotFound(detail@),
            PollError::PollAlreadyExists(detail) => PollErrorView::PollAlreadyExists(detail@),
            PollError::PollCreationError(detail) => PollErrorView::PollCreationError(detail@),
            PollError::PollVoteError(detail) => PollErrorView::PollVoteError(detail@),
            PollError::PollUpdateError(detail) => PollErrorView::PollUpdateError(detail@),
            PollError::GeneralError(detail) => PollErrorView::GeneralError(detail@),
            PollError::PollDeletionError(detail) => PollErrorView::PollDeletionError(detail@),
            PollError::AlreadyVotedError(detail) => PollErrorView::AlreadyVotedError(detail@),
            PollError::PollUnauthorizedAccess(detail) => PollErrorView::PollUnauthorizedAccess(detail@),
        }
    }
}

impl PollErrorView {
    /// The detail that the error carries.
    pub open spec fn detail(self) -> Seq<char> {
        match self {
            PollErrorView::MongoError(detail) => detail,
            PollErrorView::PollNotFound(detail) => detail,
            PollErrorView::PollAlreadyExists(detail) => detail,
            PollErrorView::PollCreationError(detail) => detail,
            PollErrorView::PollVoteError(detail) => detail,
            PollErrorView::PollUpdateError(detail) => detail,
            PollErrorView::GeneralError(detail) => detail,
            PollErrorView::PollDeletionError(detail) => detail,
            PollErrorView::AlreadyVotedError(detail) => detail,
            PollErrorView::PollUnauthorizedAccess(detail) => detail,
        }
    }

    /// The kind of the error.
    pub open spec fn kind(self) -> ErrorKind {
        match self {
            PollErrorView::MongoError(_) => ErrorKind::Upstream,
            PollErrorView::PollNotFound(_) => ErrorKind::NotFound,
            PollErrorView::PollAlreadyExists(_) => ErrorKind::Conflict,
            PollErrorView::PollCreationError(_) => ErrorKind::Upstream,
            PollErrorView::PollVoteError(_) => ErrorKind::Conflict,
            PollErrorView::PollUpdateError(_) => ErrorKind::Upstream,
            PollErrorView::GeneralError(_) => ErrorKind::Upstream,
            PollErrorView::PollDeletionError(_) => ErrorKind::Upstream,
            PollErrorView::AlreadyVotedError(_) => ErrorKind::Conflict,
            PollErrorView::PollUnauthorizedAccess(_) => ErrorKind::Unauthorized,
        }
    }

    /// The text that describes the error to a reader.
    pub open spec fn message(self) -> Seq<char> {
        match self {
            PollErrorView::MongoError(detail) => "MongoDB Error: "@ + detail,
            PollErrorView::PollNotFound(detail) => "Poll with ID '"@ + detail + "' not found"@,
            PollErrorView::PollAlreadyExists(detail) => "Poll with title '"@ + detail + "' already exists"@,
            PollErrorView::PollCreationError(detail) => "Poll creation error: "@ + detail,
            PollErrorView::PollVoteError(detail) => "Poll vote error: "@ + detail,
            PollErrorView::PollUpdateError(detail) => "Poll update error: "@ + detail,
            PollErrorView::GeneralError(detail) => "Error: "@ + detail,
            PollErrorView::PollDeletionError(detail) => "Poll deletion error: "@ + detail,
            PollErrorView::AlreadyVotedError(detail) => "Conflict : "@ + detail,
            PollErrorView::PollUnauthorizedAccess(detail) => "Unauthorized Access : "@ + detail,
        }
    }
}

impl PollError {
    /// The kind of the error.
    pub fn kind(&self) -> (kind: ErrorKind)
        ensures
            kind == self@.kind(),
    {
        match self {
            PollError::MongoError(_) => ErrorKind::Upstream,
            PollError::PollNotFound(_) => ErrorKind::NotFound,
            PollError::PollAlreadyExists(_) => ErrorKind::Conflict,
            PollError::PollCreationError(_) => ErrorKind::Upstream,
            PollError::PollVoteError(_) => ErrorKind::Conflict,
            PollError::PollUpdateError(_) => ErrorKind::Upstream,
            PollError::GeneralError(_) => ErrorKind::Upstream,
            PollError::PollDeletionError(_) => ErrorKind::Upstream,
            PollError::AlreadyVotedError(_) => ErrorKind::Conflict,
            PollError::PollUnauthorizedAccess(_) => ErrorKind::Unauthorized,
        }
    }

    /// The text that describes the error to a reader.
    pub fn message(&self) -> (text: String)
        ensures
            text@ == self@.message(),
    {
        match self {
            PollError::MongoError(detail) => String::from_str("MongoDB Error: ").concat(detail.as_str()),
            PollError::PollNotFound(detail) => String::from_str("Poll with ID '").concat(detail.as_str()).concat("' not found"),
            PollError::PollAlreadyExists(detail) => String::from_str("Poll with title '").concat(detail.as_str()).concat("' already exists"),
            PollError::PollCreationError(detail) => String::from_str("Poll creation error: ").concat(detail.as_str()),
            PollError::PollVoteError(detail) => String::from_str("Poll vote error: ").concat(detail.as_str()),
            PollError::PollUpdateError(detail) => String::from_str("Poll update error: ").concat(detail.as_str()),
            PollError::GeneralError(detail) => String::from_str("Error: ").concat(detail.as_str()),
            PollError::PollDeletionError(detail) => String::from_str("Poll deletion error: ").concat(detail.as_str()),
            PollError::AlreadyVotedError(detail) => String::from_str("Conflict : ").concat(detail.as_str()),
            PollError::PollUnauthorizedAccess(detail) => String::from_str("Unauthorized Access : ").concat(detail.as_str()),
        }
    }
}

} // verus!
