use vstd::prelude::*;
use vstd::string::*;

use crate::poll_config::ErrorKind;

verus! {

/// What can go wrong with a user. Each variant carries its detail as text.
#[derive(Debug)]
pub enum Error {
    MongoError(String),
    UserNotFound(String),
    UserAlreadyExists(String),
    RegistrationStateError(String),
    LoginStateError(String),
    GeneralError(String),
}

/// An error as a mathematical value.
pub enum ErrorView {
    MongoError(Seq<char>),
    UserNotFound(Seq<char>),
    UserAlreadyExists(Seq<char>),
    RegistrationStateError(Seq<char>),
    LoginStateError(Seq<char>),
    GeneralError(Seq<char>),
}

impl View for Error {
    type V = ErrorView;

    open spec fn view(&self) -> ErrorView {
        match self {
            Error::MongoError(detail) => ErrorView::MongoError(detail@),
            Error::UserNotFound(detail) => ErrorView::UserNotFound(detail@),
            Error::UserAlreadyExists(detail) => ErrorView::UserAlreadyExists(detail@),
            Error::RegistrationStateError(detail) => ErrorView::RegistrationStateError(detail@),
            Error::LoginStateError(detail) => ErrorView::LoginStateError(detail@),
            Error::GeneralError(detail) => ErrorView::GeneralError(detail@),
        }
    }
}

impl ErrorView {
    /// The detail that the error carries.
    pub open spec fn detail(self) -> Seq<char> {
        match self {
            ErrorView::MongoError(detail) => detail,
            ErrorView::UserNotFound(detail) => detail,
            ErrorView::UserAlreadyExists(detail) => detail,
            ErrorView::RegistrationStateError(detail) => detail,
            ErrorView::LoginStateError(detail) => detail,
            ErrorView::GeneralError(detail) => detail,
        }
    }

    /// The kind of the error.
    pub open spec fn kind(self) -> ErrorKind {
        match self {
            ErrorView::MongoError(_) => ErrorKind::Upstream,
            ErrorView::UserNotFound(_) => ErrorKind::NotFound,
            ErrorView::UserAlreadyExists(_) => ErrorKind::Conflict,
            ErrorView::RegistrationStateError(_) => ErrorKind::Serialization,
            ErrorView::LoginStateError(_) => ErrorKind::Serialization,
            ErrorView::GeneralError(_) => ErrorKind::Upstream,
        }
    }

    /// The text that describes the error to a reader.
    pub open spec fn message(self) -> Seq<char> {
        match self {
            ErrorView::MongoError(detail) => "MongoDB Error: "@ + detail,
            ErrorView::UserNotFound(detail) => "User '"@ + detail + "' not found"@,
            ErrorView::UserAlreadyExists(detail) => "User '"@ + detail + "' already exists"@,
            ErrorView::RegistrationStateError(detail) => "Registration state error: "@ + detail,
            ErrorView::LoginStateError(detail) => "Login state error: "@ + detail,
            ErrorView::GeneralError(detail) => "Error: "@ + detail,
        }
    }
}

impl Error {
    /// The kind of the error.
    pub fn kind(&self) -> (kind: ErrorKind)
        ensures
            kind == self@.kind(),
    {
        match self {
            Error::MongoError(_) => ErrorKind::Upstream,
            Error::UserNotFound(_) => ErrorKind::NotFound,
            Error::UserAlreadyExists(_) => ErrorKind::Conflict,
            Error::RegistrationStateError(_) => ErrorKind::Serialization,
            Error::LoginStateError(_) => ErrorKind::Serialization,
            Error::GeneralError(_) => ErrorKind::Upstream,
        }
    }

    /// The text that describes the error to a reader.
    pub fn message(&self) -> (text: String)
        ensures
            text@ == self@.message(),
    {
        match self {
            Error::MongoError(detail) => String::from_str("MongoDB Error: ").concat(detail.as_str()),
            Error::UserNotFound(detail) => String::from_str("User '").concat(detail.as_str()).concat("' not found"),
            Error::UserAlreadyExists(detail) => String::from_str("User '").concat(detail.as_str()).concat("' already exists"),
            Error::RegistrationStateError(detail) => String::from_str("Registration state error: ").concat(detail.as_str()),
            Error::LoginStateError(detail) => String::from_str("Login state error: ").concat(detail.as_str()),
            Error::GeneralError(detail) => String::from_str("Error: ").concat(detail.as_str()),
        }
    }
}

} // verus!
