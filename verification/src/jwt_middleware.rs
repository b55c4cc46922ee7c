use vstd::prelude::*;
use vstd::string::*;

use crate::reply::Status;

verus! {

/// Why a request is turned away before it reaches a protected route.
#[derive(Debug)]
pub struct Rejection {
    pub status: Status,
    pub error: String,
    pub message: String,
}

/// A rejection as a mathematical value.
pub struct RejectionView {
    pub status: Status,
    pub error: Seq<char>,
    pub message: Seq<char>,
}

impl View for Rejection {
    type V = RejectionView;

    open spec fn view(&self) -> RejectionView {
        RejectionView { status: self.status, error: self.error@, message: self.message@ }
    }
}

/// The rejection of a request for which the server has no secret to check
/// tokens with.
pub open spec fn no_secret() -> RejectionView {
    RejectionView {
        status: Status::InternalServerError,
        error: "Internal Server Error"@,
        message: "JWT_SECRET is not set in the environment variables"@,
    }
}

/// The rejection of a request that carries no token.
pub open spec fn no_token() -> RejectionView {
    RejectionView {
        status: Status::Unauthorized,
        error: "Unauthorized"@,
        message: "No token found in cookies"@,
    }
}

/// The rejection of a request whose token is invalid or has expired.
pub open spec fn bad_token() -> RejectionView {
    RejectionView {
        status: Status::Unauthorized,
        error: "Unauthorized"@,
        message: "Invalid or expired token"@,
    }
}

/// Whether a request may pass, or why not: the server must have a secret,
/// the request a token, and the token must have been found valid, which
/// `token_valid` says where there are both.
pub open spec fn admission(secret_set: bool, token_found: bool, token_valid: bool) -> Option<
    RejectionView,
> {
    if !secret_set {
        Some(no_secret())
    } else if !token_found {
        Some(no_token())
    } else if !token_valid {
        Some(bad_token())
    } else {
        None
    }
}

/// Decides whether a request may pass to a protected route. `token_valid`
/// is read only where there are a secret and a token.
pub fn jwt_middleware(secret_set: bool, token_found: bool, token_valid: bool) -> (outcome: Result<
    (),
    Rejection,
>)
    ensures
        match outcome {
            Ok(_) => admission(secret_set, token_found, token_valid) is None,
            Err(rejection) => admission(secret_set, token_found, token_valid) == Some(
                rejection@,
            ),
        },
{
    if !secret_set {
        Err(
            Rejection {
                status: Status::InternalServerError,
                error: String::from_str("Internal Server Error"),
                message: String::from_str("JWT_SECRET is not set in the environment variables"),
            },
        )
    } else if !token_found {
        Err(
            Rejection {
                status: Status::Unauthorized,
                error: String::from_str("Unauthorized"),
                message: String::from_str("No token found in cookies"),
            },
        )
    } else if !token_valid {
        Err(
            Rejection {
                status: Status::Unauthorized,
                error: String::from_str("Unauthorized"),
                message: String::from_str("Invalid or expired token"),
            },
        )
    } else {
        Ok(())
    }
}

} // verus!
