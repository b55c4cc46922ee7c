use vstd::prelude::*;

verus! {

/// A request to create a poll.
#[derive(Debug)]
pub struct PollCreation {
    pub title: String,
    pub username: String,
    pub options: Vec<String>,
}

/// A request to vote for an option.
#[derive(Debug)]
pub struct VoteOption {
    pub option_id: String,
    pub username: String,
}

/// A request that names only the user who makes it.
#[derive(Debug)]
pub struct UserNameRequest {
    pub username: String,
}

/// A request to register a user.
#[derive(Debug)]
pub struct RegisterRequest {
    pub username: String,
}

/// A credential as the store holds it.
#[derive(Clone, Debug)]
pub struct StoredCredential {
    pub credential_id: Vec<u8>,
    pub credential_data: Vec<u8>,
}

} // verus!
