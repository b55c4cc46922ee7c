use vstd::prelude::*;

use crate::reply::{Reply, ReplyView, Status};

verus! {

/// The four exchanges by which a user registers a credential and logs in
/// with it.
#[derive(Clone, Copy, Debug, PartialEq, Eq, Structural)]
pub enum Ceremony {
    RegisterStart,
    RegisterFinish,
    LoginStart,
    LoginFinish,
}

/// What is done outside for an exchange: a call to the store of users and
/// of pending states, or to the component that runs the credential
/// ceremony.
#[derive(Clone, Copy, Debug, PartialEq, Eq, Structural)]
pub enum Operation {
    /// Look the user up.
    FindUser,
    /// Begin the registration of a credential.
    StartRegistration,
    /// Turn the pending state into what the store holds.
    SerializeState,
    /// Store the pending state under the user's name.
    StoreState,
    /// Read the pending state stored under the user's name.
    LoadState,
    /// Turn what the store holds back into the pending state.
    DeserializeState,
    /// Hold the user's answer against the pending state.
    FinishCeremony,
    /// Delete the pending state after the ceremony failed.
    DiscardFailedState,
    /// Store the new user.
    InsertUser,
    /// Delete the pending state after the ceremony succeeded.
    DiscardState,
    /// Read the user's credentials.
    LoadCredentials,
    /// Turn what the store holds back into credentials.
    DeserializeCredentials,
    /// Begin an authentication against the credentials.
    StartAuthentication,
    /// Issue the token that the user logs in with.
    IssueToken,
}

/// How an operation ended.
#[derive(Clone, Copy, Debug, PartialEq, Eq, Structural)]
pub enum Outcome {
    /// It was carried out.
    Done,
    /// The lookup found what it looked for.
    Found,
    /// The lookup found nothing.
    Missing,
    /// It failed.
    Failed,
}

/// What is to be done next for an exchange.
#[derive(Debug)]
pub enum AuthAction {
    /// Carry the operation out, then report how it ended.
    Perform(Operation),
    /// Answer with the challenge that the ceremony produced.
    SendChallenge,
    /// Answer.
    Respond(Reply),
}

/// An action as a mathematical value.
pub enum AuthActionView {
    Perform(Operation),
    SendChallenge,
    Respond(ReplyView),
}

impl View for AuthAction {
    type V = AuthActionView;

    open spec fn view(&self) -> AuthActionView {
        match self {
            AuthAction::Perform(operation) => AuthActionView::Perform(*operation),
            AuthAction::SendChallenge => AuthActionView::SendChallenge,
            AuthAction::Respond(reply) => AuthActionView::Respond(reply@),
        }
    }
}

/// The action that answers with the given status and text.
pub open spec fn answer(status: Status, body: Seq<char>) -> AuthActionView {
    AuthActionView::Respond(ReplyView { status, body })
}

/// The operation that an exchange begins with.
pub open spec fn first_operation(ceremony: Ceremony) -> Operation {
    match ceremony {
        Ceremony::RegisterStart => Operation::FindUser,
        Ceremony::RegisterFinish => Operation::LoadState,
        Ceremony::LoginStart => Operation::LoadCredentials,
        Ceremony::LoginFinish => Operation::LoadState,
    }
}

/// The action that follows an operation of an exchange, by how it ended.
/// A pending state is deleted once the ceremony it belongs to has ended,
/// whether it succeeded or failed. What an exchange does not expect is
/// answered as an internal error.
pub open spec fn next_action(ceremony: Ceremony, operation: Operation, outcome: Outcome) -> AuthActionView {
    match (ceremony, operation, outcome) {
        (Ceremony::RegisterStart, Operation::FindUser, Outcome::Found) => answer(Status::Conflict, "User is already registered."@),
        (Ceremony::RegisterStart, Operation::FindUser, Outcome::Missing) => AuthActionView::Perform(Operation::StartRegistration),
        (Ceremony::RegisterStart, Operation::FindUser, Outcome::Failed) => answer(Status::InternalServerError, "Error checking user registration."@),
        (Ceremony::RegisterStart, Operation::StartRegistration, Outcome::Done) => AuthActionView::Perform(Operation::SerializeState),
        (Ceremony::RegisterStart, Operation::StartRegistration, Outcome::Failed) => answer(Status::InternalServerError, "Failed to start registration process."@),
        (Ceremony::RegisterStart, Operation::SerializeState, Outcome::Done) => AuthActionView::Perform(Operation::StoreState),
        (Ceremony::RegisterStart, Operation::SerializeState, Outcome::Failed) => answer(Status::InternalServerError, "Failed to serialize registration state."@),
        (Ceremony::RegisterStart, Operation::StoreState, Outcome::Done) => AuthActionView::SendChallenge,
        (Ceremony::RegisterFinish, Operation::LoadState, Outcome::Found) => AuthActionView::Perform(Operation::DeserializeState),
        (Ceremony::RegisterFinish, Operation::LoadState, Outcome::Missing) => answer(Status::Unauthorized, "Registration state not found for the user."@),
        (Ceremony::RegisterFinish, Operation::LoadState, Outcome::Failed) => answer(Status::InternalServerError, "Error while retrieving registration state."@),
        (Ceremony::RegisterFinish, Operation::DeserializeState, Outcome::Done) => AuthActionView::Perform(Operation::FinishCeremony),
        (Ceremony::RegisterFinish, Operation::DeserializeState, Outcome::Failed) => answer(Status::InternalServerError, "Failed to deserialize the registration state."@),
        (Ceremony::RegisterFinish, Operation::FinishCeremony, Outcome::Done) => AuthActionView::Perform(Operation::InsertUser),
        (Ceremony::RegisterFinish, Operation::FinishCeremony, Outcome::Failed) => AuthActionView::Perform(Operation::DiscardFailedState),
        (Ceremony::RegisterFinish, Operation::DiscardFailedState, Outcome::Done) => answer(Status::BadRequest, "Failed to finish the passkey registration process."@),
        (Ceremony::RegisterFinish, Operation::DiscardFailedState, Outcome::Failed) => answer(Status::InternalServerError, "Error registering user, and failed to clean up registration state."@),
        (Ceremony::RegisterFinish, Operation::InsertUser, Outcome::Done) => AuthActionView::Perform(Operation::DiscardState),
        (Ceremony::RegisterFinish, Operation::InsertUser, Outcome::Failed) => answer(Status::InternalServerError, "Failed to insert user data into the database. Please try registering again."@),
        (Ceremony::RegisterFinish, Operation::DiscardState, Outcome::Done) => answer(Status::Success, "User registered successfully."@),
        (Ceremony::RegisterFinish, Operation::DiscardState, Outcome::Failed) => answer(Status::InternalServerError, "User registered successfully, but failed to clean up registration state."@),
        (Ceremony::LoginStart, Operation::LoadCredentials, Outcome::Found) => AuthActionView::Perform(Operation::DeserializeCredentials),
        (Ceremony::LoginStart, Operation::LoadCredentials, Outcome::Missing) => answer(Status::NotFound, "User not found."@),
        (Ceremony::LoginStart, Operation::LoadCredentials, Outcome::Failed) => answer(Status::NotFound, "User not found."@),
        (Ceremony::LoginStart, Operation::DeserializeCredentials, Outcome::Done) => AuthActionView::Perform(Operation::StartAuthentication),
        (Ceremony::LoginStart, Operation::DeserializeCredentials, Outcome::Failed) => answer(Status::InternalServerError, "Failed to deserialize user credentials."@),
        (Ceremony::LoginStart, Operation::StartAuthentication, Outcome::Done) => AuthActionView::Perform(Operation::SerializeState),
        (Ceremony::LoginStart, Operation::StartAuthentication, Outcome::Failed) => answer(Status::InternalServerError, "Authentication challenge failed."@),
        (Ceremony::LoginStart, Operation::SerializeState, Outcome::Done) => AuthActionView::Perform(Operation::StoreState),
        (Ceremony::LoginStart, Operation::SerializeState, Outcome::Failed) => answer(Status::InternalServerError, "Failed to serialize authentication state."@),
        (Ceremony::LoginStart, Operation::StoreState, Outcome::Done) => AuthActionView::SendChallenge,
        (Ceremony::LoginStart, Operation::StoreState, Outcome::Failed) => answer(Status::InternalServerError, "Failed to store login state."@),
        (Ceremony::LoginFinish, Operation::LoadState, Outcome::Found) => AuthActionView::Perform(Operation::DeserializeState),
        (Ceremony::LoginFinish, Operation::LoadState, Outcome::Missing) => answer(Status::Unauthorized, "User doesn't have an active login state."@),
        (Ceremony::LoginFinish, Operation::LoadState, Outcome::Failed) => answer(Status::InternalServerError, "Failed to retrieve login state."@),
        (Ceremony::LoginFinish, Operation::DeserializeState, Outcome::Done) => AuthActionView::Perform(Operation::FinishCeremony),
        (Ceremony::LoginFinish, Operation::DeserializeState, Outcome::Failed) => answer(Status::InternalServerError, "Failed to deserialize authentication state."@),
        (Ceremony::LoginFinish, Operation::FinishCeremony, Outcome::Done) => AuthActionView::Perform(Operation::DiscardState),
        (Ceremony::LoginFinish, Operation::FinishCeremony, Outcome::Failed) => AuthActionView::Perform(Operation::DiscardFailedState),
        (Ceremony::LoginFinish, Operation::DiscardFailedState, Outcome::Done) => answer(Status::BadRequest, "Authentication failed."@),
        (Ceremony::LoginFinish, Operation::DiscardFailedState, Outcome::Failed) => answer(Status::InternalServerError, "Failed to clean up login state."@),
        (Ceremony::LoginFinish, Operation::DiscardState, Outcome::Done) => AuthActionView::Perform(Operation::IssueToken),
        (Ceremony::LoginFinish, Operation::DiscardState, Outcome::Failed) => answer(Status::InternalServerError, "Failed to clean up login state."@),
        (Ceremony::LoginFinish, Operation::IssueToken, Outcome::Done) => answer(Status::Success, "Logged in successfully."@),
        _ => answer(Status::InternalServerError, "Unexpected event."@),
    }
}

/// The operation that an exchange begins with.
pub fn begin(ceremony: Ceremony) -> (operation: Operation)
    ensures
        operation == first_operation(ceremony),
{
    match ceremony {
        Ceremony::RegisterStart => Operation::FindUser,
        Ceremony::RegisterFinish => Operation::LoadState,
        Ceremony::LoginStart => Operation::LoadCredentials,
        Ceremony::LoginFinish => Operation::LoadState,
    }
}

/// Takes an exchange one step on: from the operation that was carried out
/// and how it ended to the action to take next.
pub fn auth_step(ceremony: Ceremony, operation: Operation, outcome: Outcome) -> (action: AuthAction)
    ensures
        action@ == next_action(ceremony, operation, outcome),
{
    match (ceremony, operation, outcome) {
        (Ceremony::RegisterStart, Operation::FindUser, Outcome::Found) => AuthAction::Respond(Reply::new(Status::Conflict, "User is already registered.")),
        (Ceremony::RegisterStart, Operation::FindUser, Outcome::Missing) => AuthAction::Perform(Operation::StartRegistration),
        (Ceremony::RegisterStart, Operation::FindUser, Outcome::Failed) => AuthAction::Respond(Reply::new(Status::InternalServerError, "Error checking user registration.")),
        (Ceremony::RegisterStart, Operation::StartRegistration, Outcome::Done) => AuthAction::Perform(Operation::SerializeState),
        (Ceremony::RegisterStart, Operation::StartRegistration, Outcome::Failed) => AuthAction::Respond(Reply::new(Status::InternalServerError, "Failed to start registration process.")),
        (Ceremony::RegisterStart, Operation::SerializeState, Outcome::Done) => AuthAction::Perform(Operation::StoreState),
        (Ceremony::RegisterStart, Operation::SerializeState, Outcome::Failed) => AuthAction::Respond(Reply::new(Status::InternalServerError, "Failed to serialize registration state.")),
        (Ceremony::RegisterStart, Operation::StoreState, Outcome::Done) => AuthAction::SendChallenge,
        (Ceremony::RegisterFinish, Operation::LoadState, Outcome::Found) => AuthAction::Perform(Operation::DeserializeState),
        (Ceremony::RegisterFinish, Operation::LoadState, Outcome::Missing) => AuthAction::Respond(Reply::new(Status::Unauthorized, "Registration state not found for the user.")),
        (Ceremony::RegisterFinish, Operation::LoadState, Outcome::Failed) => AuthAction::Respond(Reply::new(Status::InternalServerError, "Error while retrieving registration state.")),
        (Ceremony::RegisterFinish, Operation::DeserializeState, Outcome::Done) => AuthAction::Perform(Operation::FinishCeremony),
        (Ceremony::RegisterFinish, Operation::DeserializeState, Outcome::Failed) => AuthAction::Respond(Reply::new(Status::InternalServerError, "Failed to deserialize the registration state.")),
        (Ceremony::RegisterFinish, Operation::FinishCeremony, Outcome::Done) => AuthAction::Perform(Operation::InsertUser),
        (Ceremony::RegisterFinish, Operation::FinishCeremony, Outcome::Failed) => AuthAction::Perform(Operation::DiscardFailedState),
        (Ceremony::RegisterFinish, Operation::DiscardFailedState, Outcome::Done) => AuthAction::Respond(Reply::new(Status::BadRequest, "Failed to finish the passkey registration process.")),
        (Ceremony::RegisterFinish, Operation::DiscardFailedState, Outcome::Failed) => AuthAction::Respond(Reply::new(Status::InternalServerError, "Error registering user, and failed to clean up registration state.")),
        (Ceremony::RegisterFinish, Operation::InsertUser, Outcome::Done) => AuthAction::Perform(Operation::DiscardState),
        (Ceremony::RegisterFinish, Operation::InsertUser, Outcome::Failed) => AuthAction::Respond(Reply::new(Status::InternalServerError, "Failed to insert user data into the database. Please try registering again.")),
        (Ceremony::RegisterFinish, Operation::DiscardState, Outcome::Done) => AuthAction::Respond(Reply::new(Status::Success, "User registered successfully.")),
        (Ceremony::RegisterFinish, Operation::DiscardState, Outcome::Failed) => AuthAction::Respond(Reply::new(Status::InternalServerError, "User registered successfully, but failed to clean up registration state.")),
        (Ceremony::LoginStart, Operation::LoadCredentials, Outcome::Found) => AuthAction::Perform(Operation::DeserializeCredentials),
        (Ceremony::LoginStart, Operation::LoadCredentials, Outcome::Missing) => AuthAction::Respond(Reply::new(Status::NotFound, "User not found.")),
        (Ceremony::LoginStart, Operation::LoadCredentials, Outcome::Failed) => AuthAction::Respond(Reply::new(Status::NotFound, "User not found.")),
        (Ceremony::LoginStart, Operation::DeserializeCredentials, Outcome::Done) => AuthAction::Perform(Operation::StartAuthentication),
        (Ceremony::LoginStart, Operation::DeserializeCredentials, Outcome::Failed) => AuthAction::Respond(Reply::new(Status::InternalServerError, "Failed to deserialize user credentials.")),
        (Ceremony::LoginStart, Operation::StartAuthentication, Outcome::Done) => AuthAction::Perform(Operation::SerializeState),
        (Ceremony::LoginStart, Operation::StartAuthentication, Outcome::Failed) => AuthAction::Respond(Reply::new(Status::InternalServerError, "Authentication challenge failed.")),
        (Ceremony::LoginStart, Operation::SerializeState, Outcome::Done) => AuthAction::Perform(Operation::StoreState),
        (Ceremony::LoginStart, Operation::SerializeState, Outcome::Failed) => AuthAction::Respond(Reply::new(Status::InternalServerError, "Failed to serialize authentication state.")),
        (Ceremony::LoginStart, Operation::StoreState, Outcome::Done) => AuthAction::SendChallenge,
        (Ceremony::LoginStart, Operation::StoreState, Outcome::Failed) => AuthAction::Respond(Reply::new(Status::InternalServerError, "Failed to store login state.")),
        (Ceremony::LoginFinish, Operation::LoadState, Outcome::Found) => AuthAction::Perform(Operation::DeserializeState),
        (Ceremony::LoginFinish, Operation::LoadState, Outcome::Missing) => AuthAction::Respond(Reply::new(Status::Unauthorized, "User doesn't have an active login state.")),
        (Ceremony::LoginFinish, Operation::LoadState, Outcome::Failed) => AuthAction::Respond(Reply::new(Status::InternalServerError, "Failed to retrieve login state.")),
        (Ceremony::LoginFinish, Operation::DeserializeState, Outcome::Done) => AuthAction::Perform(Operation::FinishCeremony),
        (Ceremony::LoginFinish, Operation::DeserializeState, Outcome::Failed) => AuthAction::Respond(Reply::new(Status::InternalServerError, "Failed to deserialize authentication state.")),
        (Ceremony::LoginFinish, Operation::FinishCeremony, Outcome::Done) => AuthAction::Perform(Operation::DiscardState),
        (Ceremony::LoginFinish, Operation::FinishCeremony, Outcome::Failed) => AuthAction::Perform(Operation::DiscardFailedState),
        (Ceremony::LoginFinish, Operation::DiscardFailedState, Outcome::Done) => AuthAction::Respond(Reply::new(Status::BadRequest, "Authentication failed.")),
        (Ceremony::LoginFinish, Operation::DiscardFailedState, Outcome::Failed) => AuthAction::Respond(Reply::new(Status::InternalServerError, "Failed to clean up login state.")),
        (Ceremony::LoginFinish, Operation::DiscardState, Outcome::Done) => AuthAction::Perform(Operation::IssueToken),
        (Ceremony::LoginFinish, Operation::DiscardState, Outcome::Failed) => AuthAction::Respond(Reply::new(Status::InternalServerError, "Failed to clean up login state.")),
        (Ceremony::LoginFinish, Operation::IssueToken, Outcome::Done) => AuthAction::Respond(Reply::new(Status::Success, "Logged in successfully.")),
        _ => AuthAction::Respond(Reply::new(Status::InternalServerError, "Unexpected event.")),
    }
}

/// The pending state does not outlive its ceremony. Where the user's
/// answer is held against the pending state, the state is deleted next,
/// whether the answer stood or not, and before the user is answered: the
/// exchange answers with success only after the state was deleted.
pub proof fn lemma_pending_state_is_discarded(ceremony: Ceremony, outcome: Outcome)
    requires
        ceremony == Ceremony::RegisterFinish || ceremony == Ceremony::LoginFinish,
        outcome == Outcome::Done || outcome == Outcome::Failed,
    ensures
        next_action(ceremony, Operation::FinishCeremony, Outcome::Failed) == AuthActionView::Perform(
            Operation::DiscardFailedState,
        ),
        next_action(Ceremony::LoginFinish, Operation::FinishCeremony, Outcome::Done)
            == AuthActionView::Perform(Operation::DiscardState),
        next_action(Ceremony::RegisterFinish, Operation::InsertUser, Outcome::Done)
            == AuthActionView::Perform(Operation::DiscardState),
        forall|operation: Operation|
            (#[trigger] next_action(ceremony, operation, outcome) matches AuthActionView::Respond(
                reply,
            ) && reply.status == Status::Success) ==> operation == Operation::DiscardState
                || operation == Operation::IssueToken,
{
}

} // verus!
