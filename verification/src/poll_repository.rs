use vstd::prelude::*;
use vstd::string::*;

use crate::poll_config::{PollError, PollErrorView};
use crate::poll_model::{Poll, PollView};
use crate::text::same_text;
use crate::vote::{
    already_voted_text, find_vote, held_option, same_option_text, PollWrite, PollWriteView,
};

verus! {

/// The poll that was found, as a mathematical value.
pub open spec fn found_view(found: Option<&Poll>) -> Option<PollView> {
    match found {
        Some(poll) => Some(poll@),
        None => None,
    }
}

/// The outcome of a decision, as a mathematical value.
pub open spec fn write_view(outcome: Result<PollWrite, PollError>) -> Result<
    PollWriteView,
    PollErrorView,
> {
    match outcome {
        Ok(write) => Ok(write@),
        Err(error) => Err(error@),
    }
}

/// The outcome of a check, as a mathematical value.
pub open spec fn check_view(outcome: Result<bool, PollError>) -> Result<bool, PollErrorView> {
    match outcome {
        Ok(answer) => Ok(answer),
        Err(error) => Err(error@),
    }
}

/// Whether the voter has a vote in the poll; an error where there is no
/// poll.
pub open spec fn vote_check(found: Option<PollView>, username: Seq<char>) -> Result<
    bool,
    PollErrorView,
> {
    match found {
        Some(poll) => Ok(held_option(poll.voters, username) is Some),
        None => Err(PollErrorView::PollNotFound("Poll not found"@)),
    }
}

/// The write that records a first vote. It is refused where there is no
/// poll, and where the voter holds a vote already.
pub open spec fn cast_vote_write(
    found: Option<PollView>,
    option_id: Seq<char>,
    username: Seq<char>,
) -> Result<PollWriteView, PollErrorView> {
    match found {
        Some(poll) => if held_option(poll.voters, username) is Some {
            Err(PollErrorView::AlreadyVotedError(already_voted_text()))
        } else {
            Ok(PollWriteView::CastVote { option_id, username })
        },
        None => Err(PollErrorView::PollNotFound("Poll not found"@)),
    }
}

/// The write that moves the voter's vote to the new option. It is refused
/// where there is no poll, where the voter has no vote, and where the
/// voter holds the new option already.
pub open spec fn change_vote_write(
    found: Option<PollView>,
    new_option_id: Seq<char>,
    username: Seq<char>,
) -> Result<PollWriteView, PollErrorView> {
    match found {
        Some(poll) => match held_option(poll.voters, username) {
            Some(previous_option_id) => if previous_option_id == new_option_id {
                Err(PollErrorView::AlreadyVotedError(same_option_text()))
            } else {
                Ok(PollWriteView::ChangeVote { previous_option_id, new_option_id, username })
            },
            None => Err(PollErrorView::PollVoteError("User did not vote in the poll."@)),
        },
        None => Err(PollErrorView::PollNotFound("Poll not found"@)),
    }
}

/// Whether the user created the poll; an error where there is no poll.
pub open spec fn ownership_check(found: Option<PollView>, username: Seq<char>) -> Result<
    bool,
    PollErrorView,
> {
    match found {
        Some(poll) => Ok(poll.username == username),
        None => Err(PollErrorView::PollNotFound("Poll not found"@)),
    }
}

/// The write that the creator may ask for, or the error for anyone else,
/// with `refusal` as its detail.
pub open spec fn creator_write(
    found: Option<PollView>,
    username: Seq<char>,
    write: PollWriteView,
    refusal: Seq<char>,
) -> Result<PollWriteView, PollErrorView> {
    match ownership_check(found, username) {
        Ok(true) => Ok(write),
        Ok(false) => Err(PollErrorView::PollUnauthorizedAccess(refusal)),
        Err(error) => Err(error),
    }
}

/// The write that closes the poll, for its creator only.
pub open spec fn close_write(found: Option<PollView>, username: Seq<char>) -> Result<
    PollWriteView,
    PollErrorView,
> {
    creator_write(
        found,
        username,
        PollWriteView::Close,
        "Poll can be deleted only by the creator."@,
    )
}

/// The write that resets the poll, for its creator only.
pub open spec fn reset_write(found: Option<PollView>, username: Seq<char>) -> Result<
    PollWriteView,
    PollErrorView,
> {
    creator_write(found, username, PollWriteView::Reset, "Only the creator can reset the votes."@)
}

/// Whether the voter has a vote recorded in the poll that was found.
pub fn check_user_vote_in_poll(found: Option<&Poll>, username: &str) -> (outcome: Result<
    bool,
    PollError,
>)
    ensures
        check_view(outcome) == vote_check(found_view(found), username@),
{
    match found {
        Some(poll) => {
            let vote = find_vote(&poll.voters, username);
            Ok(vote.is_some())
        },
        None => Err(PollError::PollNotFound(String::from_str("Poll not found"))),
    }
}

/// The write that records a first vote of the voter for the option: one
/// vote more for the option, and the vote recorded. It is refused for a
/// voter who holds a vote already.
pub fn cast_vote_to_poll_by_id(found: Option<&Poll>, option_id: &str, username: &str) -> (outcome:
    Result<PollWrite, PollError>)
    ensures
        write_view(outcome) == cast_vote_write(found_view(found), option_id@, username@),
{
    match found {
        Some(poll) => match find_vote(&poll.voters, username) {
            Some(_) => Err(
                PollError::AlreadyVotedError(String::from_str("Already voted in the poll.")),
            ),
            None => Ok(
                PollWrite::CastVote {
                    option_id: String::from_str(option_id),
                    username: String::from_str(username),
                },
            ),
        },
        None => Err(PollError::PollNotFound(String::from_str("Poll not found"))),
    }
}

/// The write that moves the voter's vote to the new option, in one step:
/// one vote less for the option that the voter holds, one more for the new
/// one, and the recorded vote rewritten.
pub fn change_vote_in_poll_by_id(
    found: Option<&Poll>,
    new_option_id: &str,
    username: &str,
) -> (outcome: Result<PollWrite, PollError>)
    ensures
        write_view(outcome) == change_vote_write(found_view(found), new_option_id@, username@),
{
    match found {
        Some(poll) => match find_vote(&poll.voters, username) {
            Some(vote) => {
                if same_text(vote.option_id.as_str(), new_option_id) {
                    Err(
                        PollError::AlreadyVotedError(
                            String::from_str("Already voted to the option in the poll."),
                        ),
                    )
                } else {
                    Ok(
                        PollWrite::ChangeVote {
                            previous_option_id: vote.option_id.clone(),
                            new_option_id: String::from_str(new_option_id),
                            username: String::from_str(username),
                        },
                    )
                }
            },
            None => Err(PollError::PollVoteError(String::from_str("User did not vote in the poll."))),
        },
        None => Err(PollError::PollNotFound(String::from_str("Poll not found"))),
    }
}

/// Whether the user created the poll that was found.
pub fn check_user_ownership_on_poll(found: Option<&Poll>, username: &str) -> (outcome: Result<
    bool,
    PollError,
>)
    ensures
        check_view(outcome) == ownership_check(found_view(found), username@),
{
    match found {
        Some(poll) => Ok(same_text(poll.username.as_str(), username)),
        None => Err(PollError::PollNotFound(String::from_str("Poll not found"))),
    }
}

/// The write that closes the poll, where the user is its creator.
pub fn close_poll_by_id(found: Option<&Poll>, username: &str) -> (outcome: Result<
    PollWrite,
    PollError,
>)
    ensures
        write_view(outcome) == close_write(found_view(found), username@),
{
    match check_user_ownership_on_poll(found, username) {
        Ok(owner) => {
            if owner {
                Ok(PollWrite::Close)
            } else {
                Err(
                    PollError::PollUnauthorizedAccess(
                        String::from_str("Poll can be deleted only by the creator."),
                    ),
                )
            }
        },
        Err(error) => Err(error),
    }
}

/// The write that sets every count of the poll to zero and forgets every
/// recorded vote, where the user is its creator.
pub fn reset_poll_by_id(found: Option<&Poll>, username: &str) -> (outcome: Result<
    PollWrite,
    PollError,
>)
    ensures
        write_view(outcome) == reset_write(found_view(found), username@),
{
    match check_user_ownership_on_poll(found, username) {
        Ok(owner) => {
            if owner {
                Ok(PollWrite::Reset)
            } else {
                Err(
                    PollError::PollUnauthorizedAccess(
                        String::from_str("Only the creator can reset the votes."),
                    ),
                )
            }
        },
        Err(error) => Err(error),
    }
}

/// The error for a write that the store failed to carry out, with the
/// store's own words as `cause`.
pub open spec fn store_failure_of(write: PollWriteView, cause: Seq<char>) -> PollErrorView {
    match write {
        PollWriteView::CastVote { option_id, username } => PollErrorView::GeneralError(
            "Failed to cast vote: "@ + cause,
        ),
        PollWriteView::ChangeVote {
            previous_option_id,
            new_option_id,
            username,
        } => PollErrorView::GeneralError("Failed to change vote: "@ + cause),
        PollWriteView::Close => PollErrorView::PollUpdateError(cause),
        PollWriteView::Reset => PollErrorView::GeneralError("Failed to reset votes: "@ + cause),
    }
}

/// What became of a write that the store accepted, by the number of polls
/// that it matched. A vote is written on the condition that the voter's
/// recorded vote is still the one that the write starts from; where no
/// poll met it, the vote was not written, and that is an error. Of two
/// votes of one voter that start from the same recorded vote, the store
/// carries out one.
pub open spec fn matched_write(write: PollWriteView, matched: u64) -> Result<(), PollErrorView> {
    if matched == 0 && (write is CastVote || write is ChangeVote) {
        Err(PollErrorView::PollVoteError("The poll changed while the vote was written."@))
    } else {
        Ok(())
    }
}

/// The error for a write that the store failed to carry out.
pub fn store_failure(write: &PollWrite, cause: &str) -> (error: PollError)
    ensures
        error@ == store_failure_of(write@, cause@),
{
    match write {
        PollWrite::CastVote { .. } => PollError::GeneralError(
            String::from_str("Failed to cast vote: ").concat(cause),
        ),
        PollWrite::ChangeVote { .. } => PollError::GeneralError(
            String::from_str("Failed to change vote: ").concat(cause),
        ),
        PollWrite::Close => PollError::PollUpdateError(String::from_str(cause)),
        PollWrite::Reset => PollError::GeneralError(
            String::from_str("Failed to reset votes: ").concat(cause),
        ),
    }
}

/// Says what became of a write that the store accepted and that matched
/// `matched` polls.
pub fn check_matched(write: &PollWrite, matched: u64) -> (outcome: Result<(), PollError>)
    ensures
        match outcome {
            Ok(_) => matched_write(write@, matched) is Ok,
            Err(error) => matched_write(write@, matched) == Err::<(), PollErrorView>(error@),
        },
{
    let vote = match write {
        PollWrite::CastVote { .. } => true,
        PollWrite::ChangeVote { .. } => true,
        _ => false,
    };
    if matched == 0 && vote {
        Err(PollError::PollVoteError(String::from_str("The poll changed while the vote was written.")))
    } else {
        Ok(())
    }
}

} // verus!
