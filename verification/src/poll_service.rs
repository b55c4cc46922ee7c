use vstd::prelude::*;
use vstd::string::*;

use crate::clock::current_time;
use crate::poll_config::{PollError, PollErrorView};
use crate::poll_model::{
    OptionItem, Poll, PollQueryParams, PollQueryParamsView, PollResults, PollView, VoteHistory,
};
use crate::poll_repository::{
    cast_vote_to_poll_by_id, cast_vote_write, change_vote_in_poll_by_id, change_vote_write,
    check_user_vote_in_poll, close_poll_by_id, close_write, found_view, reset_poll_by_id,
    reset_write, vote_check,
};
use crate::poll_results_utility::{calculate_poll_results, poll_results};
use crate::reply::{status_for, status_of, Reply, ReplyView, Status};
use crate::text::same_text;
use crate::types::{PollCreation, UserNameRequest, VoteOption};
use crate::vote::{PollWrite, PollWriteView};

verus! {

/// A request that changes a stored poll.
#[derive(Debug)]
pub enum PollRequest {
    /// Cast a vote, or change the vote that the voter holds.
    Vote(VoteOption),
    /// Close the poll.
    Close(UserNameRequest),
    /// Reset the poll's votes.
    Reset(UserNameRequest),
}

/// A request as a mathematical value.
pub enum PollRequestView {
    Vote { option_id: Seq<char>, username: Seq<char> },
    Close { username: Seq<char> },
    Reset { username: Seq<char> },
}

impl View for PollRequest {
    type V = PollRequestView;

    open spec fn view(&self) -> PollRequestView {
        match self {
            PollRequest::Vote(vote) => PollRequestView::Vote {
                option_id: vote.option_id@,
                username: vote.username@,
            },
            PollRequest::Close(by) => PollRequestView::Close { username: by.username@ },
            PollRequest::Reset(by) => PollRequestView::Reset { username: by.username@ },
        }
    }
}

/// How far the handling of a request has come.
#[derive(Clone, Copy, Debug, PartialEq, Eq, Structural)]
pub enum Stage {
    /// The poll is being read.
    Fetching,
    /// The write is with the store; `changed` says that it moves a vote.
    Writing { changed: bool },
    /// The poll is being read again after the write.
    Reloading { changed: bool },
    /// The request is answered.
    Finished,
}

/// What the store reported.
#[derive(Debug)]
pub enum Event {
    /// The poll was read; `None` where there is none.
    Fetched(Option<Poll>),
    /// The poll could not be read.
    FetchFailed(PollError),
    /// The write was carried out.
    Written,
    /// The write failed.
    WriteFailed(PollError),
}

/// An event as a mathematical value.
pub enum EventView {
    Fetched(Option<PollView>),
    FetchFailed(PollErrorView),
    Written,
    WriteFailed(PollErrorView),
}

impl View for Event {
    type V = EventView;

    open spec fn view(&self) -> EventView {
        match self {
            Event::Fetched(Some(poll)) => EventView::Fetched(Some(poll@)),
            Event::Fetched(None) => EventView::Fetched(None),
            Event::FetchFailed(error) => EventView::FetchFailed(error@),
            Event::Written => EventView::Written,
            Event::WriteFailed(error) => EventView::WriteFailed(error@),
        }
    }
}

/// What is to be done next for a request.
#[derive(Debug)]
pub enum Action {
    /// Hand the write to the store, then report `Written` or `WriteFailed`.
    Write(PollWrite),
    /// Read the poll again, then report `Fetched` or `FetchFailed`.
    Reload,
    /// Publish the poll and its results to the subscribers, then answer.
    Announce { poll: Poll, reply: Reply },
    /// Answer.
    Respond(Reply),
}

/// An action as a mathematical value.
pub enum ActionView {
    Write(PollWriteView),
    Reload,
    Announce { poll: PollView, reply: ReplyView },
    Respond(ReplyView),
}

impl View for Action {
    type V = ActionView;

    open spec fn view(&self) -> ActionView {
        match self {
            Action::Write(write) => ActionView::Write(write@),
            Action::Reload => ActionView::Reload,
            Action::Announce { poll, reply } => ActionView::Announce { poll: poll@, reply: reply@ },
            Action::Respond(reply) => ActionView::Respond(reply@),
        }
    }
}

/// The reply that reports an error, with `prefix` before its text.
pub open spec fn error_reply(prefix: Seq<char>, error: PollErrorView) -> ReplyView {
    ReplyView { status: status_of(error.kind()), body: prefix + error.message() }
}

/// What stands before the text of an error in the reply to the request.
pub open spec fn error_prefix(request: PollRequestView, changed: bool) -> Seq<char> {
    match request {
        PollRequestView::Vote { option_id, username } => if changed {
            ""@
        } else {
            "Error voting to the poll "@
        },
        PollRequestView::Close { username } => "Error closing poll : "@,
        PollRequestView::Reset { username } => "Error resetting poll : "@,
    }
}

/// The text that answers a request whose write was carried out and
/// published.
pub open spec fn success_text(request: PollRequestView) -> Seq<char> {
    match request {
        PollRequestView::Vote { option_id, username } => "Successfully voted to the poll."@,
        PollRequestView::Close { username } => "Closed poll successfully."@,
        PollRequestView::Reset { username } => "Poll reset successfully."@,
    }
}

/// The text that answers a request whose write was carried out, where the
/// poll could not be read again.
pub open spec fn unpublished_text(request: PollRequestView, changed: bool) -> Seq<char> {
    match request {
        PollRequestView::Vote { option_id, username } => if changed {
            "Successfully changed your option."@
        } else {
            "Successfully voted for the option."@
        },
        PollRequestView::Close { username } => "No poll found with given id."@,
        PollRequestView::Reset { username } => "No poll found with given id."@,
    }
}

/// What a vote leads to. There must be a poll, and it must be open. A voter
/// without a vote casts one. A voter with a vote changes it, unless it is
/// for the same option: that is refused.
pub open spec fn vote_decision(
    found: Option<PollView>,
    option_id: Seq<char>,
    username: Seq<char>,
) -> Result<PollWriteView, ReplyView> {
    match found {
        None => Err(ReplyView { status: Status::NotFound, body: "No poll found with given id."@ }),
        Some(poll) => if !poll.is_active {
            Err(ReplyView { status: Status::Conflict, body: "Cannot vote to a closed poll"@ })
        } else {
            match vote_check(found, username) {
                Ok(true) => match change_vote_write(found, option_id, username) {
                    Ok(write) => Ok(write),
                    Err(error) => Err(error_reply(""@, error)),
                },
                Ok(false) => match cast_vote_write(found, option_id, username) {
                    Ok(write) => Ok(write),
                    Err(error) => Err(error_reply(""@, error)),
                },
                Err(error) => Err(error_reply(""@, error)),
            }
        },
    }
}

/// What the request leads to once the poll was read: the write to hand to
/// the store, or the reply that refuses the request.
pub open spec fn decision(request: PollRequestView, found: Option<PollView>) -> Result<
    PollWriteView,
    ReplyView,
> {
    match request {
        PollRequestView::Vote { option_id, username } => vote_decision(
            found,
            option_id,
            username,
        ),
        PollRequestView::Close { username } => match close_write(found, username) {
            Ok(write) => Ok(write),
            Err(error) => Err(error_reply(error_prefix(request, false), error)),
        },
        PollRequestView::Reset { username } => match reset_write(found, username) {
            Ok(write) => Ok(write),
            Err(error) => Err(error_reply(error_prefix(request, false), error)),
        },
    }
}

/// The reply to an event that the stage does not expect.
pub open spec fn unexpected_reply() -> ReplyView {
    ReplyView { status: Status::InternalServerError, body: "Unexpected event."@ }
}

/// The next stage and the action to take, from the stage of the request
/// and the event that the store reported.
pub open spec fn next_step(request: PollRequestView, stage: Stage, event: EventView) -> (
    Stage,
    ActionView,
) {
    match (stage, event) {
        (Stage::Fetching, EventView::Fetched(found)) => match decision(request, found) {
            Ok(write) => (
                Stage::Writing { changed: write is ChangeVote },
                ActionView::Write(write),
            ),
            Err(reply) => (Stage::Finished, ActionView::Respond(reply)),
        },
        (Stage::Fetching, EventView::FetchFailed(error)) => (
            Stage::Finished,
            ActionView::Respond(error_reply(""@, error)),
        ),
        (Stage::Writing { changed }, EventView::Written) => (
            Stage::Reloading { changed },
            ActionView::Reload,
        ),
        (Stage::Writing { changed }, EventView::WriteFailed(error)) => (
            Stage::Finished,
            ActionView::Respond(error_reply(error_prefix(request, changed), error)),
        ),
        (Stage::Reloading { changed }, EventView::Fetched(Some(poll))) => (
            Stage::Finished,
            ActionView::Announce {
                poll,
                reply: ReplyView { status: Status::Success, body: success_text(request) },
            },
        ),
        (Stage::Reloading { changed }, EventView::Fetched(None)) => (
            Stage::Finished,
            ActionView::Respond(
                ReplyView { status: Status::Success, body: unpublished_text(request, changed) },
            ),
        ),
        (Stage::Reloading { changed }, EventView::FetchFailed(error)) => (
            Stage::Finished,
            ActionView::Respond(
                ReplyView { status: Status::Success, body: unpublished_text(request, changed) },
            ),
        ),
        _ => (Stage::Finished, ActionView::Respond(unexpected_reply())),
    }
}

/// The outcome of a decision, as a mathematical value.
pub open spec fn decision_view(outcome: Result<PollWrite, Reply>) -> Result<
    PollWriteView,
    ReplyView,
> {
    match outcome {
        Ok(write) => Ok(write@),
        Err(reply) => Err(reply@),
    }
}

/// The reply that reports an error, with `prefix` before its text.
pub fn reply_for_error(prefix: &str, error: &PollError) -> (reply: Reply)
    ensures
        reply@ == error_reply(prefix@, error@),
{
    let message = error.message();
    Reply {
        status: status_for(error.kind()),
        body: String::from_str(prefix).concat(message.as_str()),
    }
}

/// What stands before the text of an error in the reply to the request.
pub fn prefix_for(request: &PollRequest, changed: bool) -> (prefix: &'static str)
    ensures
        prefix@ == error_prefix(request@, changed),
{
    match request {
        PollRequest::Vote(_) => if changed {
            ""
        } else {
            "Error voting to the poll "
        },
        PollRequest::Close(_) => "Error closing poll : ",
        PollRequest::Reset(_) => "Error resetting poll : ",
    }
}

/// Decides what a vote leads to on the poll that was read.
pub fn decide_vote(found: Option<&Poll>, option_id: &str, username: &str) -> (outcome: Result<
    PollWrite,
    Reply,
>)
    ensures
        decision_view(outcome) == vote_decision(found_view(found), option_id@, username@),
{
    match found {
        None => Err(Reply::new(Status::NotFound, "No poll found with given id.")),
        Some(poll) => {
            if !poll.is_active {
                return Err(Reply::new(Status::Conflict, "Cannot vote to a closed poll"));
            }
            match check_user_vote_in_poll(found, username) {
                Ok(voted) => {
                    if voted {
                        match change_vote_in_poll_by_id(found, option_id, username) {
                            Ok(write) => Ok(write),
                            Err(error) => Err(reply_for_error("", &error)),
                        }
                    } else {
                        match cast_vote_to_poll_by_id(found, option_id, username) {
                            Ok(write) => Ok(write),
                            Err(error) => Err(reply_for_error("", &error)),
                        }
                    }
                },
                Err(error) => Err(reply_for_error("", &error)),
            }
        },
    }
}

/// Decides what the request leads to on the poll that was read.
pub fn decide(request: &PollRequest, found: Option<&Poll>) -> (outcome: Result<PollWrite, Reply>)
    ensures
        decision_view(outcome) == decision(request@, found_view(found)),
{
    match request {
        PollRequest::Vote(vote) => decide_vote(
            found,
            vote.option_id.as_str(),
            vote.username.as_str(),
        ),
        PollRequest::Close(by) => match close_poll_by_id(found, by.username.as_str()) {
            Ok(write) => Ok(write),
            Err(error) => Err(reply_for_error(prefix_for(request, false), &error)),
        },
        PollRequest::Reset(by) => match reset_poll_by_id(found, by.username.as_str()) {
            Ok(write) => Ok(write),
            Err(error) => Err(reply_for_error(prefix_for(request, false), &error)),
        },
    }
}

/// The reply to a request whose write was carried out, where the poll
/// could not be read again.
pub fn unpublished_reply(request: &PollRequest, changed: bool) -> (reply: Reply)
    ensures
        reply@ == (ReplyView {
            status: Status::Success,
            body: unpublished_text(request@, changed),
        }),
{
    match request {
        PollRequest::Vote(_) => if changed {
            Reply::new(Status::Success, "Successfully changed your option.")
        } else {
            Reply::new(Status::Success, "Successfully voted for the option.")
        },
        PollRequest::Close(_) => Reply::new(Status::Success, "No poll found with given id."),
        PollRequest::Reset(_) => Reply::new(Status::Success, "No poll found with given id."),
    }
}

/// The reply to a request whose write was carried out and published.
pub fn success_reply(request: &PollRequest) -> (reply: Reply)
    ensures
        reply@ == (ReplyView { status: Status::Success, body: success_text(request@) }),
{
    match request {
        PollRequest::Vote(_) => Reply::new(Status::Success, "Successfully voted to the poll."),
        PollRequest::Close(_) => Reply::new(Status::Success, "Closed poll successfully."),
        PollRequest::Reset(_) => Reply::new(Status::Success, "Poll reset successfully."),
    }
}

/// Takes the handling of a request one step on: from its stage and the
/// event that the store reported to the next stage and the action to take.
pub fn step(request: &PollRequest, stage: Stage, event: Event) -> (next: (Stage, Action))
    ensures
        next.0 == next_step(request@, stage, event@).0,
        next.1@ == next_step(request@, stage, event@).1,
{
    match stage {
        Stage::Fetching => match event {
            Event::Fetched(found) => {
                let outcome = decide(request, found.as_ref());
                match outcome {
                    Ok(write) => {
                        let changed = match &write {
                            PollWrite::ChangeVote { .. } => true,
                            _ => false,
                        };
                        (Stage::Writing { changed }, Action::Write(write))
                    },
                    Err(reply) => (Stage::Finished, Action::Respond(reply)),
                }
            },
            Event::FetchFailed(error) => (
                Stage::Finished,
                Action::Respond(reply_for_error("", &error)),
            ),
            _ => (
                Stage::Finished,
                Action::Respond(Reply::new(Status::InternalServerError, "Unexpected event.")),
            ),
        },
        Stage::Writing { changed } => match event {
            Event::Written => (Stage::Reloading { changed }, Action::Reload),
            Event::WriteFailed(error) => (
                Stage::Finished,
                Action::Respond(reply_for_error(prefix_for(request, changed), &error)),
            ),
            _ => (
                Stage::Finished,
                Action::Respond(Reply::new(Status::InternalServerError, "Unexpected event.")),
            ),
        },
        Stage::Reloading { changed } => match event {
            Event::Fetched(Some(poll)) => (
                Stage::Finished,
                Action::Announce { poll, reply: success_reply(request) },
            ),
            Event::Fetched(None) => (
                Stage::Finished,
                Action::Respond(unpublished_reply(request, changed)),
            ),
            Event::FetchFailed(_) => (
                Stage::Finished,
                Action::Respond(unpublished_reply(request, changed)),
            ),
            _ => (
                Stage::Finished,
                Action::Respond(Reply::new(Status::InternalServerError, "Unexpected event.")),
            ),
        },
        Stage::Finished => (
            Stage::Finished,
            Action::Respond(Reply::new(Status::InternalServerError, "Unexpected event.")),
        ),
    }
}

/// The text that refuses a request for results whose expectation of the
/// poll's state is not met.
pub open spec fn status_mismatch_text() -> Seq<char> {
    "Query parameters mismatch, poll status is not specified correctly."@
}

/// The reply that refuses a request for the results of `poll`, or `None`
/// where the poll meets what the request expects of it: `closed` and
/// `live`, where given, are each held against the poll's being open, and
/// `creator`, where given, against the poll's creator.
pub open spec fn query_refusal(poll: PollView, params: PollQueryParamsView) -> Option<ReplyView> {
    if params.closed is Some && params.closed != Some(poll.is_active) {
        Some(ReplyView { status: Status::BadRequest, body: status_mismatch_text() })
    } else if params.live is Some && params.live != Some(poll.is_active) {
        Some(ReplyView { status: Status::NotImplemented, body: status_mismatch_text() })
    } else if params.creator is Some && params.creator != Some(poll.username) {
        Some(
            ReplyView {
                status: Status::Forbidden,
                body: "Query parameters mismatch, provided creator is not owner of this poll."@,
            },
        )
    } else {
        None
    }
}

/// What was read for a request for results, as a mathematical value.
pub open spec fn fetched_view(fetched: Result<Option<&Poll>, &PollError>) -> Result<
    Option<PollView>,
    PollErrorView,
> {
    match fetched {
        Ok(Some(poll)) => Ok(Some(poll@)),
        Ok(None) => Ok(None),
        Err(error) => Err(error@),
    }
}

/// The reply that refuses a request for results, or `None` where the
/// results are owed.
pub open spec fn results_refusal(
    fetched: Result<Option<PollView>, PollErrorView>,
    params: PollQueryParamsView,
) -> Option<ReplyView> {
    match fetched {
        Ok(Some(poll)) => query_refusal(poll, params),
        Ok(None) => Some(
            ReplyView { status: Status::NotFound, body: "No poll found with the given ID."@ },
        ),
        Err(error) => Some(error_reply(""@, error)),
    }
}

/// Holds the poll against what a request for its results expects of it.
pub fn check_query(poll: &Poll, params: &PollQueryParams) -> (refusal: Option<Reply>)
    ensures
        match refusal {
            Some(reply) => query_refusal(poll@, params@) == Some(reply@),
            None => query_refusal(poll@, params@) is None,
        },
{
    if let Some(closed) = params.closed {
        if closed != poll.is_active {
            return Some(
                Reply::new(
                    Status::BadRequest,
                    "Query parameters mismatch, poll status is not specified correctly.",
                ),
            );
        }
    }
    if let Some(live) = params.live {
        if live != poll.is_active {
            return Some(
                Reply::new(
                    Status::NotImplemented,
                    "Query parameters mismatch, poll status is not specified correctly.",
                ),
            );
        }
    }
    if let Some(creator) = &params.creator {
        if !same_text(poll.username.as_str(), creator.as_str()) {
            return Some(
                Reply::new(
                    Status::Forbidden,
                    "Query parameters mismatch, provided creator is not owner of this poll.",
                ),
            );
        }
    }
    None
}

/// Answers a request for the results of a poll from what was read: the
/// results of the poll at some time, where there is a poll that meets what
/// the request expects; else the reply that refuses the request.
pub fn fetch_results_by_id(
    fetched: Result<Option<&Poll>, &PollError>,
    params: &PollQueryParams,
) -> (outcome: Result<PollResults, Reply>)
    ensures
        match outcome {
            Ok(results) => {
                &&& results_refusal(fetched_view(fetched), params@) is None
                &&& fetched matches Ok(Some(poll)) && exists|now: int|
                    results@ == poll_results(poll@, now)
            },
            Err(reply) => results_refusal(fetched_view(fetched), params@) == Some(reply@),
        },
{
    match fetched {
        Ok(Some(poll)) => match check_query(poll, params) {
            Some(reply) => Err(reply),
            None => Ok(calculate_poll_results(poll)),
        },
        Ok(None) => Err(Reply::new(Status::NotFound, "No poll found with the given ID.")),
        Err(error) => Err(reply_for_error("", error)),
    }
}

/// The reply that refuses a request for a poll, or `None` where there is
/// one.
pub open spec fn lookup_refusal(fetched: Result<Option<PollView>, PollErrorView>) -> Option<
    ReplyView,
> {
    match fetched {
        Ok(Some(poll)) => None,
        Ok(None) => Some(
            ReplyView { status: Status::NotFound, body: "No poll found with given id."@ },
        ),
        Err(error) => Some(error_reply(""@, error)),
    }
}

/// Answers a request for a poll from what was read: the poll, where there
/// is one; else the reply that refuses the request.
pub fn get_poll_by_id<'a>(fetched: Result<Option<&'a Poll>, &PollError>) -> (outcome: Result<
    &'a Poll,
    Reply,
>)
    ensures
        match outcome {
            Ok(poll) => fetched == Ok::<Option<&Poll>, &PollError>(Some(poll)),
            Err(reply) => lookup_refusal(fetched_view(fetched)) == Some(reply@),
        },
{
    match fetched {
        Ok(Some(poll)) => Ok(poll),
        Ok(None) => Err(Reply::new(Status::NotFound, "No poll found with given id.")),
        Err(error) => Err(reply_for_error("", error)),
    }
}

/// The length of the name that a new poll or option is given.
pub const ID_LENGTH: usize = 10;

/// `nanoid::format` with nanoid's default source of random bytes and its
/// URL-safe alphabet, as the macro `nanoid!` calls it: a random name of
/// `size` characters. The call does not return for a size of zero, and its
/// arithmetic overflows on sizes above an eighth of the largest `usize`;
/// `requires` leaves both out. Of the name only its length is claimed.
#[verifier::external_body]
fn fresh_id(size: usize) -> (id: String)
    requires
        0 < size <= usize::MAX / 8,
    ensures
        id@.len() == size,
{
    nanoid::format(nanoid::rngs::default, &nanoid::alphabet::SAFE, size)
}

/// A new option with the given name and text, and no vote.
pub fn new_option(option_id: String, text: &str) -> (option: OptionItem)
    ensures
        option.option_id == option_id,
        option.text@ == text@,
        option.votes == 0,
{
    OptionItem { option_id, text: String::from_str(text), votes: 0 }
}

/// The poll that a request creates: open, without votes, with the title
/// and the creator of the request and one option for each of its texts, in
/// their order. The poll and its options get random names of `ID_LENGTH`
/// characters each, and the poll the current time as the time of its
/// creation and of its last update.
pub fn create_new_poll(data: &PollCreation) -> (poll: Poll)
    ensures
        poll.poll_id@.len() == ID_LENGTH,
        poll.username@ == data.username@,
        poll.title@ == data.title@,
        poll.is_active,
        poll.voters@.len() == 0,
        poll.created_at == poll.updated_at,
        poll.options@.len() == data.options@.len(),
        forall|i: int|
            0 <= i < data.options@.len() ==> {
                &&& (#[trigger] poll.options@[i]).text@ == data.options@[i]@
                &&& poll.options@[i].votes == 0
                &&& poll.options@[i].option_id@.len() == ID_LENGTH
            },
        poll@.consistent(),
{
    let poll_id = fresh_id(ID_LENGTH);
    let mut options: Vec<OptionItem> = Vec::new();
    let mut i: usize = 0;
    while i < data.options.len()
        invariant
            i <= data.options.len(),
            options@.len() == i,
            forall|k: int|
                0 <= k < i ==> {
                    &&& (#[trigger] options@[k]).text@ == data.options@[k]@
                    &&& options@[k].votes == 0
                    &&& options@[k].option_id@.len() == ID_LENGTH
                },
        decreases data.options.len() - i,
    {
        let option = new_option(fresh_id(ID_LENGTH), data.options[i].as_str());
        options.push(option);
        i += 1;
    }
    let now = current_time();
    let voters: Vec<VoteHistory> = Vec::new();
    let poll = Poll {
        poll_id,
        username: data.username.clone(),
        title: data.title.clone(),
        options,
        is_active: true,
        voters,
        created_at: now,
        updated_at: now,
    };
    assert(poll@.voters =~= Seq::empty());
    assert forall|k: int| 0 <= k < poll@.options.len() implies (#[trigger] poll@.options[k]).votes
        == crate::vote::tally(poll@.voters, poll@.options[k].option_id) by {
        assert(poll@.options[k] == poll.options@[k]@);
    }
    poll
}

} // verus!
