use vstd::prelude::*;

use crate::poll_config::PollErrorView;
use crate::poll_model::PollView;
use crate::poll_service::{
    next_step, success_text, ActionView, EventView, PollRequestView, Stage,
};
use crate::reply::{ReplyView, Status};
use crate::vote::{held_option, lemma_held_option_none, PollWriteView};

verus! {

/// The actions that the handling of a request takes, one for each event
/// that the store reports, from the given stage on.
pub open spec fn actions(request: PollRequestView, stage: Stage, events: Seq<EventView>) -> Seq<
    ActionView,
>
    decreases events.len(),
{
    if events.len() == 0 {
        Seq::empty()
    } else {
        seq![next_step(request, stage, events[0]).1] + actions(
            request,
            next_step(request, stage, events[0]).0,
            events.drop_first(),
        )
    }
}

/// The action neither writes to the store nor publishes to the
/// subscribers, nor reads the poll again: it only answers.
pub open spec fn only_answers(action: ActionView) -> bool {
    action is Respond
}

/// Once a request is answered, nothing more is done for it: whatever is
/// reported afterwards, no write is handed to the store and nothing is
/// published.
pub proof fn lemma_finished_only_answers(request: PollRequestView, events: Seq<EventView>)
    ensures
        actions(request, Stage::Finished, events).len() == events.len(),
        forall|i: int|
            0 <= i < events.len() ==> only_answers(
                #[trigger] actions(request, Stage::Finished, events)[i],
            ),
    decreases events.len(),
{
    if events.len() > 0 {
        lemma_finished_only_answers(request, events.drop_first());
    }
}

/// A request that is refused once the poll was read leads to no write and
/// to nothing published, whatever is reported afterwards.
pub proof fn lemma_refused_request_only_answers(
    request: PollRequestView,
    events: Seq<EventView>,
)
    requires
        events.len() > 0,
        next_step(request, Stage::Fetching, events[0]).0 == Stage::Finished,
        only_answers(next_step(request, Stage::Fetching, events[0]).1),
    ensures
        actions(request, Stage::Fetching, events).len() == events.len(),
        forall|i: int|
            0 <= i < events.len() ==> only_answers(
                #[trigger] actions(request, Stage::Fetching, events)[i],
            ),
{
    lemma_finished_only_answers(request, events.drop_first());
}

/// A vote for the option that the voter holds already. The request is
/// refused as a conflict, and nothing else happens for it: no write is
/// handed to the store and nothing is published, whatever is reported
/// afterwards.
pub proof fn lemma_repeated_vote_is_refused(
    poll: PollView,
    option_id: Seq<char>,
    username: Seq<char>,
    events: Seq<EventView>,
)
    requires
        poll.is_active,
        held_option(poll.voters, username) == Some(option_id),
        events.len() > 0,
        events[0] == EventView::Fetched(Some(poll)),
    ensures
        actions(PollRequestView::Vote { option_id, username }, Stage::Fetching, events).len()
            == events.len(),
        actions(PollRequestView::Vote { option_id, username }, Stage::Fetching, events)[0]
            == ActionView::Respond(
            ReplyView {
                status: Status::Conflict,
                body: "Conflict : Already voted to the option in the poll."@,
            },
        ),
        forall|i: int|
            0 <= i < events.len() ==> only_answers(
                #[trigger] actions(
                    PollRequestView::Vote { option_id, username },
                    Stage::Fetching,
                    events,
                )[i],
            ),
{
    let request = PollRequestView::Vote { option_id, username };
    let error = PollErrorView::AlreadyVotedError("Already voted to the option in the poll."@);
    assert(""@ + error.message() =~= "Conflict : Already voted to the option in the poll."@) by {
        reveal_strlit("");
        reveal_strlit("Conflict : ");
        reveal_strlit("Already voted to the option in the poll.");
        reveal_strlit("Conflict : Already voted to the option in the poll.");
    }
    lemma_refused_request_only_answers(request, events);
}

/// Closing or resetting a poll by anyone but its creator. The request is
/// refused as unauthorized, and nothing else happens for it: no write is
/// handed to the store, so the stored poll stays as it is, and nothing is
/// published, whatever is reported afterwards.
pub proof fn lemma_only_creator_closes_or_resets(
    poll: PollView,
    request: PollRequestView,
    events: Seq<EventView>,
)
    requires
        match request {
            PollRequestView::Close { username } => username != poll.username,
            PollRequestView::Reset { username } => username != poll.username,
            PollRequestView::Vote { option_id, username } => false,
        },
        events.len() > 0,
        events[0] == EventView::Fetched(Some(poll)),
    ensures
        actions(request, Stage::Fetching, events).len() == events.len(),
        actions(request, Stage::Fetching, events)[0] matches ActionView::Respond(reply)
            && reply.status == Status::Unauthorized,
        forall|i: int|
            0 <= i < events.len() ==> only_answers(
                #[trigger] actions(request, Stage::Fetching, events)[i],
            ),
{
    lemma_refused_request_only_answers(request, events);
}

/// A vote on a closed poll is refused as a conflict before any write.
pub proof fn lemma_closed_poll_takes_no_vote(
    poll: PollView,
    option_id: Seq<char>,
    username: Seq<char>,
    events: Seq<EventView>,
)
    requires
        !poll.is_active,
        events.len() > 0,
        events[0] == EventView::Fetched(Some(poll)),
    ensures
        actions(PollRequestView::Vote { option_id, username }, Stage::Fetching, events)[0]
            == ActionView::Respond(
            ReplyView { status: Status::Conflict, body: "Cannot vote to a closed poll"@ },
        ),
        forall|i: int|
            0 <= i < events.len() ==> only_answers(
                #[trigger] actions(
                    PollRequestView::Vote { option_id, username },
                    Stage::Fetching,
                    events,
                )[i],
            ),
{
    let request = PollRequestView::Vote { option_id, username };
    lemma_refused_request_only_answers(request, events);
}

/// The write that a vote on an open poll leads to: a first vote for a
/// voter without one, a move to the new option for a voter who holds
/// another.
pub proof fn lemma_vote_leads_to_write(poll: PollView, option_id: Seq<char>, username: Seq<char>)
    requires
        poll.is_active,
        held_option(poll.voters, username) != Some(option_id),
    ensures
        next_step(
            PollRequestView::Vote { option_id, username },
            Stage::Fetching,
            EventView::Fetched(Some(poll)),
        ).1 == ActionView::Write(
            match held_option(poll.voters, username) {
                Some(previous_option_id) => PollWriteView::ChangeVote {
                    previous_option_id,
                    new_option_id: option_id,
                    username,
                },
                None => PollWriteView::CastVote { option_id, username },
            },
        ),
{
}

/// A write that was carried out is followed by a fresh read of the poll,
/// and the poll that this read finds is what is published, with the reply
/// that reports success. Nothing is published but after such a read.
pub proof fn lemma_written_poll_is_published(
    request: PollRequestView,
    changed: bool,
    poll: PollView,
    stage: Stage,
    event: EventView,
)
    ensures
        next_step(request, Stage::Writing { changed }, EventView::Written) == (
            Stage::Reloading { changed },
            ActionView::Reload,
        ),
        next_step(request, Stage::Reloading { changed }, EventView::Fetched(Some(poll))) == (
            Stage::Finished,
            ActionView::Announce {
                poll,
                reply: ReplyView { status: Status::Success, body: success_text(request) },
            },
        ),
        next_step(request, stage, event).1 is Announce ==> stage is Reloading && event
            is Fetched,
        next_step(request, stage, event).1 is Write ==> stage is Fetching && event is Fetched,
        next_step(request, stage, event).0 is Reloading ==> stage is Writing && event is Written,
{
}

} // verus!
