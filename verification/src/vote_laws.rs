use vstd::prelude::*;

use crate::poll_model::{PollView, VoteHistoryView};
use crate::poll_config::PollErrorView;
use crate::vote::{
    already_voted_text, held_option, lemma_held_option_none, one_vote_each, tally,
    vote_after_change, votes_after, PollWriteView,
};

verus! {

/// One if the two option names are the same, zero otherwise.
pub open spec fn one_if_same(left: Seq<char>, right: Seq<char>) -> int {
    if left == right {
        1
    } else {
        0
    }
}

/// No option has more recorded votes than there are recorded votes.
pub proof fn lemma_tally_within_len(voters: Seq<VoteHistoryView>, option_id: Seq<char>)
    ensures
        tally(voters, option_id) <= voters.len(),
    decreases voters.len(),
{
    if voters.len() > 0 {
        lemma_tally_within_len(voters.drop_last(), option_id);
    }
}

/// A voter who holds an option is counted in the tally of that option.
pub proof fn lemma_held_option_is_tallied(
    voters: Seq<VoteHistoryView>,
    username: Seq<char>,
    option_id: Seq<char>,
)
    requires
        held_option(voters, username) == Some(option_id),
    ensures
        tally(voters, option_id) >= 1,
    decreases voters.len(),
{
    if voters.len() > 0 {
        if held_option(voters.drop_last(), username) is Some {
            lemma_held_option_is_tallied(voters.drop_last(), username, option_id);
        }
    }
}

/// The recorded votes after the voter's vote was moved to the new option.
pub open spec fn votes_moved(
    voters: Seq<VoteHistoryView>,
    new_option_id: Seq<char>,
    username: Seq<char>,
) -> Seq<VoteHistoryView> {
    Seq::new(voters.len(), |i: int| vote_after_change(voters[i], new_option_id, username))
}

/// Moving a voter's vote takes one from the tally of the option that the
/// voter held and adds one to that of the new option; where the voter held
/// none, no tally changes. The voter then holds the new option, every
/// other voter what it held, and no voter is recorded twice.
pub proof fn lemma_votes_moved(
    voters: Seq<VoteHistoryView>,
    new_option_id: Seq<char>,
    username: Seq<char>,
    option_id: Seq<char>,
)
    requires
        one_vote_each(voters),
    ensures
        one_vote_each(votes_moved(voters, new_option_id, username)),
        match held_option(voters, username) {
            Some(previous) => {
                &&& tally(votes_moved(voters, new_option_id, username), option_id) == tally(
                    voters,
                    option_id,
                ) - one_if_same(previous, option_id) + one_if_same(new_option_id, option_id)
                &&& held_option(votes_moved(voters, new_option_id, username), username) == Some(
                    new_option_id,
                )
            },
            None => {
                &&& tally(votes_moved(voters, new_option_id, username), option_id) == tally(
                    voters,
                    option_id,
                )
                &&& held_option(votes_moved(voters, new_option_id, username), username) is None
            },
        },
    decreases voters.len(),
{
    let moved = votes_moved(voters, new_option_id, username);
    if voters.len() > 0 {
        let front = voters.drop_last();
        assert(one_vote_each(front)) by {
            assert forall|i: int, j: int| 0 <= i < j < front.len() implies (#[trigger] front[i]).username
                != (#[trigger] front[j]).username by {
                assert(front[i] == voters[i] && front[j] == voters[j]);
            }
        }
        lemma_votes_moved(front, new_option_id, username, option_id);
        assert(moved.drop_last() =~= votes_moved(front, new_option_id, username));
        lemma_held_option_none(front, username);
        if voters.last().username == username {
            assert forall|i: int| 0 <= i < front.len() implies (#[trigger] front[i]).username
                != username by {
                assert(front[i] == voters[i]);
                assert(voters[i].username != voters[voters.len() - 1].username);
            }
            assert(held_option(front, username) is None);
        }
    }
}

/// Moving one voter's vote leaves what every other voter holds.
pub proof fn lemma_votes_moved_keeps_others(
    voters: Seq<VoteHistoryView>,
    new_option_id: Seq<char>,
    username: Seq<char>,
    other: Seq<char>,
)
    requires
        other != username,
    ensures
        held_option(votes_moved(voters, new_option_id, username), other) == held_option(
            voters,
            other,
        ),
    decreases voters.len(),
{
    if voters.len() > 0 {
        lemma_votes_moved_keeps_others(voters.drop_last(), new_option_id, username, other);
        assert(votes_moved(voters, new_option_id, username).drop_last() =~= votes_moved(
            voters.drop_last(),
            new_option_id,
            username,
        ));
    }
}

/// A first vote keeps the poll consistent. The voter then holds the
/// option, its count has gone up by one where the poll has it, and no
/// other count has changed.
pub proof fn lemma_cast_keeps_consistent(poll: PollView, option_id: Seq<char>, username: Seq<char>)
    requires
        poll.consistent(),
        held_option(poll.voters, username) is None,
    ensures
        poll.after(PollWriteView::CastVote { option_id, username }).consistent(),
        held_option(
            poll.after(PollWriteView::CastVote { option_id, username }).voters,
            username,
        ) == Some(option_id),
        forall|k: int|
            0 <= k < poll.options.len() ==> (#[trigger] poll.after(
                PollWriteView::CastVote { option_id, username },
            ).options[k]).votes == poll.options[k].votes + one_if_same(
                poll.options[k].option_id,
                option_id,
            ),
{
    let write = PollWriteView::CastVote { option_id, username };
    let next = poll.after(write);
    let vote = VoteHistoryView { username, option_id };
    assert(next.voters == poll.voters.push(vote));
    assert(next.voters.drop_last() =~= poll.voters);
    lemma_held_option_none(poll.voters, username);
    assert(one_vote_each(next.voters));
    assert forall|k: int| 0 <= k < next.options.len() implies (#[trigger] next.options[k]).votes
        == tally(next.voters, next.options[k].option_id) by {
        assert(poll.options[k].votes == tally(poll.voters, poll.options[k].option_id));
    }
}

/// A changed vote keeps the poll consistent. The voter then holds the new
/// option and every other voter what it held; the count of the option
/// that the voter held has gone down by one, that of the new option up by
/// one, and no other count has changed. No count goes below zero.
pub proof fn lemma_change_keeps_consistent(
    poll: PollView,
    previous_option_id: Seq<char>,
    new_option_id: Seq<char>,
    username: Seq<char>,
)
    requires
        poll.consistent(),
        held_option(poll.voters, username) == Some(previous_option_id),
        previous_option_id != new_option_id,
    ensures
        poll.after(
            PollWriteView::ChangeVote { previous_option_id, new_option_id, username },
        ).consistent(),
        held_option(
            poll.after(
                PollWriteView::ChangeVote { previous_option_id, new_option_id, username },
            ).voters,
            username,
        ) == Some(new_option_id),
        forall|other: Seq<char>|
            other != username ==> #[trigger] held_option(
                poll.after(
                    PollWriteView::ChangeVote { previous_option_id, new_option_id, username },
                ).voters,
                other,
            ) == held_option(poll.voters, other),
        forall|k: int|
            0 <= k < poll.options.len() ==> (#[trigger] poll.after(
                PollWriteView::ChangeVote { previous_option_id, new_option_id, username },
            ).options[k]).votes == poll.options[k].votes - one_if_same(
                poll.options[k].option_id,
                previous_option_id,
            ) + one_if_same(poll.options[k].option_id, new_option_id),
{
    let write = PollWriteView::ChangeVote { previous_option_id, new_option_id, username };
    let next = poll.after(write);
    assert(next.voters =~= votes_moved(poll.voters, new_option_id, username));
    lemma_votes_moved(poll.voters, new_option_id, username, new_option_id);
    assert forall|other: Seq<char>| other != username implies #[trigger] held_option(
        next.voters,
        other,
    ) == held_option(poll.voters, other) by {
        lemma_votes_moved_keeps_others(poll.voters, new_option_id, username, other);
    }
    assert forall|k: int| 0 <= k < next.options.len() implies {
        &&& (#[trigger] next.options[k]).votes == tally(next.voters, next.options[k].option_id)
        &&& next.options[k].votes == poll.options[k].votes - one_if_same(
            poll.options[k].option_id,
            previous_option_id,
        ) + one_if_same(poll.options[k].option_id, new_option_id)
    } by {
        let id = poll.options[k].option_id;
        assert(poll.options[k].votes == tally(poll.voters, id));
        lemma_votes_moved(poll.voters, new_option_id, username, id);
        if id == previous_option_id {
            lemma_held_option_is_tallied(poll.voters, username, previous_option_id);
        }
        assert(votes_after(poll.options[k], write) == tally(next.voters, id));
    }
}

/// Closing a poll changes nothing but its being open, and a reset leaves a
/// consistent poll without votes.
pub proof fn lemma_close_and_reset(poll: PollView)
    ensures
        poll.after(PollWriteView::Close) == (PollView { is_active: false, ..poll }),
        poll.after(PollWriteView::Reset).consistent(),
        poll.after(PollWriteView::Reset).voters.len() == 0,
        poll.after(PollWriteView::Reset).is_active == poll.is_active,
        forall|k: int|
            0 <= k < poll.options.len() ==> (#[trigger] poll.after(
                PollWriteView::Reset,
            ).options[k]).votes == 0,
{
    let closed = poll.after(PollWriteView::Close);
    assert(closed.options =~= poll.options);
    assert(closed.voters =~= poll.voters);
}

/// The vote of one voter, from none to one option and on to another. A
/// voter without a vote casts one for `first`, then changes it to
/// `second`. After the cast the vote counts for `first` and for no other
/// option; after the change it counts for `second` and for no other
/// option. Each step is one write: there is no state between in which the
/// vote counts for both options or for neither. The poll is consistent
/// after each step.
pub proof fn lemma_vote_moves_in_one_step(
    poll: PollView,
    first: Seq<char>,
    second: Seq<char>,
    username: Seq<char>,
)
    requires
        poll.consistent(),
        held_option(poll.voters, username) is None,
        first != second,
    ensures
        ({
            let cast = PollWriteView::CastVote { option_id: first, username };
            let change = PollWriteView::ChangeVote {
                previous_option_id: first,
                new_option_id: second,
                username,
            };
            let voted = poll.after(cast);
            let moved = voted.after(change);
            &&& voted.consistent()
            &&& moved.consistent()
            &&& held_option(voted.voters, username) == Some(first)
            &&& held_option(moved.voters, username) == Some(second)
            &&& forall|k: int|
                0 <= k < poll.options.len() ==> (#[trigger] voted.options[k]).votes
                    == poll.options[k].votes + one_if_same(poll.options[k].option_id, first)
            &&& forall|k: int|
                0 <= k < poll.options.len() ==> (#[trigger] moved.options[k]).votes
                    == poll.options[k].votes + one_if_same(poll.options[k].option_id, second)
        }),
{
    let cast = PollWriteView::CastVote { option_id: first, username };
    let change = PollWriteView::ChangeVote {
        previous_option_id: first,
        new_option_id: second,
        username,
    };
    let voted = poll.after(cast);
    let moved = voted.after(change);
    lemma_cast_keeps_consistent(poll, first, username);
    lemma_change_keeps_consistent(voted, first, second, username);
    assert forall|k: int| 0 <= k < poll.options.len() implies (#[trigger] moved.options[k]).votes
        == poll.options[k].votes + one_if_same(poll.options[k].option_id, second) by {
        assert(voted.options[k].votes == poll.options[k].votes + one_if_same(
            poll.options[k].option_id,
            first,
        ));
        assert(voted.options[k].option_id == poll.options[k].option_id);
    }
}

/// A consistent poll can take the first vote of a voter who holds none
/// while it has fewer recorded votes than the largest count, and a change
/// of the vote that a voter holds to another option while it has no more
/// than that.
pub proof fn lemma_consistent_poll_takes_votes(
    poll: PollView,
    previous_option_id: Seq<char>,
    option_id: Seq<char>,
    username: Seq<char>,
)
    requires
        poll.consistent(),
        forall|k: int| 0 <= k < poll.options.len() ==> (#[trigger] poll.options[k]).votes <= u32::MAX,
    ensures
        poll.voters.len() < u32::MAX && held_option(poll.voters, username) is None
            ==> poll.can_take(PollWriteView::CastVote { option_id, username }),
        poll.voters.len() <= u32::MAX && held_option(poll.voters, username) == Some(
            previous_option_id,
        ) && previous_option_id != option_id ==> poll.can_take(
            PollWriteView::ChangeVote {
                previous_option_id,
                new_option_id: option_id,
                username,
            },
        ),
{
    let cast = PollWriteView::CastVote { option_id, username };
    let change = PollWriteView::ChangeVote {
        previous_option_id,
        new_option_id: option_id,
        username,
    };
    if poll.voters.len() < u32::MAX && held_option(poll.voters, username) is None {
        assert forall|k: int| 0 <= k < poll.options.len() implies 0 <= #[trigger] votes_after(
            poll.options[k],
            cast,
        ) <= u32::MAX by {
            lemma_tally_within_len(poll.voters, poll.options[k].option_id);
        }
        assert(poll.counts_fit(cast));
    }
    if poll.voters.len() <= u32::MAX && held_option(poll.voters, username) == Some(
        previous_option_id,
    ) && previous_option_id != option_id {
        lemma_change_keeps_consistent(poll, previous_option_id, option_id, username);
        let next = poll.after(change);
        assert forall|k: int| 0 <= k < poll.options.len() implies 0 <= #[trigger] votes_after(
            poll.options[k],
            change,
        ) <= u32::MAX by {
            let id = poll.options[k].option_id;
            lemma_votes_moved(poll.voters, option_id, username, id);
            assert(next.voters =~= votes_moved(poll.voters, option_id, username));
            lemma_tally_within_len(next.voters, id);
            lemma_held_option_is_tallied(poll.voters, username, previous_option_id);
            assert(poll.options[k].votes == tally(poll.voters, id));
        }
        assert(poll.counts_fit(change));
    }
}

/// Every write that a consistent poll can take leaves it consistent: no
/// voter is recorded twice, and each option's count is the number of
/// recorded votes for it. A first vote of a voter who holds a vote, and a
/// change that does not start from the vote that the voter holds, are
/// among the writes that the poll cannot take.
pub proof fn lemma_taken_write_keeps_consistent(poll: PollView, write: PollWriteView)
    requires
        poll.consistent(),
        poll.can_take(write),
    ensures
        poll.after(write).consistent(),
{
    match write {
        PollWriteView::CastVote { option_id, username } => {
            lemma_cast_keeps_consistent(poll, option_id, username);
        },
        PollWriteView::ChangeVote { previous_option_id, new_option_id, username } => {
            lemma_change_keeps_consistent(poll, previous_option_id, new_option_id, username);
        },
        PollWriteView::Close => {
            lemma_close_and_reset(poll);
        },
        PollWriteView::Reset => {
            lemma_close_and_reset(poll);
        },
    }
}

/// A voter who holds a vote cannot cast a first vote: the poll does not
/// take the write, whatever option it is for.
pub proof fn lemma_second_first_vote_is_refused(
    poll: PollView,
    option_id: Seq<char>,
    username: Seq<char>,
)
    requires
        held_option(poll.voters, username) is Some,
    ensures
        !poll.can_take(PollWriteView::CastVote { option_id, username }),
        poll.refusal(PollWriteView::CastVote { option_id, username }) == Some(
            PollErrorView::AlreadyVotedError(already_voted_text()),
        ),
{
}

} // verus!
