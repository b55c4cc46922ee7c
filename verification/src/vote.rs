use vstd::prelude::*;
use vstd::string::*;

use crate::poll_config::{PollError, PollErrorView};
use crate::poll_model::{OptionItem, OptionItemView, Poll, PollView, VoteHistory, VoteHistoryView};
use crate::text::same_text;

verus! {

/// A change to a stored poll. The store carries it out in one step.
#[derive(Debug)]
pub enum PollWrite {
    /// Count one vote more for the option, and record that the voter holds
    /// it.
    CastVote { option_id: String, username: String },
    /// Count one vote less for the previous option and one more for the new
    /// one, and rewrite what the voter holds.
    ChangeVote { previous_option_id: String, new_option_id: String, username: String },
    /// Close the poll.
    Close,
    /// Set every count to zero and forget every recorded vote.
    Reset,
}

/// A change to a stored poll as a mathematical value.
pub enum PollWriteView {
    CastVote { option_id: Seq<char>, username: Seq<char> },
    ChangeVote { previous_option_id: Seq<char>, new_option_id: Seq<char>, username: Seq<char> },
    Close,
    Reset,
}

impl View for PollWrite {
    type V = PollWriteView;

    open spec fn view(&self) -> PollWriteView {
        match self {
            PollWrite::CastVote { option_id, username } => PollWriteView::CastVote {
                option_id: option_id@,
                username: username@,
            },
            PollWrite::ChangeVote {
                previous_option_id,
                new_option_id,
                username,
            } => PollWriteView::ChangeVote {
                previous_option_id: previous_option_id@,
                new_option_id: new_option_id@,
                username: username@,
            },
            PollWrite::Close => PollWriteView::Close,
            PollWrite::Reset => PollWriteView::Reset,
        }
    }
}

/// The number of recorded votes for the option.
pub open spec fn tally(voters: Seq<VoteHistoryView>, option_id: Seq<char>) -> nat
    decreases voters.len(),
{
    if voters.len() == 0 {
        0
    } else {
        tally(voters.drop_last(), option_id) + if voters.last().option_id == option_id {
            1nat
        } else {
            0nat
        }
    }
}

/// The option that the voter holds: that of the first vote recorded under
/// its name, or `None` where the voter has not voted.
pub open spec fn held_option(voters: Seq<VoteHistoryView>, username: Seq<char>) -> Option<
    Seq<char>,
>
    decreases voters.len(),
{
    if voters.len() == 0 {
        None
    } else {
        match held_option(voters.drop_last(), username) {
            Some(option_id) => Some(option_id),
            None => if voters.last().username == username {
                Some(voters.last().option_id)
            } else {
                None
            },
        }
    }
}

/// No voter is recorded twice.
pub open spec fn one_vote_each(voters: Seq<VoteHistoryView>) -> bool {
    forall|i: int, j: int|
        0 <= i < j < voters.len() ==> (#[trigger] voters[i]).username != (
        #[trigger] voters[j]).username
}

/// The votes that the option has once the write is carried out. Outside
/// `0..=u32::MAX` the count cannot be stored.
pub open spec fn votes_after(option: OptionItemView, write: PollWriteView) -> int {
    match write {
        PollWriteView::CastVote { option_id, username } => option.votes + if option.option_id
            == option_id {
            1int
        } else {
            0int
        },
        PollWriteView::ChangeVote { previous_option_id, new_option_id, username } => option.votes
            + (if option.option_id == new_option_id {
            1int
        } else {
            0int
        }) - (if option.option_id == previous_option_id {
            1int
        } else {
            0int
        }),
        PollWriteView::Close => option.votes as int,
        PollWriteView::Reset => 0,
    }
}

/// The option once the write is carried out.
pub open spec fn option_after(option: OptionItemView, write: PollWriteView) -> OptionItemView {
    OptionItemView {
        option_id: option.option_id,
        text: option.text,
        votes: if votes_after(option, write) >= 0 {
            votes_after(option, write) as nat
        } else {
            0
        },
    }
}

/// The recorded vote once the voter's vote was moved to the new option.
pub open spec fn vote_after_change(
    vote: VoteHistoryView,
    new_option_id: Seq<char>,
    username: Seq<char>,
) -> VoteHistoryView {
    if vote.username == username {
        VoteHistoryView { username: vote.username, option_id: new_option_id }
    } else {
        vote
    }
}

impl PollView {
    /// Each voter is recorded at most once, and each option's count is the
    /// number of recorded votes for it.
    pub open spec fn consistent(self) -> bool {
        &&& one_vote_each(self.voters)
        &&& forall|k: int|
            0 <= k < self.options.len() ==> (#[trigger] self.options[k]).votes == tally(
                self.voters,
                self.options[k].option_id,
            )
    }

    /// Every count can be stored once the write is carried out.
    pub open spec fn counts_fit(self, write: PollWriteView) -> bool {
        forall|k: int|
            0 <= k < self.options.len() ==> 0 <= #[trigger] votes_after(self.options[k], write)
                <= u32::MAX
    }

    /// The voter of the write may make it: a first vote is for a voter who
    /// holds none, a change for a voter who holds the option that it
    /// starts from and asks for another.
    pub open spec fn voter_may(self, write: PollWriteView) -> bool {
        match write {
            PollWriteView::CastVote { option_id, username } => held_option(self.voters, username)
                is None,
            PollWriteView::ChangeVote { previous_option_id, new_option_id, username } => {
                &&& held_option(self.voters, username) == Some(previous_option_id)
                &&& previous_option_id != new_option_id
            },
            PollWriteView::Close => true,
            PollWriteView::Reset => true,
        }
    }

    /// Why the poll cannot take the write, or `None` where it can. A first
    /// vote is for a voter who holds none. A change is for a voter who
    /// holds the option that the change starts from, and leads to another
    /// option. Every count must be storable afterwards.
    pub open spec fn refusal(self, write: PollWriteView) -> Option<PollErrorView> {
        match write {
            PollWriteView::CastVote { option_id, username } => if held_option(
                self.voters,
                username,
            ) is Some {
                Some(PollErrorView::AlreadyVotedError(already_voted_text()))
            } else if !self.counts_fit(write) {
                Some(PollErrorView::PollVoteError(counts_refused_text()))
            } else {
                None
            },
            PollWriteView::ChangeVote { previous_option_id, new_option_id, username } => if held_option(
                self.voters,
                username,
            ) != Some(previous_option_id) {
                Some(PollErrorView::PollVoteError(vote_not_held_text()))
            } else if previous_option_id == new_option_id {
                Some(PollErrorView::AlreadyVotedError(same_option_text()))
            } else if !self.counts_fit(write) {
                Some(PollErrorView::PollVoteError(counts_refused_text()))
            } else {
                None
            },
            PollWriteView::Close => None,
            PollWriteView::Reset => None,
        }
    }

    /// The poll can take the write: nothing refuses it.
    pub open spec fn can_take(self, write: PollWriteView) -> bool {
        self.refusal(write) is None
    }

    /// The recorded votes once the write is carried out.
    pub open spec fn voters_after(self, write: PollWriteView) -> Seq<VoteHistoryView> {
        match write {
            PollWriteView::CastVote { option_id, username } => self.voters.push(
                VoteHistoryView { username, option_id },
            ),
            PollWriteView::ChangeVote { previous_option_id, new_option_id, username } => Seq::new(
                self.voters.len(),
                |i: int| vote_after_change(self.voters[i], new_option_id, username),
            ),
            PollWriteView::Close => self.voters,
            PollWriteView::Reset => Seq::empty(),
        }
    }

    /// The poll once the write is carried out.
    pub open spec fn after(self, write: PollWriteView) -> PollView {
        PollView {
            poll_id: self.poll_id,
            username: self.username,
            title: self.title,
            options: Seq::new(self.options.len(), |i: int| option_after(self.options[i], write)),
            is_active: if write is Close {
                false
            } else {
                self.is_active
            },
            voters: self.voters_after(write),
            created_at: self.created_at,
            updated_at: self.updated_at,
        }
    }
}

/// What is held in a part of the recorded votes is held in the whole.
pub proof fn lemma_held_option_extends(
    voters: Seq<VoteHistoryView>,
    username: Seq<char>,
    n: int,
)
    requires
        0 <= n <= voters.len(),
        held_option(voters.take(n), username) is Some,
    ensures
        held_option(voters, username) == held_option(voters.take(n), username),
    decreases voters.len() - n,
{
    if n < voters.len() {
        assert(voters.take(n + 1).drop_last() =~= voters.take(n));
        lemma_held_option_extends(voters, username, n + 1);
    } else {
        assert(voters.take(n) =~= voters);
    }
}

/// A voter holds an option exactly where a vote is recorded under its
/// name.
pub proof fn lemma_held_option_none(voters: Seq<VoteHistoryView>, username: Seq<char>)
    ensures
        held_option(voters, username) is None <==> forall|i: int|
            0 <= i < voters.len() ==> (#[trigger] voters[i]).username != username,
    decreases voters.len(),
{
    if voters.len() > 0 {
        lemma_held_option_none(voters.drop_last(), username);
        if held_option(voters, username) is None {
            assert forall|i: int| 0 <= i < voters.len() implies (#[trigger] voters[i]).username
                != username by {
                if i < voters.len() - 1 {
                    assert(voters.drop_last()[i] == voters[i]);
                }
            }
        } else {
            if held_option(voters.drop_last(), username) is Some {
                let i = choose|i: int|
                    0 <= i < voters.drop_last().len() && (#[trigger] voters.drop_last()[i]).username
                        == username;
                assert(voters[i].username == username);
            } else {
                assert(voters[voters.len() - 1].username == username);
            }
        }
    }
}

/// The option that the voter holds, as the store would find it.
pub fn find_vote<'a>(voters: &'a Vec<VoteHistory>, username: &str) -> (found: Option<&'a VoteHistory>)
    ensures
        match found {
            Some(vote) => vote.username@ == username@ && held_option(
                Seq::new(voters@.len(), |i: int| voters@[i]@),
                username@,
            ) == Some(vote.option_id@),
            None => held_option(Seq::new(voters@.len(), |i: int| voters@[i]@), username@) is None,
        },
{
    let ghost all = Seq::new(voters@.len(), |i: int| voters@[i]@);
    let mut i: usize = 0;
    while i < voters.len()
        invariant
            i <= voters.len(),
            all == Seq::new(voters@.len(), |i: int| voters@[i]@),
            held_option(all.take(i as int), username@) is None,
        decreases voters.len() - i,
    {
        proof {
            assert(all.take(i + 1).drop_last() =~= all.take(i as int));
        }
        if same_text(voters[i].username.as_str(), username) {
            proof {
                lemma_held_option_extends(all, username@, i + 1);
            }
            return Some(&voters[i]);
        }
        i += 1;
    }
    proof {
        assert(all.take(voters.len() as int) =~= all);
    }
    None
}

/// The text of the error for a write whose counts cannot be stored.
pub open spec fn counts_refused_text() -> Seq<char> {
    "The vote counts cannot take the write."@
}

/// The text of the error for a first vote of a voter who holds a vote.
pub open spec fn already_voted_text() -> Seq<char> {
    "Already voted in the poll."@
}

/// The text of the error for a vote for the option that the voter holds.
pub open spec fn same_option_text() -> Seq<char> {
    "Already voted to the option in the poll."@
}

/// The text of the error for a change that starts from a vote that the
/// voter does not hold.
pub open spec fn vote_not_held_text() -> Seq<char> {
    "The voter does not hold the vote that the change starts from."@
}

/// Why the voter of the write cannot make it on these recorded votes, or
/// `None` where the voter can: a first vote needs a voter without a vote, a
/// change a voter who holds the option it starts from and asks for
/// another.
pub fn check_voter(voters: &Vec<VoteHistory>, write: &PollWrite) -> (refusal: Option<PollError>)
    ensures
        match write@ {
            PollWriteView::CastVote { option_id, username } => match refusal {
                Some(error) => held_option(Seq::new(voters@.len(), |i: int| voters@[i]@), username)
                    is Some && error@ == PollErrorView::AlreadyVotedError(already_voted_text()),
                None => held_option(Seq::new(voters@.len(), |i: int| voters@[i]@), username)
                    is None,
            },
            PollWriteView::ChangeVote { previous_option_id, new_option_id, username } => {
                let held = held_option(Seq::new(voters@.len(), |i: int| voters@[i]@), username);
                match refusal {
                    Some(error) => if held != Some(previous_option_id) {
                        error@ == PollErrorView::PollVoteError(vote_not_held_text())
                    } else {
                        previous_option_id == new_option_id && error@
                            == PollErrorView::AlreadyVotedError(same_option_text())
                    },
                    None => held == Some(previous_option_id) && previous_option_id
                        != new_option_id,
                }
            },
            PollWriteView::Close => refusal is None,
            PollWriteView::Reset => refusal is None,
        },
{
    match write {
        PollWrite::CastVote { option_id, username } => {
            match find_vote(voters, username.as_str()) {
                Some(_) => Some(
                    PollError::AlreadyVotedError(String::from_str("Already voted in the poll.")),
                ),
                None => None,
            }
        },
        PollWrite::ChangeVote { previous_option_id, new_option_id, username } => {
            let held = match find_vote(voters, username.as_str()) {
                Some(vote) => same_text(vote.option_id.as_str(), previous_option_id.as_str()),
                None => false,
            };
            if !held {
                Some(
                    PollError::PollVoteError(
                        String::from_str(
                            "The voter does not hold the vote that the change starts from.",
                        ),
                    ),
                )
            } else if same_text(previous_option_id.as_str(), new_option_id.as_str()) {
                Some(
                    PollError::AlreadyVotedError(
                        String::from_str("Already voted to the option in the poll."),
                    ),
                )
            } else {
                None
            }
        },
        PollWrite::Close => None,
        PollWrite::Reset => None,
    }
}

/// The votes that the option has once the write is carried out, where the
/// count can be stored.
pub fn count_after(option: &OptionItem, write: &PollWrite) -> (count: Option<u32>)
    ensures
        match count {
            Some(votes) => votes == votes_after(option@, write@),
            None => !(0 <= votes_after(option@, write@) <= u32::MAX),
        },
{
    let votes: u32 = option.votes;
    match write {
        PollWrite::CastVote { option_id, username } => {
            if same_text(option.option_id.as_str(), option_id.as_str()) {
                votes.checked_add(1)
            } else {
                Some(votes)
            }
        },
        PollWrite::ChangeVote { previous_option_id, new_option_id, username } => {
            let gains = same_text(option.option_id.as_str(), new_option_id.as_str());
            let loses = same_text(option.option_id.as_str(), previous_option_id.as_str());
            if gains && !loses {
                votes.checked_add(1)
            } else if loses && !gains {
                votes.checked_sub(1)
            } else {
                Some(votes)
            }
        },
        PollWrite::Close => Some(votes),
        PollWrite::Reset => Some(0),
    }
}

impl Poll {
    /// Carries the write out on this poll, as the store does on the stored
    /// one: in one step, or not at all. It is refused, and the poll left as
    /// it is, exactly where the poll cannot take it: a first vote of a
    /// voter who holds a vote, a change that does not start from the vote
    /// that the voter holds or that leads to the same option, or a count
    /// that could not be stored afterwards.
    pub fn apply(&mut self, write: &PollWrite) -> (result: Result<(), PollError>)
        ensures
            match result {
                Ok(_) => old(self)@.can_take(write@) && final(self)@ == old(self)@.after(write@),
                Err(error) => {
                    &&& old(self)@.refusal(write@) == Some(error@)
                    &&& *final(self) == *old(self)
                },
            },
    {
        let ghost before = self@;
        match check_voter(&self.voters, write) {
            Some(error) => {
                return Err(error);
            },
            None => {},
        }
        assert(before.voter_may(write@));
        let mut options: Vec<OptionItem> = Vec::new();
        let mut i: usize = 0;
        while i < self.options.len()
            invariant
                *self == *old(self),
                before == self@,
                before.voter_may(write@),
                i <= self.options.len(),
                options@.len() == i,
                forall|k: int|
                    0 <= k < i ==> 0 <= #[trigger] votes_after(before.options[k], write@)
                        <= u32::MAX,
                forall|k: int|
                    0 <= k < i ==> (#[trigger] options@[k])@ == option_after(
                        before.options[k],
                        write@,
                    ),
            decreases self.options.len() - i,
        {
            let option = &self.options[i];
            assert(option@ == before.options[i as int]);
            match count_after(option, write) {
                Some(votes) => {
                    options.push(
                        OptionItem {
                            option_id: option.option_id.clone(),
                            text: option.text.clone(),
                            votes,
                        },
                    );
                },
                None => {
                    return Err(
                        PollError::PollVoteError(
                            String::from_str("The vote counts cannot take the write."),
                        ),
                    );
                },
            }
            i += 1;
        }
        match write {
            PollWrite::CastVote { option_id, username } => {
                self.voters.push(
                    VoteHistory { username: username.clone(), option_id: option_id.clone() },
                );
            },
            PollWrite::ChangeVote { previous_option_id, new_option_id, username } => {
                let mut voters: Vec<VoteHistory> = Vec::new();
                let mut j: usize = 0;
                while j < self.voters.len()
                    invariant
                        *self == *old(self),
                        before == self@,
                        j <= self.voters.len(),
                        voters@.len() == j,
                        forall|k: int|
                            0 <= k < j ==> (#[trigger] voters@[k])@ == vote_after_change(
                                before.voters[k],
                                new_option_id@,
                                username@,
                            ),
                    decreases self.voters.len() - j,
                {
                    let vote = &self.voters[j];
                    assert(vote@ == before.voters[j as int]);
                    let option_id = if same_text(vote.username.as_str(), username.as_str()) {
                        new_option_id.clone()
                    } else {
                        vote.option_id.clone()
                    };
                    voters.push(VoteHistory { username: vote.username.clone(), option_id });
                    j += 1;
                }
                self.voters = voters;
            },
            PollWrite::Close => {
                self.is_active = false;
            },
            PollWrite::Reset => {
                self.voters = Vec::new();
            },
        }
        self.options = options;
        proof {
            assert(self@.options =~= before.after(write@).options);
            assert(self@.voters =~= before.after(write@).voters);
        }
        Ok(())
    }
}

/// The number of recorded votes for the option.
pub fn count_votes(voters: &Vec<VoteHistory>, option_id: &str) -> (count: usize)
    ensures
        count == tally(Seq::new(voters@.len(), |i: int| voters@[i]@), option_id@),
{
    let ghost all = Seq::new(voters@.len(), |i: int| voters@[i]@);
    let mut count: usize = 0;
    let mut i: usize = 0;
    while i < voters.len()
        invariant
            i <= voters.len(),
            all == Seq::new(voters@.len(), |i: int| voters@[i]@),
            count == tally(all.take(i as int), option_id@),
            count <= i,
        decreases voters.len() - i,
    {
        proof {
            assert(all.take(i + 1).drop_last() =~= all.take(i as int));
        }
        if same_text(voters[i].option_id.as_str(), option_id) {
            count += 1;
        }
        i += 1;
    }
    proof {
        assert(all.take(voters.len() as int) =~= all);
    }
    count
}

/// Whether no voter is recorded twice.
pub fn has_one_vote_each(voters: &Vec<VoteHistory>) -> (ok: bool)
    ensures
        ok == one_vote_each(Seq::new(voters@.len(), |i: int| voters@[i]@)),
{
    let ghost all = Seq::new(voters@.len(), |i: int| voters@[i]@);
    let mut j: usize = 0;
    while j < voters.len()
        invariant
            j <= voters.len(),
            all == Seq::new(voters@.len(), |i: int| voters@[i]@),
            forall|a: int, b: int|
                0 <= a < b < j ==> (#[trigger] all[a]).username != (#[trigger] all[b]).username,
        decreases voters.len() - j,
    {
        let mut i: usize = 0;
        while i < j
            invariant
                i <= j,
                j < voters.len(),
                all == Seq::new(voters@.len(), |i: int| voters@[i]@),
                forall|a: int| 0 <= a < i ==> (#[trigger] all[a]).username != all[j as int].username,
            decreases j - i,
        {
            if same_text(voters[i].username.as_str(), voters[j].username.as_str()) {
                assert(all[i as int].username == all[j as int].username);
                return false;
            }
            i += 1;
        }
        j += 1;
    }
    true
}

impl Poll {
    /// Whether each voter is recorded at most once and each option's count
    /// is the number of recorded votes for it.
    pub fn is_consistent(&self) -> (ok: bool)
        ensures
            ok == self@.consistent(),
    {
        if !has_one_vote_each(&self.voters) {
            return false;
        }
        let mut k: usize = 0;
        while k < self.options.len()
            invariant
                k <= self.options.len(),
                one_vote_each(self@.voters),
                forall|n: int|
                    0 <= n < k ==> (#[trigger] self@.options[n]).votes == tally(
                        self@.voters,
                        self@.options[n].option_id,
                    ),
            decreases self.options.len() - k,
        {
            let option = &self.options[k];
            assert(option@ == self@.options[k as int]);
            let count = count_votes(&self.voters, option.option_id.as_str());
            if option.votes as u128 != count as u128 {
                return false;
            }
            k += 1;
        }
        true
    }
}

} // verus!
