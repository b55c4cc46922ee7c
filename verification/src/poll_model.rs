use vstd::prelude::*;

verus! {

/// One option of a poll, with the votes counted for it.
#[derive(Debug)]
pub struct OptionItem {
    pub option_id: String,
    pub text: String,
    pub votes: u32,
}

/// An option as a mathematical value.
pub struct OptionItemView {
    pub option_id: Seq<char>,
    pub text: Seq<char>,
    pub votes: nat,
}

impl View for OptionItem {
    type V = OptionItemView;

    open spec fn view(&self) -> OptionItemView {
        OptionItemView { option_id: self.option_id@, text: self.text@, votes: self.votes as nat }
    }
}

/// The vote that a voter currently holds.
#[derive(Debug)]
pub struct VoteHistory {
    pub username: String,
    pub option_id: String,
}

/// A recorded vote as a mathematical value.
pub struct VoteHistoryView {
    pub username: Seq<char>,
    pub option_id: Seq<char>,
}

impl View for VoteHistory {
    type V = VoteHistoryView;

    open spec fn view(&self) -> VoteHistoryView {
        VoteHistoryView { username: self.username@, option_id: self.option_id@ }
    }
}

/// A poll. The times are whole seconds since the Unix epoch.
#[derive(Debug)]
pub struct Poll {
    pub poll_id: String,
    pub username: String,
    pub title: String,
    pub options: Vec<OptionItem>,
    pub is_active: bool,
    pub voters: Vec<VoteHistory>,
    pub created_at: i64,
    pub updated_at: i64,
}

/// A poll as a mathematical value.
pub struct PollView {
    pub poll_id: Seq<char>,
    pub username: Seq<char>,
    pub title: Seq<char>,
    pub options: Seq<OptionItemView>,
    pub is_active: bool,
    pub voters: Seq<VoteHistoryView>,
    pub created_at: int,
    pub updated_at: int,
}

impl View for Poll {
    type V = PollView;

    open spec fn view(&self) -> PollView {
        PollView {
            poll_id: self.poll_id@,
            username: self.username@,
            title: self.title@,
            options: Seq::new(self.options@.len(), |i: int| self.options@[i]@),
            is_active: self.is_active,
            voters: Seq::new(self.voters@.len(), |i: int| self.voters@[i]@),
            created_at: self.created_at as int,
            updated_at: self.updated_at as int,
        }
    }
}

/// The results of one option: its votes and its share of all votes. The
/// share is exact: the fraction `share.0 / share.1`, whose hundredfold is
/// the option's percentage. The second part is never zero.
#[derive(Debug)]
pub struct ResultsOptionItem {
    pub option_id: String,
    pub text: String,
    pub votes: u32,
    pub share: (u32, u128),
}

/// The results of an option as a mathematical value.
pub struct ResultsOptionItemView {
    pub option_id: Seq<char>,
    pub text: Seq<char>,
    pub votes: nat,
    pub share: (nat, nat),
}

impl View for ResultsOptionItem {
    type V = ResultsOptionItemView;

    open spec fn view(&self) -> ResultsOptionItemView {
        ResultsOptionItemView {
            option_id: self.option_id@,
            text: self.text@,
            votes: self.votes as nat,
            share: (self.share.0 as nat, self.share.1 as nat),
        }
    }
}

/// The results of a poll: derived from the poll, never stored.
#[derive(Debug)]
pub struct PollResults {
    pub poll_id: String,
    pub title: String,
    pub options: Vec<ResultsOptionItem>,
    pub total_votes: u128,
    pub time_elapsed: String,
}

/// The results of a poll as a mathematical value.
pub struct PollResultsView {
    pub poll_id: Seq<char>,
    pub title: Seq<char>,
    pub options: Seq<ResultsOptionItemView>,
    pub total_votes: nat,
    pub time_elapsed: Seq<char>,
}

impl View for PollResults {
    type V = PollResultsView;

    open spec fn view(&self) -> PollResultsView {
        PollResultsView {
            poll_id: self.poll_id@,
            title: self.title@,
            options: Seq::new(self.options@.len(), |i: int| self.options@[i]@),
            total_votes: self.total_votes as nat,
            time_elapsed: self.time_elapsed@,
        }
    }
}

/// What a request for a poll's results may say of the poll it expects.
#[derive(Debug)]
pub struct PollQueryParams {
    pub live: Option<bool>,
    pub closed: Option<bool>,
    pub creator: Option<String>,
}

/// The expectations of a request for results, as a mathematical value.
pub struct PollQueryParamsView {
    pub live: Option<bool>,
    pub closed: Option<bool>,
    pub creator: Option<Seq<char>>,
}

impl View for PollQueryParams {
    type V = PollQueryParamsView;

    open spec fn view(&self) -> PollQueryParamsView {
        PollQueryParamsView {
            live: self.live,
            closed: self.closed,
            creator: match self.creator {
                Some(creator) => Some(creator@),
                None => None,
            },
        }
    }
}

} // verus!
