use vstd::prelude::*;
use vstd::string::*;

use crate::clock::current_time;
use crate::decimal::{decimal_text, push_decimal};
use crate::poll_model::{
    OptionItemView, Poll, PollResults, PollResultsView, PollView, ResultsOptionItem,
    ResultsOptionItemView,
};

verus! {

/// The sum of the votes of the options.
pub open spec fn total_votes(options: Seq<OptionItemView>) -> nat
    decreases options.len(),
{
    if options.len() == 0 {
        0
    } else {
        total_votes(options.drop_last()) + options.last().votes
    }
}

/// The share of `votes` in `total`, as an exact fraction: `votes` over
/// `total`, or zero over one where there is no vote at all. The option's
/// percentage is a hundred times this fraction.
pub open spec fn share_of(votes: nat, total: nat) -> (nat, nat) {
    if total > 0 {
        (votes, total)
    } else {
        (0, 1)
    }
}

/// The time elapsed from `created_at` to `now`, in seconds: never
/// negative, and never more than the largest `i64`.
pub open spec fn elapsed_seconds(now: int, created_at: int) -> int {
    if now <= created_at {
        0
    } else if now - created_at > i64::MAX {
        i64::MAX as int
    } else {
        now - created_at
    }
}

/// A duration of `secs` seconds as days, hours, minutes and seconds, each a
/// whole number that is not rounded up. A negative duration counts as none.
pub open spec fn duration_text(secs: int) -> Seq<char> {
    let s: nat = if secs < 0 {
        0
    } else {
        secs as nat
    };
    decimal_text(s / 86400) + "d "@ + decimal_text((s % 86400) / 3600) + "h "@ + decimal_text(
        (s % 3600) / 60,
    ) + "m "@ + decimal_text(s % 60) + "s"@
}

/// The results of one option of a poll with `total` votes.
pub open spec fn option_results(option: OptionItemView, total: nat) -> ResultsOptionItemView {
    ResultsOptionItemView {
        option_id: option.option_id,
        text: option.text,
        votes: option.votes,
        share: share_of(option.votes, total),
    }
}

/// The results of `poll` at the time `now`.
pub open spec fn poll_results(poll: PollView, now: int) -> PollResultsView {
    PollResultsView {
        poll_id: poll.poll_id,
        title: poll.title,
        options: Seq::new(
            poll.options.len(),
            |i: int| option_results(poll.options[i], total_votes(poll.options)),
        ),
        total_votes: total_votes(poll.options),
        time_elapsed: duration_text(elapsed_seconds(now, poll.created_at)),
    }
}

/// No option has more votes than all options together.
pub proof fn lemma_votes_within_total(options: Seq<OptionItemView>, i: int)
    requires
        0 <= i < options.len(),
    ensures
        options[i].votes <= total_votes(options),
    decreases options.len(),
{
    if i < options.len() - 1 {
        lemma_votes_within_total(options.drop_last(), i);
    }
}

/// Formats a duration of `secs` seconds as days, hours, minutes and
/// seconds. A negative duration is formatted as none.
pub fn format_duration(secs: i64) -> (text: String)
    ensures
        text@ == duration_text(secs as int),
{
    let s: u64 = if secs < 0 {
        0
    } else {
        secs as u64
    };
    let mut text = String::new();
    push_decimal(&mut text, s / 86400);
    text.append("d ");
    push_decimal(&mut text, (s % 86400) / 3600);
    text.append("h ");
    push_decimal(&mut text, (s % 3600) / 60);
    text.append("m ");
    push_decimal(&mut text, s % 60);
    text.append("s");
    assert(text@ =~= duration_text(secs as int));
    text
}

/// The time elapsed from `created_at` to `now`, in seconds.
pub fn seconds_since(now: i64, created_at: i64) -> (secs: i64)
    ensures
        secs == elapsed_seconds(now as int, created_at as int),
{
    if now <= created_at {
        0
    } else {
        match now.checked_sub(created_at) {
            Some(secs) => secs,
            None => i64::MAX,
        }
    }
}

/// The share of `votes` in `total`, as an exact fraction.
pub fn share_parts(votes: u32, total: u128) -> (parts: (u32, u128))
    ensures
        (parts.0 as nat, parts.1 as nat) == share_of(votes as nat, total as nat),
{
    if total > 0 {
        (votes, total)
    } else {
        (0, 1)
    }
}

/// The share of each option is exact and lies between nothing and all. Its
/// second part is not zero, so the percentage, a hundred times the
/// fraction, is defined and lies between 0 and 100. Where there are votes,
/// the fraction times the total is the option's votes, so nothing is
/// rounded away; where there is none, the share is zero.
pub proof fn lemma_share_is_exact(options: Seq<OptionItemView>, i: int)
    requires
        0 <= i < options.len(),
    ensures
        ({
            let total = total_votes(options);
            let share = share_of(options[i].votes, total);
            &&& share.1 > 0
            &&& share.0 <= share.1
            &&& 0 <= share.0 * 100 <= 100 * share.1
            &&& total > 0 ==> share.0 * total == options[i].votes * share.1
            &&& total == 0 ==> share.0 == 0
        }),
{
    lemma_votes_within_total(options, i);
    let total = total_votes(options);
    let share = share_of(options[i].votes, total);
    assert(0 <= share.0 * 100 <= 100 * share.1) by (nonlinear_arith)
        requires
            0 <= share.0 <= share.1,
    ;
    if total > 0 {
        assert(share.0 * total == options[i].votes * share.1) by (nonlinear_arith)
            requires
                share.0 == options[i].votes,
                share.1 == total,
        ;
    }
}

/// The results of `poll` at the time `now`: the votes of each option with
/// its exact share, the total, and the time elapsed since the poll
/// was created.
pub fn poll_results_at(poll: &Poll, now: i64) -> (results: PollResults)
    ensures
        results@ == poll_results(poll@, now as int),
{
    let mut total: u128 = 0;
    let mut i: usize = 0;
    while i < poll.options.len()
        invariant
            i <= poll.options.len(),
            total == total_votes(poll@.options.take(i as int)),
            total <= i * u32::MAX,
        decreases poll.options.len() - i,
    {
        proof {
            assert(poll@.options.take(i + 1).drop_last() =~= poll@.options.take(i as int));
            assert((i + 1) * u32::MAX == i * u32::MAX + u32::MAX) by (nonlinear_arith);
            assert(i * u32::MAX <= usize::MAX * u32::MAX) by (nonlinear_arith)
                requires
                    i <= usize::MAX,
            ;
        }
        total = total + poll.options[i].votes as u128;
        i += 1;
    }
    assert(poll@.options.take(poll.options.len() as int) =~= poll@.options);
    let mut options: Vec<ResultsOptionItem> = Vec::new();
    let mut j: usize = 0;
    while j < poll.options.len()
        invariant
            j <= poll.options.len(),
            total == total_votes(poll@.options),
            options@.len() == j,
            forall|k: int|
                0 <= k < j ==> (#[trigger] options@[k])@ == option_results(
                    poll@.options[k],
                    total as nat,
                ),
        decreases poll.options.len() - j,
    {
        let option = &poll.options[j];
        proof {
            lemma_votes_within_total(poll@.options, j as int);
        }
        let item = ResultsOptionItem {
            option_id: option.option_id.clone(),
            text: option.text.clone(),
            votes: option.votes,
            share: share_parts(option.votes, total),
        };
        options.push(item);
        j += 1;
    }
    let results = PollResults {
        poll_id: poll.poll_id.clone(),
        title: poll.title.clone(),
        options,
        total_votes: total,
        time_elapsed: format_duration(seconds_since(now, poll.created_at)),
    };
    assert(results@.options =~= poll_results(poll@, now as int).options);
    results
}

/// The results of `poll` now. What the clock says is not known here: the
/// results are those of `poll_results_at` for some time.
pub fn calculate_poll_results(poll: &Poll) -> (results: PollResults)
    ensures
        exists|now: int| results@ == poll_results(poll@, now),
{
    let now = current_time();
    let results = poll_results_at(poll, now);
    assert(results@ == poll_results(poll@, now as int));
    results
}

} // verus!
