//! A poll ledger: polls with a voting window, candidates, and vote counts.
use vstd::prelude::*;

verus! {

/// A poll and the window in which it takes votes.
pub struct PollAccount {
    pub poll_name: String,
    pub poll_description: String,
    pub poll_voting_start: u64,
    pub poll_voting_end: u64,
    pub poll_option_index: u64,
}

/// A candidate of a poll and the votes cast for it.
pub struct CandidateAccount {
    pub candidate_name: String,
    pub candidate_votes: u64,
}

/// The records a poll's creation works on.
pub struct IntializePoll {
    pub poll_account: PollAccount,
}

/// The records that adding a candidate works on.
pub struct InitializeCandidate {
    pub candidate_account: CandidateAccount,
    pub poll_account: PollAccount,
}

/// The records a vote works on.
pub struct Vote {
    pub poll_account: PollAccount,
    pub candidate_account: CandidateAccount,
}

#[derive(Clone, Copy, Debug, PartialEq, Eq, Structural)]
pub enum ErrorCode {
    VotingNotStarted,
    VotingEnded,
}

/// Names the poll and sets its voting window.
pub fn intialize_poll(
    accounts: &mut IntializePoll,
    _poll_id: u64,
    start_time: u64,
    end_time: u64,
    name: String,
    description: String,
) -> (r: Result<(), ErrorCode>)
    ensures
        r is Ok,
        final(accounts).poll_account.poll_name@ == name@,
        final(accounts).poll_account.poll_description@ == description@,
        final(accounts).poll_account.poll_voting_start == start_time,
        final(accounts).poll_account.poll_voting_end == end_time,
        final(accounts).poll_account.poll_option_index == old(accounts).poll_account.poll_option_index,
{
    accounts.poll_account.poll_name = name;
    accounts.poll_account.poll_description = description;
    accounts.poll_account.poll_voting_start = start_time;
    accounts.poll_account.poll_voting_end = end_time;
    Ok(())
}

/// Names the candidate and counts one more option on the poll.
pub fn intialize_candidate(
    accounts: &mut InitializeCandidate,
    _poll_id: u64,
    candidate: String,
) -> (r: Result<(), ErrorCode>)
    requires
        old(accounts).poll_account.poll_option_index < u64::MAX,
    ensures
        r is Ok,
        final(accounts).candidate_account.candidate_name@ == candidate@,
        final(accounts).candidate_account.candidate_votes
            == old(accounts).candidate_account.candidate_votes,
        final(accounts).poll_account.poll_option_index == old(accounts).poll_account.poll_option_index
            + 1,
        final(accounts).poll_account.poll_voting_start == old(accounts).poll_account.poll_voting_start,
        final(accounts).poll_account.poll_voting_end == old(accounts).poll_account.poll_voting_end,
{
    accounts.candidate_account.candidate_name = candidate;
    accounts.poll_account.poll_option_index = accounts.poll_account.poll_option_index + 1;
    Ok(())
}

/// Why a vote at time `now` (seconds since the epoch) is refused, if it is:
/// after the end, or not after the start.
pub open spec fn vote_error(poll: PollAccount, now: i64) -> Option<ErrorCode> {
    if now > poll.poll_voting_end as i64 {
        Some(ErrorCode::VotingEnded)
    } else if now <= poll.poll_voting_start as i64 {
        Some(ErrorCode::VotingNotStarted)
    } else {
        None
    }
}

/// Counts one vote for the candidate if `now` lies inside the poll's window.
pub fn vote(accounts: &mut Vote, _poll_id: u64, _candidate: String, now: i64) -> (r: Result<
    (),
    ErrorCode,
>)
    requires
        old(accounts).candidate_account.candidate_votes < u64::MAX,
    ensures
        r is Ok <==> vote_error(old(accounts).poll_account, now) is None,
        r matches Err(e) ==> Some(e) == vote_error(old(accounts).poll_account, now),
        final(accounts).candidate_account.candidate_votes == if r is Ok {
            old(accounts).candidate_account.candidate_votes + 1
        } else {
            old(accounts).candidate_account.candidate_votes as int
        },
        final(accounts).candidate_account.candidate_name@
            == old(accounts).candidate_account.candidate_name@,
        final(accounts).poll_account == old(accounts).poll_account,
{
    if now > (accounts.poll_account.poll_voting_end as i64) {
        return Err(ErrorCode::VotingEnded);
    }
    if now <= (accounts.poll_account.poll_voting_start as i64) {
        return Err(ErrorCode::VotingNotStarted);
    }
    accounts.candidate_account.candidate_votes = accounts.candidate_account.candidate_votes + 1;
    Ok(())
}

} // verus!
