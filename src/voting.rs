//! A poll with candidates and an unconditional vote tally.
use vstd::prelude::*;

verus! {

/// A poll and the number of candidates registered in it.
#[derive(Debug)]
pub struct Poll {
    pub poll_id: u64,
    pub poll_description: String,
    pub poll_start: u64,
    pub poll_end: u64,
    pub candidate_amount: u64,
}

/// A candidate of a poll and the votes it has received.
#[derive(Debug)]
pub struct Candidate {
    pub candidate_name: String,
    pub vote_count: u64,
}

/// Opens a poll with no candidates. The time window is recorded, not
/// enforced.
pub fn initialize_poll(poll_id: u64, poll_description: String, poll_start: u64, poll_end: u64) -> (r:
    Poll)
    ensures
        r == (Poll { poll_id, poll_description, poll_start, poll_end, candidate_amount: 0 }),
{
    Poll { poll_id, poll_description, poll_start, poll_end, candidate_amount: 0 }
}

/// Registers a candidate in `poll`, with no votes yet.
pub fn init_candidate(poll: &mut Poll, candidate_name: String) -> (r: Candidate)
    requires
        old(poll).candidate_amount < u64::MAX,
    ensures
        r == (Candidate { candidate_name, vote_count: 0 }),
        *final(poll) == (Poll { candidate_amount: (old(poll).candidate_amount + 1) as u64, ..*old(poll) }),
{
    poll.candidate_amount = poll.candidate_amount + 1;
    Candidate { candidate_name, vote_count: 0 }
}

/// Counts one vote for `candidate`. Nothing tracks who voted.
pub fn vote(candidate: &mut Candidate)
    requires
        old(candidate).vote_count < u64::MAX,
    ensures
        final(candidate).vote_count == old(candidate).vote_count + 1,
        final(candidate).candidate_name == old(candidate).candidate_name,
{
    candidate.vote_count = candidate.vote_count + 1;
}

} // verus!
