//! Laws of DAO governance: one vote per voter, finalisation happens once and
//! only after voting ends, and a proposal passes only on a strict majority.

use vstd::prelude::*;

use crate::dao_governance::{
    finalise_outcome, proposal_opening, vote_outcome, DaoGovernance, ProposalState, ProposalView,
};
use crate::ledger::Address;
use crate::errors::ForgeError;

verus! {

/// Each proposal's two tallies together count exactly the distinct voters
/// recorded for it: nobody's vote counts twice.
pub proof fn law_tallies_count_distinct_voters(d: DaoGovernance, id: u64)
    requires
        d.wf(),
        d.proposal(id) is Some,
    ensures
        d.proposal(id)->Some_0.for_votes + d.proposal(id)->Some_0.against_votes == d.ballots()[id
            - 1].len(),
        d.ballots()[id - 1].no_duplicates(),
        d.proposal(id)->Some_0.for_votes >= 0,
        d.proposal(id)->Some_0.against_votes >= 0,
{
    assert(DaoGovernance::entry_wf(d.proposals()[id - 1], d.ballots()[id - 1], id - 1));
}

/// A counted vote raises exactly one tally by one, is refused for a voter who
/// already voted, and is refused from the deadline on.
pub proof fn law_a_vote_counts_once(p: ProposalView, now: u64, already_voted: bool, support: bool)
    ensures
        vote_outcome(p, now, already_voted, support) matches Ok(p2) ==> {
            &&& !already_voted
            &&& now < p.voting_ends
            &&& p2.for_votes + p2.against_votes == p.for_votes + p.against_votes + 1
            &&& support ==> p2.for_votes == p.for_votes + 1 && p2.against_votes == p.against_votes
            &&& !support ==> p2.against_votes == p.against_votes + 1 && p2.for_votes == p.for_votes
            &&& p2 == (ProposalView { for_votes: p2.for_votes, against_votes: p2.against_votes, ..p })
        },
        p.state == ProposalState::Active && now >= p.voting_ends ==> vote_outcome(
            p,
            now,
            already_voted,
            support,
        ) == Err::<ProposalView, ForgeError>(ForgeError::DeadlineReached),
{
}

/// Finalising happens only once voting has ended, passes a proposal exactly
/// when it has strictly more `for` than `against` votes, and is final: the
/// finalised proposal accepts neither votes nor another finalisation.
pub proof fn law_finalisation_is_final(p: ProposalView, now: u64, later: u64, voted: bool, support: bool)
    requires
        finalise_outcome(p, now) is Ok,
    ensures
        now >= p.voting_ends,
        p.state == ProposalState::Active,
        (finalise_outcome(p, now)->Ok_0.state == ProposalState::Succeeded) <==> p.for_votes
            > p.against_votes,
        finalise_outcome(finalise_outcome(p, now)->Ok_0, later) is Err,
        vote_outcome(finalise_outcome(p, now)->Ok_0, later, voted, support) is Err,
{
}


/// While voting is open, an active proposal counts the vote of everyone who
/// has not voted yet, for or against (until a tally would overflow), and
/// refuses a second vote; from the deadline on it takes no vote but can be
/// finalised, and before the deadline it cannot.
pub proof fn law_open_proposals_take_votes_and_close(p: ProposalView, now: u64, support: bool)
    requires
        p.state == ProposalState::Active,
    ensures
        now < p.voting_ends && p.for_votes < i128::MAX && p.against_votes < i128::MAX ==> vote_outcome(
            p,
            now,
            false,
            support,
        ) is Ok,
        now < p.voting_ends ==> vote_outcome(p, now, true, support) == Err::<ProposalView, ForgeError>(
            ForgeError::InvalidInput,
        ),
        now >= p.voting_ends ==> finalise_outcome(p, now) is Ok,
        now < p.voting_ends ==> finalise_outcome(p, now) is Err,
{
}

/// A proposal can be opened with every positive voting period whose end fits
/// a timestamp, while ids remain: it takes the next id, starts `Active` with
/// no votes, and closes `duration` seconds after it was opened.
pub proof fn law_proposals_open_for_positive_periods(
    now: u64,
    count: u64,
    proposer: Address,
    action: Seq<u8>,
    duration: u64,
)
    ensures
        proposal_opening(now, count, proposer, action, duration) is Ok <==> (duration > 0 && count < u64::MAX
            && now + duration <= u64::MAX),
        proposal_opening(now, count, proposer, action, duration) matches Ok(p) ==> {
            &&& p.proposal_id == count + 1
            &&& p.proposer == proposer
            &&& p.action == action
            &&& p.for_votes == 0 && p.against_votes == 0
            &&& p.voting_ends == now + duration
            &&& p.state == ProposalState::Active
        },
{
}

} // verus!
