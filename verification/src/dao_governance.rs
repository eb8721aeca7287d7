//! A minimal on-chain governance primitive: members create proposals, cast
//! one vote each (`for` or `against`), and a proposal is finalised once
//! voting ends, passing on a strict majority of `for` votes.
//!
//! ```text
//! propose (voting_ends = now + duration)
//!   --> Active --vote x n--> voting ends
//!   --> execute: for > against ? Succeeded : Defeated
//! ```

pub mod laws;

use vstd::prelude::*;

use crate::errors::ForgeError;
use crate::ledger::{contains_address, copy_bytes, next_id, Address, Invocation};

verus! {

/// Lifecycle state of a governance proposal.
#[derive(Clone, Copy, Debug, PartialEq, Eq, Structural)]
pub enum ProposalState {
    /// Open for voting.
    Active,
    /// Approved and executed.
    Succeeded,
    /// Rejected or expired.
    Defeated,
    /// Queued for delayed execution (reserved; no entrypoint reaches it).
    Queued,
}

/// A single governance proposal.
#[derive(Debug)]
pub struct Proposal {
    /// Stable identifier assigned at creation.
    pub proposal_id: u64,
    /// Address that created the proposal.
    pub proposer: Address,
    /// Encoded action to execute on success.
    pub action: Vec<u8>,
    /// Tally of "for" votes.
    pub for_votes: i128,
    /// Tally of "against" votes.
    pub against_votes: i128,
    /// Ledger timestamp at which voting closes.
    pub voting_ends: u64,
    /// Current state.
    pub state: ProposalState,
}

/// A proposal as plain data.
#[verifier::ext_equal]
pub struct ProposalView {
    pub proposal_id: u64,
    pub proposer: Address,
    pub action: Seq<u8>,
    pub for_votes: i128,
    pub against_votes: i128,
    pub voting_ends: u64,
    pub state: ProposalState,
}

impl View for Proposal {
    type V = ProposalView;

    open spec fn view(&self) -> ProposalView {
        ProposalView {
            proposal_id: self.proposal_id,
            proposer: self.proposer,
            action: self.action@,
            for_votes: self.for_votes,
            against_votes: self.against_votes,
            voting_ends: self.voting_ends,
            state: self.state,
        }
    }
}

/// The state an `Active` proposal is finalised to: passed on a strict
/// majority of `for` votes, defeated otherwise (ties included).
pub open spec fn verdict(p: ProposalView) -> ProposalState {
    if p.for_votes > p.against_votes {
        ProposalState::Succeeded
    } else {
        ProposalState::Defeated
    }
}

/// The proposal after a vote, or the error the vote answers with, for a voter
/// who has (`already_voted`) or has not voted on it yet, at ledger time `now`.
pub open spec fn vote_outcome(p: ProposalView, now: u64, already_voted: bool, support: bool) -> Result<ProposalView, ForgeError> {
    if p.state != ProposalState::Active {
        Err(ForgeError::InvalidInput)
    } else if now >= p.voting_ends {
        Err(ForgeError::DeadlineReached)
    } else if already_voted {
        Err(ForgeError::InvalidInput)
    } else if support {
        if p.for_votes == i128::MAX {
            Err(ForgeError::ArithmeticOverflow)
        } else {
            Ok(ProposalView { for_votes: (p.for_votes + 1) as i128, ..p })
        }
    } else {
        if p.against_votes == i128::MAX {
            Err(ForgeError::ArithmeticOverflow)
        } else {
            Ok(ProposalView { against_votes: (p.against_votes + 1) as i128, ..p })
        }
    }
}

/// The proposal after finalising it at ledger time `now`, or the error
/// `execute` answers with: only an `Active` proposal whose voting has ended
/// can be finalised.
pub open spec fn finalise_outcome(p: ProposalView, now: u64) -> Result<ProposalView, ForgeError> {
    if p.state != ProposalState::Active || now < p.voting_ends {
        Err(ForgeError::InvalidInput)
    } else {
        Ok(ProposalView { state: verdict(p), ..p })
    }
}

/// The proposal a creation call opens as the one after the `count`-th, at
/// ledger time `now`, or the error it answers with.
pub open spec fn proposal_opening(now: u64, count: u64, proposer: Address, action: Seq<u8>, duration: u64) -> Result<ProposalView, ForgeError> {
    if duration == 0 {
        Err(ForgeError::InvalidInput)
    } else if count == u64::MAX || now + duration > u64::MAX {
        Err(ForgeError::ArithmeticOverflow)
    } else {
        Ok(
            ProposalView {
                proposal_id: (count + 1) as u64,
                proposer,
                action,
                for_votes: 0,
                against_votes: 0,
                voting_ends: (now + duration) as u64,
                state: ProposalState::Active,
            },
        )
    }
}

impl Proposal {
    /// Open a new `Active` proposal as the one after the `count`-th, voting
    /// open for `duration` seconds from now; the proposer authorizes.
    pub fn open(inv: &mut Invocation, count: u64, proposer: Address, action: Vec<u8>, duration: u64) -> (r: Result<Proposal, ForgeError>)
        ensures
            match proposal_opening(old(inv).now, count, proposer, action@, duration) {
                Ok(p) => r is Ok && r->Ok_0@ == p,
                Err(e) => r is Err && r->Err_0 == e,
            },
            final(inv).records(
                *old(inv),
                if duration == 0 {
                    Seq::empty()
                } else {
                    seq![proposer]
                },
                Seq::empty(),
            ),
    {
        if duration == 0 {
            return Err(ForgeError::InvalidInput);
        }
        inv.require_auth(proposer);

        let proposal_id = next_id(count)?;
        let voting_ends = match inv.now.checked_add(duration) {
            Some(t) => t,
            None => return Err(ForgeError::ArithmeticOverflow),
        };
        let proposal = Proposal {
            proposal_id,
            proposer,
            action,
            for_votes: 0,
            against_votes: 0,
            voting_ends,
            state: ProposalState::Active,
        };
        assert(proposal@ =~= proposal_opening(old(inv).now, count, proposer, proposal.action@, duration)->Ok_0);
        Ok(proposal)
    }

    /// Count `voter`'s vote, who has (`already_voted`) or has not voted on
    /// this proposal yet: only while `Active` and before `voting_ends`, once
    /// per voter; the voter authorizes.
    pub fn vote(&mut self, inv: &mut Invocation, already_voted: bool, voter: Address, support: bool) -> (r: Result<(), ForgeError>)
        ensures
            match vote_outcome(old(self)@, old(inv).now, already_voted, support) {
                Ok(p) => r is Ok && final(self)@ == p,
                Err(e) => r == Err::<(), ForgeError>(e) && final(self)@ == old(self)@,
            },
            final(inv).records(
                *old(inv),
                if old(self).state == ProposalState::Active && old(inv).now < old(self).voting_ends {
                    seq![voter]
                } else {
                    Seq::empty()
                },
                Seq::empty(),
            ),
    {
        if self.state != ProposalState::Active {
            return Err(ForgeError::InvalidInput);
        }
        if inv.now >= self.voting_ends {
            return Err(ForgeError::DeadlineReached);
        }
        inv.require_auth(voter);

        if already_voted {
            return Err(ForgeError::InvalidInput);
        }
        if support {
            self.for_votes = match self.for_votes.checked_add(1) {
                Some(t) => t,
                None => return Err(ForgeError::ArithmeticOverflow),
            };
        } else {
            self.against_votes = match self.against_votes.checked_add(1) {
                Some(t) => t,
                None => return Err(ForgeError::ArithmeticOverflow),
            };
        }
        assert(self@ =~= vote_outcome(old(self)@, old(inv).now, already_voted, support)->Ok_0);
        Ok(())
    }

    /// Finalise the proposal at ledger time `now`: only while `Active` and
    /// once voting has ended; passes on a strict majority of `for` votes.
    pub fn execute(&mut self, now: u64) -> (r: Result<(), ForgeError>)
        ensures
            match finalise_outcome(old(self)@, now) {
                Ok(p) => r is Ok && final(self)@ == p,
                Err(e) => r == Err::<(), ForgeError>(e) && final(self)@ == old(self)@,
            },
    {
        if self.state != ProposalState::Active {
            return Err(ForgeError::InvalidInput);
        }
        if now < self.voting_ends {
            return Err(ForgeError::InvalidInput);
        }
        self.state = if self.for_votes > self.against_votes {
            ProposalState::Succeeded
        } else {
            ProposalState::Defeated
        };
        assert(self@ =~= finalise_outcome(old(self)@, now)->Ok_0);
        Ok(())
    }
}

/// The governance contract's storage: the proposals, whose ids run from 1
/// upward, and for each proposal the voters who voted on it.
pub struct DaoGovernance {
    proposals: Vec<Proposal>,
    voters: Vec<Vec<Address>>,
}

impl DaoGovernance {
    /// Proposals in creation order; the one with id `i` is at `i - 1`.
    pub closed spec fn proposals(self) -> Seq<ProposalView> {
        self.proposals@.map_values(|p: Proposal| p@)
    }

    /// For each proposal (same positions), the voters in voting order.
    pub closed spec fn ballots(self) -> Seq<Seq<Address>> {
        self.voters@.map_values(|v: Vec<Address>| v@)
    }

    /// How many proposals have been created.
    pub open spec fn count(self) -> nat {
        self.proposals().len()
    }

    /// The proposal stored under `id`, if any.
    pub open spec fn proposal(self, id: u64) -> Option<ProposalView> {
        if 1 <= id <= self.count() {
            Some(self.proposals()[id - 1])
        } else {
            None
        }
    }

    /// Whether `voter` has voted on proposal `id`.
    pub open spec fn has_voted(self, id: u64, voter: Address) -> bool {
        1 <= id <= self.count() && self.ballots()[id - 1].contains(voter)
    }

    /// Every proposal sits under its own id; its voters are distinct and
    /// its two tallies together count exactly its voters.
    pub open spec fn wf(self) -> bool {
        &&& self.count() <= u64::MAX
        &&& self.ballots().len() == self.count()
        &&& forall|i: int| 0 <= i < self.count() ==> Self::entry_wf(#[trigger] self.proposals()[i], self.ballots()[i], i)
    }

    /// The invariant of the proposal at position `i` with voters `ballot`.
    pub open spec fn entry_wf(p: ProposalView, ballot: Seq<Address>, i: int) -> bool {
        &&& p.proposal_id == i + 1
        &&& p.for_votes >= 0
        &&& p.against_votes >= 0
        &&& p.for_votes + p.against_votes == ballot.len()
        &&& ballot.no_duplicates()
    }

    /// A contract with no proposals yet.
    pub fn new() -> (d: DaoGovernance)
        ensures
            d.wf(),
            d.proposals() == Seq::<ProposalView>::empty(),
    {
        let d = DaoGovernance { proposals: Vec::new(), voters: Vec::new() };
        assert(d.proposals() =~= Seq::<ProposalView>::empty());
        assert(d.ballots() =~= Seq::<Seq<Address>>::empty());
        d
    }

    /// Create a new proposal with an encoded action payload and return its
    /// stable id. Voting stays open for `duration` seconds from now.
    ///
    /// Requires `duration > 0`; the proposer authorizes.
    pub fn propose(&mut self, inv: &mut Invocation, proposer: Address, action: Vec<u8>, duration: u64) -> (r: Result<u64, ForgeError>)
        requires
            old(self).wf(),
        ensures
            final(self).wf(),
            duration == 0 ==> {
                &&& r == Err::<u64, ForgeError>(ForgeError::InvalidInput)
                &&& final(self).proposals() == old(self).proposals()
                &&& final(self).ballots() == old(self).ballots()
                &&& final(inv).records(*old(inv), Seq::empty(), Seq::empty())
            },
            duration > 0 ==> {
                &&& final(inv).records(*old(inv), seq![proposer], Seq::empty())
                &&& if old(self).count() == u64::MAX || old(inv).now + duration > u64::MAX {
                    &&& r == Err::<u64, ForgeError>(ForgeError::ArithmeticOverflow)
                    &&& final(self).proposals() == old(self).proposals()
                    &&& final(self).ballots() == old(self).ballots()
                } else {
                    &&& r == Ok::<u64, ForgeError>((old(self).count() + 1) as u64)
                    &&& final(self).proposals() == old(self).proposals().push(
                        ProposalView {
                            proposal_id: (old(self).count() + 1) as u64,
                            proposer,
                            action: action@,
                            for_votes: 0,
                            against_votes: 0,
                            voting_ends: (old(inv).now + duration) as u64,
                            state: ProposalState::Active,
                        },
                    )
                    &&& final(self).ballots() == old(self).ballots().push(Seq::empty())
                }
            },
    {
        let proposal = Proposal::open(inv, self.proposals.len() as u64, proposer, action, duration)?;
        let proposal_id = proposal.proposal_id;
        let ghost pre_p = self.proposals();
        let ghost pre_b = self.ballots();
        self.proposals.push(proposal);
        self.voters.push(Vec::new());
        proof {
            assert(self.proposals() =~= pre_p.push(proposal@));
            assert(self.ballots() =~= pre_b.push(Seq::empty()));
            assert forall|i: int| 0 <= i < self.count() implies Self::entry_wf(#[trigger] self.proposals()[i], self.ballots()[i], i) by {
                if i < pre_p.len() {
                    assert(Self::entry_wf(pre_p[i], pre_b[i], i));
                }
            }
        }
        Ok(proposal_id)
    }

    /// Cast `voter`'s vote on an active proposal: `support` counts for it,
    /// otherwise against. Each voter may vote once; voting closes at
    /// `voting_ends`. The voter authorizes.
    pub fn vote(&mut self, inv: &mut Invocation, proposal_id: u64, voter: Address, support: bool) -> (r: Result<(), ForgeError>)
        requires
            old(self).wf(),
        ensures
            final(self).wf(),
            match old(self).proposal(proposal_id) {
                None => {
                    &&& r == Err::<(), ForgeError>(ForgeError::NotFound)
                    &&& final(self).proposals() == old(self).proposals()
                    &&& final(self).ballots() == old(self).ballots()
                    &&& final(inv).records(*old(inv), Seq::empty(), Seq::empty())
                },
                Some(p) => {
                    let outcome = vote_outcome(p, old(inv).now, old(self).has_voted(proposal_id, voter), support);
                    &&& final(inv).records(
                        *old(inv),
                        if p.state == ProposalState::Active && old(inv).now < p.voting_ends {
                            seq![voter]
                        } else {
                            Seq::empty()
                        },
                        Seq::empty(),
                    )
                    &&& match outcome {
                        Ok(p2) => {
                            &&& r is Ok
                            &&& final(self).proposals() == old(self).proposals().update(proposal_id - 1, p2)
                            &&& final(self).ballots() == old(self).ballots().update(
                                proposal_id - 1,
                                old(self).ballots()[proposal_id - 1].push(voter),
                            )
                        },
                        Err(e) => {
                            &&& r == Err::<(), ForgeError>(e)
                            &&& final(self).proposals() == old(self).proposals()
                            &&& final(self).ballots() == old(self).ballots()
                        },
                    }
                },
            },
    {
        let idx = self.get_proposal_index(proposal_id)?;
        assert(self.proposals()[idx as int] == self.proposals@[idx as int]@);
        assert(self.ballots()[idx as int] == self.voters@[idx as int]@);
        let ghost pre_p = self.proposals();
        let ghost pre_b = self.ballots();
        let already_voted = contains_address(&self.voters[idx], voter);
        if let Err(e) = self.proposals[idx].vote(inv, already_voted, voter, support) {
            assert(self.proposals() =~= pre_p);
            return Err(e);
        }
        self.voters[idx].push(voter);
        proof {
            assert(Self::entry_wf(pre_p[idx as int], pre_b[idx as int], idx as int));
            let p2 = vote_outcome(pre_p[idx as int], inv.now, false, support)->Ok_0;
            assert(self.proposals() =~= pre_p.update(idx as int, p2));
            assert(self.ballots() =~= pre_b.update(idx as int, pre_b[idx as int].push(voter)));
            assert forall|i: int| 0 <= i < self.count() implies Self::entry_wf(#[trigger] self.proposals()[i], self.ballots()[i], i) by {
                assert(Self::entry_wf(pre_p[i], pre_b[i], i));
            }
        }
        Ok(())
    }

    /// Finalise a proposal once voting has ended: `Succeeded` on a strict
    /// majority of `for` votes, `Defeated` otherwise. Anyone may call it.
    pub fn execute(&mut self, inv: &Invocation, proposal_id: u64) -> (r: Result<(), ForgeError>)
        requires
            old(self).wf(),
        ensures
            final(self).wf(),
            final(self).ballots() == old(self).ballots(),
            match old(self).proposal(proposal_id) {
                None => r == Err::<(), ForgeError>(ForgeError::NotFound),
                Some(p) => match finalise_outcome(p, inv.now) {
                    Ok(p2) => r is Ok && final(self).proposals() == old(self).proposals().update(
                        proposal_id - 1,
                        p2,
                    ),
                    Err(e) => r == Err::<(), ForgeError>(e),
                },
            },
            r is Err ==> final(self).proposals() == old(self).proposals(),
    {
        let idx = self.get_proposal_index(proposal_id)?;
        assert(self.proposals()[idx as int] == self.proposals@[idx as int]@);
        let ghost pre_p = self.proposals();
        if let Err(e) = self.proposals[idx].execute(inv.now) {
            assert(self.proposals() =~= pre_p);
            return Err(e);
        }
        proof {
            let p2 = finalise_outcome(pre_p[idx as int], inv.now)->Ok_0;
            assert(self.proposals() =~= pre_p.update(idx as int, p2));
            assert forall|i: int| 0 <= i < self.count() implies Self::entry_wf(#[trigger] self.proposals()[i], self.ballots()[i], i) by {
                assert(Self::entry_wf(pre_p[i], self.ballots()[i], i));
            }
        }
        Ok(())
    }

    /// A copy of the proposal stored under `proposal_id`.
    pub fn get_proposal(&self, proposal_id: u64) -> (r: Result<Proposal, ForgeError>)
        requires
            self.wf(),
        ensures
            match self.proposal(proposal_id) {
                Some(p) => r is Ok && r->Ok_0@ == p,
                None => r is Err && r->Err_0 == ForgeError::NotFound,
            },
    {
        let idx = self.get_proposal_index(proposal_id)?;
        let p = &self.proposals[idx];
        let copy = Proposal {
            proposal_id: p.proposal_id,
            proposer: p.proposer,
            action: copy_bytes(&p.action),
            for_votes: p.for_votes,
            against_votes: p.against_votes,
            voting_ends: p.voting_ends,
            state: p.state,
        };
        assert(copy@ =~= self.proposals()[idx as int]);
        Ok(copy)
    }

    /// Position of the proposal with id `proposal_id`.
    fn get_proposal_index(&self, proposal_id: u64) -> (r: Result<usize, ForgeError>)
        requires
            self.wf(),
        ensures
            match self.proposal(proposal_id) {
                Some(_) => r is Ok && r->Ok_0 == proposal_id - 1 && proposal_id - 1 < self.proposals@.len()
                    && proposal_id - 1 < self.voters@.len(),
                None => r == Err::<usize, ForgeError>(ForgeError::NotFound),
            },
    {
        if proposal_id == 0 || proposal_id > self.proposals.len() as u64 {
            return Err(ForgeError::NotFound);
        }
        Ok((proposal_id - 1) as usize)
    }
}

} // verus!
