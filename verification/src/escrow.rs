//! Three-party escrow that holds real tokens.
//!
//! A `buyer`, a `seller` and an `arbiter` agree on an `amount` of one SEP-41
//! token and a `timeout`. The buyer funds the escrow and the contract
//! custodies the tokens until release, refund or arbitration:
//!
//! ```text
//! Pending --deposit--> Funded --release--> Completed (seller paid)
//!                     |        --refund--> Refunded  (buyer back)
//!                     |        --dispute--> Disputed --resolve--> Completed | Refunded
//!          --cancel--> Cancelled (before funding only)
//! ```
//!
//! Every entrypoint that moves tokens makes the transfer first and writes
//! state only after it went through; a rejected transfer leaves storage as it
//! was.

pub mod events;
pub mod laws;

use vstd::prelude::*;

use crate::errors::ForgeError;
use crate::escrow::events::{
    cancelled, deposited, disputed, escrow_created, refunded, released, resolved, Cancelled,
    Deposited, Disputed, EscrowCreated, EscrowEvent, Refunded, Released, Resolved,
};
use crate::ledger::{next_id, seq_of, Address, Invocation, Transfer};

verus! {

/// Ledger-time constants for TTL bumps. One ledger closes roughly every five
/// seconds, so 17,280 ledgers are about a day.
pub const DAY_IN_LEDGERS: u32 = 17_280;

/// Lifetime applied to an escrow entry on every TTL touch (30 days).
pub const BUMP_AMOUNT: u32 = 30 * DAY_IN_LEDGERS;

/// An entry is bumped only when it is within this window of expiring.
pub const BUMP_THRESHOLD: u32 = BUMP_AMOUNT - DAY_IN_LEDGERS;

/// Lifecycle state of an escrow.
#[derive(Clone, Copy, Debug, PartialEq, Eq, Structural)]
pub enum EscrowStatus {
    /// Created but not funded.
    Pending,
    /// Tokens held by the contract.
    Funded,
    /// Released to the seller.
    Completed,
    /// Refunded to the buyer.
    Refunded,
    /// A party raised a dispute; frozen until the arbiter resolves.
    Disputed,
    /// Cancelled before funding.
    Cancelled,
}

/// A single three-party escrow record.
#[derive(Clone, Copy, Debug, PartialEq, Eq, Structural)]
pub struct EscrowData {
    /// Stable id, never reused.
    pub escrow_id: u64,
    /// Party funding the escrow and the default refund recipient.
    pub buyer: Address,
    /// Party paid on release.
    pub seller: Address,
    /// Neutral party deciding disputes.
    pub arbiter: Address,
    /// SEP-41 token contract custodied by this escrow.
    pub token: Address,
    /// Amount of `token` held in custody.
    pub amount: i128,
    /// Seconds after `created_at` at which the buyer may self-refund.
    pub timeout: u64,
    /// Current lifecycle state.
    pub status: EscrowStatus,
    /// Unix timestamp of creation.
    pub created_at: u64,
}

/// An operation on an existing escrow, as its entrypoint names it.
#[derive(Clone, Copy, Debug, PartialEq, Eq, Structural)]
pub enum EscrowOp {
    Deposit,
    Release,
    Refund,
    /// A dispute raised by the given claimant.
    Dispute(Address),
    /// The arbiter's decision: `true` pays the seller, `false` the buyer.
    Resolve(bool),
    Cancel,
}

/// The time from which the buyer may reclaim a funded escrow.
pub open spec fn deadline(e: EscrowData) -> int {
    e.created_at + e.timeout
}

/// Checks an operation makes on the record before any token moves, and the
/// error each failed check answers with.
pub open spec fn precheck(e: EscrowData, op: EscrowOp) -> Result<(), ForgeError> {
    match op {
        EscrowOp::Deposit | EscrowOp::Cancel => if e.status == EscrowStatus::Pending {
            Ok(())
        } else {
            Err(ForgeError::InvalidInput)
        },
        EscrowOp::Release => if e.status == EscrowStatus::Funded {
            Ok(())
        } else {
            Err(ForgeError::InvalidInput)
        },
        EscrowOp::Refund => if e.status != EscrowStatus::Funded {
            Err(ForgeError::InvalidInput)
        } else if deadline(e) > u64::MAX {
            Err(ForgeError::ArithmeticOverflow)
        } else {
            Ok(())
        },
        EscrowOp::Dispute(claimant) => if e.status != EscrowStatus::Funded {
            Err(ForgeError::InvalidInput)
        } else if claimant != e.buyer && claimant != e.seller {
            Err(ForgeError::InvalidInput)
        } else {
            Ok(())
        },
        EscrowOp::Resolve(_) => if e.status == EscrowStatus::Disputed {
            Ok(())
        } else {
            Err(ForgeError::InvalidInput)
        },
    }
}

/// The address whose authorization the operation demands at ledger time
/// `now`, if it gets that far. Deposit and release demand it before looking
/// at the status; the others only once their checks passed.
pub open spec fn signer(e: EscrowData, op: EscrowOp, now: u64) -> Option<Address> {
    match op {
        EscrowOp::Deposit => Some(e.buyer),
        EscrowOp::Release => Some(e.seller),
        _ => if precheck(e, op) is Err {
            None
        } else {
            match op {
                EscrowOp::Refund => if now >= deadline(e) {
                    Some(e.buyer)
                } else {
                    Some(e.seller)
                },
                EscrowOp::Dispute(claimant) => Some(claimant),
                EscrowOp::Resolve(_) => Some(e.arbiter),
                _ => Some(e.buyer),
            }
        },
    }
}

/// The token transfer the operation makes once its checks passed: the
/// deposit pulls the amount into `contract`, every payout sends it out.
pub open spec fn payout(e: EscrowData, op: EscrowOp, contract: Address) -> Option<Transfer> {
    match op {
        EscrowOp::Deposit => Some(
            Transfer { token: e.token, from: e.buyer, to: contract, amount: e.amount },
        ),
        EscrowOp::Release => Some(
            Transfer { token: e.token, from: contract, to: e.seller, amount: e.amount },
        ),
        EscrowOp::Refund => Some(
            Transfer { token: e.token, from: contract, to: e.buyer, amount: e.amount },
        ),
        EscrowOp::Resolve(in_favor_of_seller) => Some(
            Transfer {
                token: e.token,
                from: contract,
                to: if in_favor_of_seller {
                    e.seller
                } else {
                    e.buyer
                },
                amount: e.amount,
            },
        ),
        _ => None,
    }
}

/// The status an operation that succeeds leaves behind.
pub open spec fn settled_status(op: EscrowOp) -> EscrowStatus {
    match op {
        EscrowOp::Deposit => EscrowStatus::Funded,
        EscrowOp::Release => EscrowStatus::Completed,
        EscrowOp::Refund => EscrowStatus::Refunded,
        EscrowOp::Dispute(_) => EscrowStatus::Disputed,
        EscrowOp::Resolve(in_favor_of_seller) => if in_favor_of_seller {
            EscrowStatus::Completed
        } else {
            EscrowStatus::Refunded
        },
        EscrowOp::Cancel => EscrowStatus::Cancelled,
    }
}

/// The record an operation leaves behind, or the error it answers with, when
/// the token contract honours transfers exactly when `token_accepts`.
pub open spec fn outcome(e: EscrowData, op: EscrowOp, token_accepts: bool) -> Result<EscrowData, ForgeError> {
    match precheck(e, op) {
        Err(err) => Err(err),
        Ok(_) => if payout(e, op, e.buyer) is Some && !token_accepts {
            Err(ForgeError::TokenTransferFailed)
        } else {
            Ok(EscrowData { status: settled_status(op), ..e })
        },
    }
}

/// The event a successful operation publishes for the updated record `e`.
pub open spec fn event_of(op: EscrowOp, e: EscrowData) -> EscrowEvent {
    match op {
        EscrowOp::Deposit => EscrowEvent::Deposited(Deposited { escrow_id: e.escrow_id, data: e }),
        EscrowOp::Release => EscrowEvent::Released(Released { escrow_id: e.escrow_id, data: e }),
        EscrowOp::Refund => EscrowEvent::Refunded(Refunded { escrow_id: e.escrow_id, data: e }),
        EscrowOp::Dispute(_) => EscrowEvent::Disputed(Disputed { escrow_id: e.escrow_id, data: e }),
        EscrowOp::Resolve(in_favor_of_seller) => EscrowEvent::Resolved(
            Resolved { escrow_id: e.escrow_id, data: e, in_favor_of_seller },
        ),
        EscrowOp::Cancel => EscrowEvent::Cancelled(Cancelled { escrow_id: e.escrow_id, data: e }),
    }
}

/// The record a creation call opens as the escrow after the `count`-th, at
/// ledger time `now`, or the error it answers with.
pub open spec fn opening(
    now: u64,
    count: u64,
    buyer: Address,
    seller: Address,
    arbiter: Address,
    token: Address,
    amount: i128,
    timeout: u64,
) -> Result<EscrowData, ForgeError> {
    if amount <= 0 || timeout == 0 {
        Err(ForgeError::InvalidInput)
    } else if count == u64::MAX {
        Err(ForgeError::ArithmeticOverflow)
    } else {
        Ok(
            EscrowData {
                escrow_id: (count + 1) as u64,
                buyer,
                seller,
                arbiter,
                token,
                amount,
                timeout,
                status: EscrowStatus::Pending,
                created_at: now,
            },
        )
    }
}

/// The authorizations a creation call demands: the buyer's, once the
/// arguments passed validation.
pub open spec fn opening_signers(buyer: Address, amount: i128, timeout: u64) -> Seq<Address> {
    if amount <= 0 || timeout == 0 {
        Seq::empty()
    } else {
        seq![buyer]
    }
}

/// A call that ran `op` on the record `e`, from invocation `inv0` to `inv1`,
/// answered `r`: the `outcome` record or error, after demanding `signer`'s
/// authorization and making the `payout` transfer exactly when it succeeded.
pub open spec fn settles(
    e: EscrowData,
    op: EscrowOp,
    inv0: Invocation,
    inv1: Invocation,
    r: Result<EscrowData, ForgeError>,
) -> bool {
    &&& r == outcome(e, op, inv0.token_accepts)
    &&& inv1.records(
        inv0,
        seq_of(signer(e, op, inv0.now)),
        if r is Ok {
            seq_of(payout(e, op, inv0.contract))
        } else {
            Seq::empty()
        },
    )
}

impl EscrowData {
    /// Open a new `Pending` escrow as the one after the `count`-th: validate
    /// the terms, demand the buyer's authorization, take the next id.
    pub fn open(
        inv: &mut Invocation,
        count: u64,
        buyer: Address,
        seller: Address,
        arbiter: Address,
        token: Address,
        amount: i128,
        timeout: u64,
    ) -> (r: Result<EscrowData, ForgeError>)
        ensures
            r == opening(old(inv).now, count, buyer, seller, arbiter, token, amount, timeout),
            final(inv).records(*old(inv), opening_signers(buyer, amount, timeout), Seq::empty()),
    {
        if amount <= 0 {
            return Err(ForgeError::InvalidInput);
        }
        if timeout == 0 {
            return Err(ForgeError::InvalidInput);
        }
        // Buyer-only authorization: the seller loses nothing by being
        // recorded without consenting; their protections are the refund and
        // dispute paths once funded.
        inv.require_auth(buyer);

        let id = next_id(count)?;
        Ok(
            EscrowData {
                escrow_id: id,
                buyer,
                seller,
                arbiter,
                token,
                amount,
                timeout,
                status: EscrowStatus::Pending,
                created_at: inv.now,
            },
        )
    }

    /// Fund the escrow: the buyer authorizes, the escrow must be `Pending`,
    /// and the amount is pulled into the contract before the record changes.
    pub fn deposit(&self, inv: &mut Invocation) -> (r: Result<EscrowData, ForgeError>)
        ensures
            settles(*self, EscrowOp::Deposit, *old(inv), *final(inv), r),
    {
        inv.require_auth(self.buyer);
        if self.status != EscrowStatus::Pending {
            return Err(ForgeError::InvalidInput);
        }
        // Pull the tokens before any state changes: a failed pull leaves
        // the record as it was.
        transfer_to_contract(inv, &self.token, &self.buyer, self.amount)?;
        let mut funded = *self;
        funded.status = EscrowStatus::Funded;
        Ok(funded)
    }

    /// Release to the seller: the seller authorizes (confirming delivery),
    /// the escrow must be `Funded`.
    pub fn release(&self, inv: &mut Invocation) -> (r: Result<EscrowData, ForgeError>)
        ensures
            settles(*self, EscrowOp::Release, *old(inv), *final(inv), r),
    {
        inv.require_auth(self.seller);
        if self.status != EscrowStatus::Funded {
            return Err(ForgeError::InvalidInput);
        }
        transfer_from_contract(inv, &self.token, &self.seller, self.amount)?;
        let mut completed = *self;
        completed.status = EscrowStatus::Completed;
        Ok(completed)
    }

    /// Refund the buyer of a `Funded` escrow: the seller authorizes before
    /// the deadline, the buyer from the deadline on.
    pub fn refund(&self, inv: &mut Invocation) -> (r: Result<EscrowData, ForgeError>)
        ensures
            settles(*self, EscrowOp::Refund, *old(inv), *final(inv), r),
    {
        if self.status != EscrowStatus::Funded {
            return Err(ForgeError::InvalidInput);
        }
        let deadline = match self.created_at.checked_add(self.timeout) {
            Some(d) => d,
            None => return Err(ForgeError::ArithmeticOverflow),
        };
        if inv.now >= deadline {
            inv.require_auth(self.buyer);
        } else {
            inv.require_auth(self.seller);
        }
        transfer_from_contract(inv, &self.token, &self.buyer, self.amount)?;
        let mut refunded_escrow = *self;
        refunded_escrow.status = EscrowStatus::Refunded;
        Ok(refunded_escrow)
    }

    /// Freeze a `Funded` escrow on a claim by `claimant`, who must be the
    /// buyer or the seller and authorizes the call.
    pub fn dispute(&self, inv: &mut Invocation, claimant: Address) -> (r: Result<EscrowData, ForgeError>)
        ensures
            settles(*self, EscrowOp::Dispute(claimant), *old(inv), *final(inv), r),
    {
        if self.status != EscrowStatus::Funded {
            return Err(ForgeError::InvalidInput);
        }
        // The claim must come from a party to the escrow; the check runs
        // before the claimant's authorization is demanded.
        if claimant != self.buyer && claimant != self.seller {
            return Err(ForgeError::InvalidInput);
        }
        inv.require_auth(claimant);
        let mut disputed_escrow = *self;
        disputed_escrow.status = EscrowStatus::Disputed;
        Ok(disputed_escrow)
    }

    /// Settle a `Disputed` escrow on the arbiter's authorization: the whole
    /// amount to the seller (`true`) or back to the buyer (`false`).
    pub fn resolve(&self, inv: &mut Invocation, in_favor_of_seller: bool) -> (r: Result<EscrowData, ForgeError>)
        ensures
            settles(*self, EscrowOp::Resolve(in_favor_of_seller), *old(inv), *final(inv), r),
    {
        if self.status != EscrowStatus::Disputed {
            return Err(ForgeError::InvalidInput);
        }
        // Arbiter authorization comes before any transfer.
        inv.require_auth(self.arbiter);
        let mut settled = *self;
        if in_favor_of_seller {
            transfer_from_contract(inv, &self.token, &self.seller, self.amount)?;
            settled.status = EscrowStatus::Completed;
        } else {
            transfer_from_contract(inv, &self.token, &self.buyer, self.amount)?;
            settled.status = EscrowStatus::Refunded;
        }
        Ok(settled)
    }

    /// Cancel a `Pending` escrow on the buyer's authorization; nothing has
    /// moved, so nothing is transferred.
    pub fn cancel(&self, inv: &mut Invocation) -> (r: Result<EscrowData, ForgeError>)
        ensures
            settles(*self, EscrowOp::Cancel, *old(inv), *final(inv), r),
    {
        if self.status != EscrowStatus::Pending {
            return Err(ForgeError::InvalidInput);
        }
        inv.require_auth(self.buyer);
        let mut cancelled_escrow = *self;
        cancelled_escrow.status = EscrowStatus::Cancelled;
        Ok(cancelled_escrow)
    }
}

/// The escrow contract's storage: the records, whose ids run from 1 upward
/// in creation order, and the events the contract has published.
#[derive(Clone, Debug)]
pub struct Escrow {
    records: Vec<EscrowData>,
    events: Vec<EscrowEvent>,
}

impl Escrow {
    /// Escrow records in creation order; the record with id `i` is at `i - 1`.
    pub closed spec fn records(self) -> Seq<EscrowData> {
        self.records@
    }

    /// Events published so far, oldest first.
    pub closed spec fn event_log(self) -> Seq<EscrowEvent> {
        self.events@
    }

    /// The id counter: how many escrows have been created.
    pub open spec fn count(self) -> nat {
        self.records().len()
    }

    /// The record stored under `id`, if any.
    pub open spec fn record(self, id: u64) -> Option<EscrowData> {
        if 1 <= id <= self.count() {
            Some(self.records()[id - 1])
        } else {
            None
        }
    }

    /// Every record sits under its own id and the counter fits in a `u64`.
    pub open spec fn wf(self) -> bool {
        &&& self.count() <= u64::MAX
        &&& forall|i: int| 0 <= i < self.count() ==> #[trigger] self.records()[i].escrow_id == i + 1
    }

    /// `post` and `pre` hold the same records and events.
    pub open spec fn unchanged(pre: Escrow, post: Escrow) -> bool {
        &&& post.records() == pre.records()
        &&& post.event_log() == pre.event_log()
    }

    /// The call ran `op` on escrow `id`: starting from storage `pre` and
    /// invocation `inv0`, it left `post`, `inv1` and answered `r`.
    ///
    /// A missing id answers `NotFound` and touches nothing. Otherwise the call
    /// demands `signer`'s authorization, makes the `payout` transfer exactly
    /// when it succeeds, and either stores the `outcome` record and publishes
    /// its event, or answers the `outcome` error with storage untouched.
    pub open spec fn ran(
        pre: Escrow,
        post: Escrow,
        inv0: Invocation,
        inv1: Invocation,
        id: u64,
        op: EscrowOp,
        r: Result<(), ForgeError>,
    ) -> bool {
        match pre.record(id) {
            None => {
                &&& r == Err::<(), ForgeError>(ForgeError::NotFound)
                &&& Escrow::unchanged(pre, post)
                &&& inv1.records(inv0, Seq::empty(), Seq::empty())
            },
            Some(e) => match outcome(e, op, inv0.token_accepts) {
                Ok(e2) => {
                    &&& r is Ok
                    &&& post.records() == pre.records().update(id - 1, e2)
                    &&& post.event_log() == pre.event_log().push(event_of(op, e2))
                    &&& inv1.records(
                        inv0,
                        seq_of(signer(e, op, inv0.now)),
                        seq_of(payout(e, op, inv0.contract)),
                    )
                },
                Err(err) => {
                    &&& r == Err::<(), ForgeError>(err)
                    &&& Escrow::unchanged(pre, post)
                    &&& inv1.records(inv0, seq_of(signer(e, op, inv0.now)), Seq::empty())
                },
            },
        }
    }

    /// A contract with no escrows yet.
    pub fn new() -> (s: Escrow)
        ensures
            s.wf(),
            s.records() == Seq::<EscrowData>::empty(),
            s.event_log() == Seq::<EscrowEvent>::empty(),
    {
        Escrow { records: Vec::new(), events: Vec::new() }
    }

    /// Events published so far, oldest first.
    pub fn events(&self) -> (log: &Vec<EscrowEvent>)
        ensures
            log@ == self.event_log(),
    {
        &self.events
    }

    /// Create a new escrow and return its stable id.
    ///
    /// Requires `amount > 0` and `timeout > 0`. Only the buyer authorizes
    /// creation; the seller takes no risk until funding.
    pub fn create_escrow(
        &mut self,
        inv: &mut Invocation,
        buyer: Address,
        seller: Address,
        arbiter: Address,
        token: Address,
        amount: i128,
        timeout: u64,
    ) -> (r: Result<u64, ForgeError>)
        requires
            old(self).wf(),
        ensures
            final(self).wf(),
            match opening(old(inv).now, old(self).count() as u64, buyer, seller, arbiter, token, amount, timeout) {
                Ok(e) => {
                    &&& r == Ok::<u64, ForgeError>(e.escrow_id)
                    &&& final(self).records() == old(self).records().push(e)
                    &&& final(self).event_log() == old(self).event_log().push(
                        EscrowEvent::EscrowCreated(EscrowCreated { escrow_id: e.escrow_id, data: e }),
                    )
                },
                Err(err) => {
                    &&& r == Err::<u64, ForgeError>(err)
                    &&& Escrow::unchanged(*old(self), *final(self))
                },
            },
            final(inv).records(*old(inv), opening_signers(buyer, amount, timeout), Seq::empty()),
    {
        let escrow = EscrowData::open(inv, self.records.len() as u64, buyer, seller, arbiter, token, amount, timeout)?;
        self.records.push(escrow);
        escrow_created(&mut self.events, &escrow);
        Ok(escrow.escrow_id)
    }

    /// Fund the escrow, pulling `amount` of the escrow's token from the buyer
    /// into this contract. Requires the buyer; only valid while `Pending`.
    pub fn deposit(&mut self, inv: &mut Invocation, escrow_id: u64) -> (r: Result<(), ForgeError>)
        requires
            old(self).wf(),
        ensures
            final(self).wf(),
            Escrow::ran(*old(self), *final(self), *old(inv), *final(inv), escrow_id, EscrowOp::Deposit, r),
    {
        let escrow = self.load_escrow(escrow_id)?;
        let funded = escrow.deposit(inv)?;
        self.store(escrow_id, funded);
        deposited(&mut self.events, &funded);
        Ok(())
    }

    /// Release the funds to the seller. Requires the seller; only valid while
    /// `Funded`.
    pub fn release(&mut self, inv: &mut Invocation, escrow_id: u64) -> (r: Result<(), ForgeError>)
        requires
            old(self).wf(),
        ensures
            final(self).wf(),
            Escrow::ran(*old(self), *final(self), *old(inv), *final(inv), escrow_id, EscrowOp::Release, r),
    {
        let escrow = self.load_escrow(escrow_id)?;
        let completed = escrow.release(inv)?;
        self.store(escrow_id, completed);
        released(&mut self.events, &completed);
        Ok(())
    }

    /// Refund the buyer. Before the deadline the seller authorizes; from the
    /// deadline on the buyer may reclaim. Only valid while `Funded`.
    pub fn refund(&mut self, inv: &mut Invocation, escrow_id: u64) -> (r: Result<(), ForgeError>)
        requires
            old(self).wf(),
        ensures
            final(self).wf(),
            Escrow::ran(*old(self), *final(self), *old(inv), *final(inv), escrow_id, EscrowOp::Refund, r),
    {
        let escrow = self.load_escrow(escrow_id)?;
        let refunded_escrow = escrow.refund(inv)?;
        self.store(escrow_id, refunded_escrow);
        refunded(&mut self.events, &refunded_escrow);
        Ok(())
    }

    /// Raise a dispute. `claimant` must be the buyer or the seller and must
    /// authorize the call; only valid while `Funded`.
    pub fn dispute(&mut self, inv: &mut Invocation, escrow_id: u64, claimant: Address) -> (r: Result<(), ForgeError>)
        requires
            old(self).wf(),
        ensures
            final(self).wf(),
            Escrow::ran(
                *old(self),
                *final(self),
                *old(inv),
                *final(inv),
                escrow_id,
                EscrowOp::Dispute(claimant),
                r,
            ),
    {
        let escrow = self.load_escrow(escrow_id)?;
        let disputed_escrow = escrow.dispute(inv, claimant)?;
        self.store(escrow_id, disputed_escrow);
        disputed(&mut self.events, &disputed_escrow);
        Ok(())
    }

    /// Resolve a dispute. Requires the arbiter; only valid while `Disputed`.
    /// Pays the full amount to the seller (`true`) or back to the buyer
    /// (`false`). The decision is final.
    pub fn resolve(&mut self, inv: &mut Invocation, escrow_id: u64, in_favor_of_seller: bool) -> (r: Result<(), ForgeError>)
        requires
            old(self).wf(),
        ensures
            final(self).wf(),
            Escrow::ran(
                *old(self),
                *final(self),
                *old(inv),
                *final(inv),
                escrow_id,
                EscrowOp::Resolve(in_favor_of_seller),
                r,
            ),
    {
        let escrow = self.load_escrow(escrow_id)?;
        let settled = escrow.resolve(inv, in_favor_of_seller)?;
        self.store(escrow_id, settled);
        resolved(&mut self.events, &settled, in_favor_of_seller);
        Ok(())
    }

    /// Cancel a `Pending` escrow before it is funded. Requires the buyer.
    pub fn cancel(&mut self, inv: &mut Invocation, escrow_id: u64) -> (r: Result<(), ForgeError>)
        requires
            old(self).wf(),
        ensures
            final(self).wf(),
            Escrow::ran(*old(self), *final(self), *old(inv), *final(inv), escrow_id, EscrowOp::Cancel, r),
    {
        let escrow = self.load_escrow(escrow_id)?;
        let cancelled_escrow = escrow.cancel(inv)?;
        self.store(escrow_id, cancelled_escrow);
        cancelled(&mut self.events, &cancelled_escrow);
        Ok(())
    }

    /// Read the current lifecycle status.
    pub fn get_status(&self, escrow_id: u64) -> (r: Result<EscrowStatus, ForgeError>)
        requires
            self.wf(),
        ensures
            r == (match self.record(escrow_id) {
                Some(e) => Ok::<EscrowStatus, ForgeError>(e.status),
                None => Err(ForgeError::NotFound),
            }),
    {
        Ok(self.load_escrow(escrow_id)?.status)
    }

    /// Read the full escrow record.
    pub fn get_escrow(&self, escrow_id: u64) -> (r: Result<EscrowData, ForgeError>)
        requires
            self.wf(),
        ensures
            r == (match self.record(escrow_id) {
                Some(e) => Ok::<EscrowData, ForgeError>(e),
                None => Err(ForgeError::NotFound),
            }),
    {
        self.load_escrow(escrow_id)
    }

    /// Permissionless TTL keeper: checks that the escrow exists, so that a
    /// keeper can tell "extended" from "no such escrow"; the host then bumps
    /// the entry's TTL to `BUMP_AMOUNT` when it is within `BUMP_THRESHOLD` of
    /// expiring. Changes nothing else.
    pub fn touch_ttl(&self, escrow_id: u64) -> (r: Result<(), ForgeError>)
        requires
            self.wf(),
        ensures
            r is Ok <==> self.record(escrow_id) is Some,
            r is Err ==> r == Err::<(), ForgeError>(ForgeError::NotFound),
    {
        self.load_escrow(escrow_id)?;
        Ok(())
    }

    /// Load an escrow record by id.
    fn load_escrow(&self, escrow_id: u64) -> (r: Result<EscrowData, ForgeError>)
        requires
            self.wf(),
        ensures
            r == (match self.record(escrow_id) {
                Some(e) => Ok::<EscrowData, ForgeError>(e),
                None => Err(ForgeError::NotFound),
            }),
    {
        if escrow_id == 0 || escrow_id > self.records.len() as u64 {
            return Err(ForgeError::NotFound);
        }
        Ok(self.records[(escrow_id - 1) as usize])
    }

    /// Overwrite the record stored under `escrow_id` with `e`.
    fn store(&mut self, escrow_id: u64, e: EscrowData)
        requires
            old(self).wf(),
            old(self).record(escrow_id) is Some,
            e.escrow_id == escrow_id,
        ensures
            final(self).wf(),
            final(self).records() == old(self).records().update(escrow_id - 1, e),
            final(self).event_log() == old(self).event_log(),
    {
        self.records.set((escrow_id - 1) as usize, e);
    }
}

/// Move `amount` of `token` from `from` into this contract.
fn transfer_to_contract(inv: &mut Invocation, token: &Address, from: &Address, amount: i128) -> (r: Result<(), ForgeError>)
    ensures
        old(inv).token_accepts ==> r is Ok && final(inv).records(
            *old(inv),
            Seq::empty(),
            seq![Transfer { token: *token, from: *from, to: old(inv).contract, amount }],
        ),
        !old(inv).token_accepts ==> r == Err::<(), ForgeError>(ForgeError::TokenTransferFailed)
            && final(inv).records(*old(inv), Seq::empty(), Seq::empty()),
{
    let contract = inv.contract;
    inv.transfer(*token, *from, contract, amount)
}

/// Move `amount` of `token` from this contract to `to`.
fn transfer_from_contract(inv: &mut Invocation, token: &Address, to: &Address, amount: i128) -> (r: Result<(), ForgeError>)
    ensures
        old(inv).token_accepts ==> r is Ok && final(inv).records(
            *old(inv),
            Seq::empty(),
            seq![Transfer { token: *token, from: old(inv).contract, to: *to, amount }],
        ),
        !old(inv).token_accepts ==> r == Err::<(), ForgeError>(ForgeError::TokenTransferFailed)
            && final(inv).records(*old(inv), Seq::empty(), Seq::empty()),
{
    let contract = inv.contract;
    inv.transfer(*token, contract, *to, amount)
}

} // verus!
