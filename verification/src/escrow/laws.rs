//! Laws of the escrow contract: what every operation keeps, over the decision
//! table (`precheck`, `signer`, `payout`, `outcome`) that the entrypoints'
//! contracts are stated in.

use vstd::prelude::*;

use crate::errors::ForgeError;
use crate::escrow::{
    deadline, opening, outcome, payout, precheck, signer, EscrowData, EscrowOp, EscrowStatus,
};
use crate::ledger::{seq_of, Address, Transfer};

verus! {

/// The escrow has reached an end state: paid out, refunded or cancelled.
pub open spec fn is_terminal(s: EscrowStatus) -> bool {
    s == EscrowStatus::Completed || s == EscrowStatus::Refunded || s == EscrowStatus::Cancelled
}

/// The lifecycle diagram: the status changes a successful operation may make.
pub open spec fn allowed_transition(from: EscrowStatus, to: EscrowStatus) -> bool {
    ||| from == EscrowStatus::Pending && (to == EscrowStatus::Funded || to == EscrowStatus::Cancelled)
    ||| from == EscrowStatus::Funded && (to == EscrowStatus::Completed || to == EscrowStatus::Refunded
        || to == EscrowStatus::Disputed)
    ||| from == EscrowStatus::Disputed && (to == EscrowStatus::Completed || to == EscrowStatus::Refunded)
}

/// What the contract holds in custody for the escrow: the amount while the
/// escrow is funded or disputed, nothing otherwise.
pub open spec fn custody(e: EscrowData) -> int {
    if e.status == EscrowStatus::Funded || e.status == EscrowStatus::Disputed {
        e.amount as int
    } else {
        0
    }
}

/// What a transfer adds to `contract`'s balance.
pub open spec fn flow(t: Transfer, contract: Address) -> int {
    (if t.to == contract {
        t.amount as int
    } else {
        0
    }) - (if t.from == contract {
        t.amount as int
    } else {
        0
    })
}

/// What a sequence of transfers adds to `contract`'s balance.
pub open spec fn net_inflow(ts: Seq<Transfer>, contract: Address) -> int
    decreases ts.len(),
{
    if ts.len() == 0 {
        0
    } else {
        net_inflow(ts.drop_last(), contract) + flow(ts.last(), contract)
    }
}

/// One call on an escrow: the operation, the ledger time, and whether the
/// token contract honours transfers in that call.
pub type Call = (EscrowOp, u64, bool);

/// The record after running `calls` on `e` in order, with every transfer
/// those calls made; failed calls change nothing.
pub open spec fn run(e: EscrowData, calls: Seq<Call>, contract: Address) -> (EscrowData, Seq<Transfer>)
    decreases calls.len(),
{
    if calls.len() == 0 {
        (e, Seq::empty())
    } else {
        let (e1, ts) = run(e, calls.drop_last(), contract);
        let (op, _now, token_accepts) = calls.last();
        match outcome(e1, op, token_accepts) {
            Ok(e2) => (e2, ts + seq_of(payout(e1, op, contract))),
            Err(_) => (e1, ts),
        }
    }
}

/// Once an escrow is completed, refunded or cancelled, every operation on it
/// is refused with `InvalidInput`: it can never be funded or paid again.
pub proof fn law_terminal_escrows_are_final(e: EscrowData, op: EscrowOp, token_accepts: bool)
    requires
        is_terminal(e.status),
    ensures
        outcome(e, op, token_accepts) == Err::<EscrowData, ForgeError>(ForgeError::InvalidInput),
{
}

/// A successful operation changes only the status, and only along the
/// lifecycle diagram.
pub proof fn law_operations_follow_the_lifecycle(e: EscrowData, op: EscrowOp, token_accepts: bool)
    requires
        outcome(e, op, token_accepts) is Ok,
    ensures
        ({
            let e2 = outcome(e, op, token_accepts)->Ok_0;
            &&& allowed_transition(e.status, e2.status)
            &&& e2 == EscrowData { status: e2.status, ..e }
        }),
{
}

/// A rejected token transfer leaves the record as it was: the call answers
/// `TokenTransferFailed` instead of settling.
pub proof fn law_rejected_transfer_changes_nothing(e: EscrowData, op: EscrowOp)
    requires
        precheck(e, op) is Ok,
        payout(e, op, e.buyer) is Some,
    ensures
        outcome(e, op, false) == Err::<EscrowData, ForgeError>(ForgeError::TokenTransferFailed),
{
}

/// No operation succeeds without demanding a signature, and tokens leave
/// custody only towards the buyer or the seller, always the full amount.
/// The seller is paid only on the seller's or the arbiter's signature.
pub proof fn law_payouts_are_authorized(
    e: EscrowData,
    op: EscrowOp,
    now: u64,
    token_accepts: bool,
    contract: Address,
)
    requires
        outcome(e, op, token_accepts) is Ok,
    ensures
        signer(e, op, now) is Some,
        payout(e, op, contract) matches Some(t) ==> {
            &&& t.amount == e.amount
            &&& t.token == e.token
            &&& t.from == contract ==> (t.to == e.buyer || t.to == e.seller)
            &&& (t.from == contract && t.to == e.seller && t.to != e.buyer) ==> (signer(e, op, now)
                == Some(e.seller) || signer(e, op, now) == Some(e.arbiter))
        },
{
}

/// Each successful operation moves exactly the change in custody through the
/// contract's balance (for an escrow whose buyer and seller are not the
/// contract itself).
pub proof fn law_custody_follows_transfers(
    e: EscrowData,
    op: EscrowOp,
    token_accepts: bool,
    contract: Address,
)
    requires
        outcome(e, op, token_accepts) is Ok,
        e.buyer != contract,
        e.seller != contract,
    ensures
        custody(outcome(e, op, token_accepts)->Ok_0) == custody(e) + net_inflow(
            seq_of(payout(e, op, contract)),
            contract,
        ),
{
    let ts = seq_of(payout(e, op, contract));
    assert(net_inflow(Seq::<Transfer>::empty(), contract) == 0);
    if ts.len() == 1 {
        assert(ts.drop_last() =~= Seq::<Transfer>::empty());
        assert(net_inflow(ts, contract) == flow(ts[0], contract));
    }
}

/// The contract's balance changes by the sum of two sequences of transfers.
proof fn lemma_net_inflow_append(a: Seq<Transfer>, b: Seq<Transfer>, contract: Address)
    ensures
        net_inflow(a + b, contract) == net_inflow(a, contract) + net_inflow(b, contract),
    decreases b.len(),
{
    if b.len() == 0 {
        assert(a + b =~= a);
    } else {
        lemma_net_inflow_append(a, b.drop_last(), contract);
        assert((a + b).drop_last() =~= a + b.drop_last());
    }
}

/// Conservation over a whole lifecycle: for any sequence of calls on a fresh
/// escrow, what the contract still holds for it equals everything those calls
/// moved in minus everything they moved out. In particular, once the escrow
/// is completed, refunded or cancelled, every token that came in has left:
/// the contract keeps no dust and pays out no more than was deposited.
pub proof fn law_lifecycle_conservation(e: EscrowData, calls: Seq<Call>, contract: Address)
    requires
        e.status == EscrowStatus::Pending,
        e.buyer != contract,
        e.seller != contract,
    ensures
        custody(run(e, calls, contract).0) == net_inflow(run(e, calls, contract).1, contract),
        is_terminal(run(e, calls, contract).0.status) ==> net_inflow(run(e, calls, contract).1, contract) == 0,
        run(e, calls, contract).0 == (EscrowData { status: run(e, calls, contract).0.status, ..e }),
    decreases calls.len(),
{
    if calls.len() > 0 {
        law_lifecycle_conservation(e, calls.drop_last(), contract);
        let (e1, ts) = run(e, calls.drop_last(), contract);
        let (op, _now, token_accepts) = calls.last();
        if outcome(e1, op, token_accepts) is Ok {
            law_custody_follows_transfers(e1, op, token_accepts, contract);
            lemma_net_inflow_append(ts, seq_of(payout(e1, op, contract)), contract);
        }
    }
}


/// Every step of the lifecycle diagram is open from its state when the token
/// contract honours the transfer: a pending escrow can be funded or
/// cancelled; a funded one released, refunded (unless its deadline does not
/// fit a timestamp) or disputed by the buyer or the seller; a disputed one
/// resolved either way. Each step only moves the status, and an outsider's
/// dispute is refused.
pub proof fn law_each_lifecycle_step_is_open(e: EscrowData, claimant: Address, in_favor_of_seller: bool)
    ensures
        e.status == EscrowStatus::Pending ==> {
            &&& outcome(e, EscrowOp::Deposit, true) == Ok::<EscrowData, ForgeError>(
                EscrowData { status: EscrowStatus::Funded, ..e },
            )
            &&& outcome(e, EscrowOp::Cancel, true) == Ok::<EscrowData, ForgeError>(
                EscrowData { status: EscrowStatus::Cancelled, ..e },
            )
            &&& outcome(e, EscrowOp::Cancel, false) == outcome(e, EscrowOp::Cancel, true)
        },
        e.status == EscrowStatus::Funded ==> {
            &&& outcome(e, EscrowOp::Release, true) == Ok::<EscrowData, ForgeError>(
                EscrowData { status: EscrowStatus::Completed, ..e },
            )
            &&& deadline(e) <= u64::MAX ==> outcome(e, EscrowOp::Refund, true) == Ok::<
                EscrowData,
                ForgeError,
            >(EscrowData { status: EscrowStatus::Refunded, ..e })
            &&& (claimant == e.buyer || claimant == e.seller) ==> outcome(
                e,
                EscrowOp::Dispute(claimant),
                false,
            ) == Ok::<EscrowData, ForgeError>(EscrowData { status: EscrowStatus::Disputed, ..e })
            &&& (claimant != e.buyer && claimant != e.seller) ==> outcome(
                e,
                EscrowOp::Dispute(claimant),
                true,
            ) == Err::<EscrowData, ForgeError>(ForgeError::InvalidInput)
        },
        e.status == EscrowStatus::Disputed ==> outcome(e, EscrowOp::Resolve(in_favor_of_seller), true) == Ok::<
            EscrowData,
            ForgeError,
        >(
            EscrowData {
                status: if in_favor_of_seller {
                    EscrowStatus::Completed
                } else {
                    EscrowStatus::Refunded
                },
                ..e
            },
        ),
{
}

/// Who signs and who is paid: the buyer signs the deposit, which pulls the
/// amount into the contract; the seller signs the release, which pays the
/// seller; a refund pays the buyer and is signed by the seller before the
/// deadline and by the buyer from it on; a resolution is signed by the
/// arbiter and pays the party it favours; a dispute is signed by its
/// claimant and moves nothing.
pub proof fn law_signers_and_recipients(
    e: EscrowData,
    now: u64,
    contract: Address,
    claimant: Address,
    in_favor_of_seller: bool,
)
    ensures
        signer(e, EscrowOp::Deposit, now) == Some(e.buyer),
        payout(e, EscrowOp::Deposit, contract) == Some(
            Transfer { token: e.token, from: e.buyer, to: contract, amount: e.amount },
        ),
        signer(e, EscrowOp::Release, now) == Some(e.seller),
        payout(e, EscrowOp::Release, contract) == Some(
            Transfer { token: e.token, from: contract, to: e.seller, amount: e.amount },
        ),
        precheck(e, EscrowOp::Refund) is Ok ==> signer(e, EscrowOp::Refund, now) == Some(
            if now >= deadline(e) {
                e.buyer
            } else {
                e.seller
            },
        ),
        payout(e, EscrowOp::Refund, contract) == Some(
            Transfer { token: e.token, from: contract, to: e.buyer, amount: e.amount },
        ),
        precheck(e, EscrowOp::Resolve(in_favor_of_seller)) is Ok ==> signer(
            e,
            EscrowOp::Resolve(in_favor_of_seller),
            now,
        ) == Some(e.arbiter),
        payout(e, EscrowOp::Resolve(in_favor_of_seller), contract) == Some(
            Transfer {
                token: e.token,
                from: contract,
                to: if in_favor_of_seller {
                    e.seller
                } else {
                    e.buyer
                },
                amount: e.amount,
            },
        ),
        precheck(e, EscrowOp::Dispute(claimant)) is Ok ==> signer(e, EscrowOp::Dispute(claimant), now) == Some(
            claimant,
        ),
        payout(e, EscrowOp::Dispute(claimant), contract) is None,
        payout(e, EscrowOp::Cancel, contract) is None,
{
}

/// Creation accepts every positive amount and positive timeout while ids
/// remain: the new escrow takes the next id, is `Pending`, records the
/// creation time and carries the terms as given. Anything else is refused.
pub proof fn law_creation_accepts_positive_terms(
    now: u64,
    count: u64,
    buyer: Address,
    seller: Address,
    arbiter: Address,
    token: Address,
    amount: i128,
    timeout: u64,
)
    ensures
        opening(now, count, buyer, seller, arbiter, token, amount, timeout) is Ok <==> (amount > 0 && timeout > 0
            && count < u64::MAX),
        opening(now, count, buyer, seller, arbiter, token, amount, timeout) matches Ok(e) ==> {
            &&& e.escrow_id == count + 1
            &&& e.status == EscrowStatus::Pending
            &&& e.created_at == now
            &&& e.buyer == buyer && e.seller == seller && e.arbiter == arbiter
            &&& e.token == token && e.amount == amount && e.timeout == timeout
        },
{
}

} // verus!
