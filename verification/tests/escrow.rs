//! Escrow: lifecycle, authorization and custody scenarios, run against a
//! small in-test token ledger that honours a transfer only when the sender
//! holds the amount and, for a pull from a party, that party signed it.

use std::collections::HashMap;

use soroban_forge::errors::ForgeError;
use soroban_forge::escrow::events::EscrowEvent;
use soroban_forge::escrow::{Escrow, EscrowData, EscrowStatus};
use soroban_forge::ledger::{Address, Invocation, Transfer};

const START: u64 = 1_000_000;
const TIMEOUT: u64 = 1_000;
const AMOUNT: i128 = 1_000;

struct TestAccounts {
    user1: Address,
    user2: Address,
    user3: Address,
    arbiter: Address,
    validator: Address,
}

fn accounts() -> TestAccounts {
    TestAccounts {
        user1: Address::account(0, 1),
        user2: Address::account(0, 2),
        user3: Address::account(0, 3),
        arbiter: Address::account(0, 4),
        validator: Address::account(0, 5),
    }
}

/// A signature in the authorization envelope of one call.
#[derive(Clone, Copy)]
struct Sig {
    address: Address,
    /// Whether the signed invocation matches the call's function and arguments.
    covers_call: bool,
    /// The amount of a nested token pull the signature also authorizes.
    token_pull: Option<i128>,
}

fn sig(address: &Address) -> Sig {
    Sig { address: *address, covers_call: true, token_pull: None }
}

/// What a `try_` call on the contract client answers.
#[derive(Debug, PartialEq)]
enum Outcome<T> {
    Done(T),
    Refused(ForgeError),
    /// The host aborted the invocation on a missing authorization.
    Abort,
}

struct World {
    now: u64,
    contract: Address,
    token: Address,
    escrow: Escrow,
    balances: HashMap<Address, i128>,
    /// `None`: every authorization is mocked; `Some`: exactly these signatures.
    envelope: Option<Vec<Sig>>,
    /// Authorizations the last successful call demanded.
    last_auths: Vec<Address>,
}

impl World {
    fn new() -> World {
        let mut w = World {
            now: START,
            contract: Address::contract(7, 7),
            token: Address::contract(9, 9),
            escrow: Escrow::new(),
            balances: HashMap::new(),
            envelope: None,
            last_auths: Vec::new(),
        };
        // Buyer starts funded; everyone else starts at zero.
        w.mint(&accounts().user1, AMOUNT);
        w
    }

    fn mint(&mut self, to: &Address, amount: i128) {
        *self.balances.entry(*to).or_insert(0) += amount;
    }

    fn balance(&self, a: &Address) -> i128 {
        *self.balances.get(a).unwrap_or(&0)
    }

    fn token_honours(&self, t: &Transfer, sigs: &Option<Vec<Sig>>) -> bool {
        if self.balance(&t.from) < t.amount {
            return false;
        }
        if t.from == self.contract {
            // The executing contract's own authorization is implicit.
            return true;
        }
        match sigs {
            None => true,
            Some(s) => s.iter().any(|g| g.address == t.from && g.token_pull == Some(t.amount)),
        }
    }

    /// Run one invocation as the host does: a missing authorization aborts
    /// it, a rejected token transfer makes the contract answer its error, and
    /// any failure leaves storage and balances as they were.
    fn call<T>(&mut self, f: impl Fn(&mut Escrow, &mut Invocation) -> Result<T, ForgeError>) -> Outcome<T> {
        let mut trial = self.escrow.clone();
        let mut inv = Invocation::new(self.now, self.contract, true);
        let r = f(&mut trial, &mut inv);
        if let Some(sigs) = &self.envelope {
            let signed: Vec<Address> = sigs.iter().filter(|g| g.covers_call).map(|g| g.address).collect();
            if !inv.covered_by(&signed) {
                return Outcome::Abort;
            }
        }
        let envelope = self.envelope.clone();
        if !inv.transfers.iter().all(|t| self.token_honours(t, &envelope)) {
            let mut rejected = Invocation::new(self.now, self.contract, false);
            let mut state = self.escrow.clone();
            return match f(&mut state, &mut rejected) {
                Ok(v) => Outcome::Done(v),
                Err(e) => Outcome::Refused(e),
            };
        }
        match r {
            Ok(v) => {
                for t in inv.transfers.iter() {
                    *self.balances.entry(t.from).or_insert(0) -= t.amount;
                    *self.balances.entry(t.to).or_insert(0) += t.amount;
                }
                self.escrow = trial;
                self.last_auths = inv.auths;
                Outcome::Done(v)
            },
            Err(e) => Outcome::Refused(e),
        }
    }

    fn create(&mut self, buyer: &Address, seller: &Address, arbiter: &Address, timeout: u64) -> u64 {
        let token = self.token;
        let (b, s, a) = (*buyer, *seller, *arbiter);
        match self.call(|e, inv| e.create_escrow(inv, b, s, a, token, AMOUNT, timeout)) {
            Outcome::Done(id) => id,
            other => panic!("create failed: {:?}", other),
        }
    }

    fn deposit(&mut self, id: u64) -> Outcome<()> {
        self.call(|e, inv| e.deposit(inv, id))
    }

    fn release(&mut self, id: u64) -> Outcome<()> {
        self.call(|e, inv| e.release(inv, id))
    }

    fn refund(&mut self, id: u64) -> Outcome<()> {
        self.call(|e, inv| e.refund(inv, id))
    }

    fn dispute(&mut self, id: u64, claimant: &Address) -> Outcome<()> {
        let c = *claimant;
        self.call(|e, inv| e.dispute(inv, id, c))
    }

    fn resolve(&mut self, id: u64, in_favor_of_seller: bool) -> Outcome<()> {
        self.call(|e, inv| e.resolve(inv, id, in_favor_of_seller))
    }

    fn cancel(&mut self, id: u64) -> Outcome<()> {
        self.call(|e, inv| e.cancel(inv, id))
    }

    fn status(&self, id: u64) -> EscrowStatus {
        self.escrow.get_status(id).unwrap()
    }
}

// -----------------------------------------------------------------------
// Creation
// -----------------------------------------------------------------------

#[test]
fn create_escrow_records_parties_and_stays_pending() {
    let a = accounts();
    let mut w = World::new();
    let id = w.create(&a.user1, &a.user2, &a.arbiter, TIMEOUT);

    let record: EscrowData = w.escrow.get_escrow(id).unwrap();
    assert_eq!(record.escrow_id, id);
    assert_eq!(record.buyer, a.user1);
    assert_eq!(record.seller, a.user2);
    assert_eq!(record.arbiter, a.arbiter);
    assert_eq!(record.amount, AMOUNT);
    assert_eq!(record.timeout, TIMEOUT);
    assert_eq!(record.created_at, START);
    assert_eq!(w.status(id), EscrowStatus::Pending);
}

#[test]
fn escrow_ids_are_monotonic() {
    let a = accounts();
    let mut w = World::new();
    let first = w.create(&a.user1, &a.user2, &a.arbiter, TIMEOUT);
    let second = w.create(&a.user1, &a.user2, &a.arbiter, TIMEOUT);
    assert_eq!(first + 1, second);
}

#[test]
fn create_rejects_zero_amount() {
    let a = accounts();
    let mut w = World::new();
    let token = w.token;
    let err = w.call(|e, inv| e.create_escrow(inv, a.user1, a.user2, a.arbiter, token, 0, TIMEOUT));
    assert_eq!(err, Outcome::Refused(ForgeError::InvalidInput));
}

#[test]
fn create_rejects_zero_timeout() {
    let a = accounts();
    let mut w = World::new();
    let token = w.token;
    let err = w.call(|e, inv| e.create_escrow(inv, a.user1, a.user2, a.arbiter, token, AMOUNT, 0));
    assert_eq!(err, Outcome::Refused(ForgeError::InvalidInput));
}

// -----------------------------------------------------------------------
// Deposit
// -----------------------------------------------------------------------

#[test]
fn deposit_moves_tokens_into_the_contract() {
    let a = accounts();
    let mut w = World::new();
    let id = w.create(&a.user1, &a.user2, &a.arbiter, TIMEOUT);

    assert_eq!(w.deposit(id), Outcome::Done(()));

    assert_eq!(w.balance(&a.user1), 0);
    assert_eq!(w.balance(&w.contract), AMOUNT);
    assert_eq!(w.status(id), EscrowStatus::Funded);
}

#[test]
fn deposit_twice_is_rejected_and_moves_nothing_more() {
    let a = accounts();
    let mut w = World::new();
    let id = w.create(&a.user1, &a.user2, &a.arbiter, TIMEOUT);
    w.deposit(id);

    assert_eq!(w.deposit(id), Outcome::Refused(ForgeError::InvalidInput));
    assert_eq!(w.balance(&w.contract), AMOUNT);
}

#[test]
fn deposit_with_insufficient_balance_fails_cleanly() {
    // user3 holds no tokens; create an escrow they cannot fund.
    let a = accounts();
    let mut w = World::new();
    let id = w.create(&a.user3, &a.user2, &a.arbiter, TIMEOUT);

    assert_eq!(w.deposit(id), Outcome::Refused(ForgeError::TokenTransferFailed));
    assert_eq!(w.balance(&w.contract), 0);
    // State untouched: still Pending, retryable after topping up.
    assert_eq!(w.status(id), EscrowStatus::Pending);
}

// -----------------------------------------------------------------------
// Release / refund
// -----------------------------------------------------------------------

#[test]
fn release_pays_the_seller() {
    let a = accounts();
    let mut w = World::new();
    let id = w.create(&a.user1, &a.user2, &a.arbiter, TIMEOUT);
    w.deposit(id);

    assert_eq!(w.release(id), Outcome::Done(()));

    assert_eq!(w.balance(&a.user2), AMOUNT);
    assert_eq!(w.balance(&w.contract), 0);
    assert_eq!(w.status(id), EscrowStatus::Completed);
}

#[test]
fn release_requires_funded_state() {
    let a = accounts();
    let mut w = World::new();
    let id = w.create(&a.user1, &a.user2, &a.arbiter, TIMEOUT);

    assert_eq!(w.release(id), Outcome::Refused(ForgeError::InvalidInput));
    assert_eq!(w.balance(&w.contract), 0);
}

#[test]
fn release_cannot_run_twice() {
    let a = accounts();
    let mut w = World::new();
    let id = w.create(&a.user1, &a.user2, &a.arbiter, TIMEOUT);
    w.deposit(id);
    w.release(id);

    assert_eq!(w.release(id), Outcome::Refused(ForgeError::InvalidInput));
    assert_eq!(w.balance(&a.user2), AMOUNT);
}

#[test]
fn refund_by_seller_before_deadline() {
    let a = accounts();
    let mut w = World::new();
    let id = w.create(&a.user1, &a.user2, &a.arbiter, TIMEOUT);
    w.deposit(id);

    assert_eq!(w.refund(id), Outcome::Done(()));

    assert_eq!(w.balance(&a.user1), AMOUNT);
    assert_eq!(w.balance(&w.contract), 0);
    assert_eq!(w.status(id), EscrowStatus::Refunded);
    assert_eq!(w.last_auths, vec![a.user2]);
}

#[test]
fn refund_by_buyer_after_deadline() {
    let a = accounts();
    let mut w = World::new();
    let id = w.create(&a.user1, &a.user2, &a.arbiter, TIMEOUT);
    w.deposit(id);

    w.now = START + TIMEOUT + 1;
    assert_eq!(w.refund(id), Outcome::Done(()));

    assert_eq!(w.balance(&a.user1), AMOUNT);
    assert_eq!(w.status(id), EscrowStatus::Refunded);
    assert_eq!(w.last_auths, vec![a.user1]);
}

#[test]
fn refund_requires_funded_state() {
    let a = accounts();
    let mut w = World::new();
    let id = w.create(&a.user1, &a.user2, &a.arbiter, TIMEOUT);

    assert_eq!(w.refund(id), Outcome::Refused(ForgeError::InvalidInput));
}

// -----------------------------------------------------------------------
// Dispute flow
// -----------------------------------------------------------------------

#[test]
fn dispute_by_buyer_claimant() {
    let a = accounts();
    let mut w = World::new();
    let id = w.create(&a.user1, &a.user2, &a.arbiter, TIMEOUT);
    w.deposit(id);

    assert_eq!(w.dispute(id, &a.user1), Outcome::Done(()));

    assert_eq!(w.status(id), EscrowStatus::Disputed);
}

#[test]
fn dispute_by_seller_claimant() {
    let a = accounts();
    let mut w = World::new();
    let id = w.create(&a.user1, &a.user2, &a.arbiter, TIMEOUT);
    w.deposit(id);

    assert_eq!(w.dispute(id, &a.user2), Outcome::Done(()));

    assert_eq!(w.status(id), EscrowStatus::Disputed);
}

#[test]
fn dispute_by_outsider_is_rejected() {
    let a = accounts();
    let mut w = World::new();
    let id = w.create(&a.user1, &a.user2, &a.arbiter, TIMEOUT);
    w.deposit(id);

    assert_eq!(w.dispute(id, &a.user3), Outcome::Refused(ForgeError::InvalidInput));
    assert_eq!(w.status(id), EscrowStatus::Funded);
}

#[test]
fn dispute_requires_funded_state() {
    let a = accounts();
    let mut w = World::new();
    let id = w.create(&a.user1, &a.user2, &a.arbiter, TIMEOUT);

    assert_eq!(w.dispute(id, &a.user1), Outcome::Refused(ForgeError::InvalidInput));
}

#[test]
fn disputed_escrow_freezes_all_payouts() {
    let a = accounts();
    let mut w = World::new();
    let id = w.create(&a.user1, &a.user2, &a.arbiter, TIMEOUT);
    w.deposit(id);
    w.dispute(id, &a.user1);

    assert_eq!(w.release(id), Outcome::Refused(ForgeError::InvalidInput));
    assert_eq!(w.refund(id), Outcome::Refused(ForgeError::InvalidInput));
    assert_eq!(w.balance(&w.contract), AMOUNT);
    assert_eq!(w.status(id), EscrowStatus::Disputed);
}

#[test]
fn resolve_in_favor_of_seller_pays_out() {
    let a = accounts();
    let mut w = World::new();
    let id = w.create(&a.user1, &a.user2, &a.arbiter, TIMEOUT);
    w.deposit(id);
    w.dispute(id, &a.user2);

    assert_eq!(w.resolve(id, true), Outcome::Done(()));

    assert_eq!(w.balance(&a.user2), AMOUNT);
    assert_eq!(w.balance(&w.contract), 0);
    assert_eq!(w.status(id), EscrowStatus::Completed);
}

#[test]
fn resolve_in_favor_of_buyer_refunds() {
    let a = accounts();
    let mut w = World::new();
    let id = w.create(&a.user1, &a.user2, &a.arbiter, TIMEOUT);
    w.deposit(id);
    w.dispute(id, &a.user1);

    assert_eq!(w.resolve(id, false), Outcome::Done(()));

    assert_eq!(w.balance(&a.user1), AMOUNT);
    assert_eq!(w.balance(&w.contract), 0);
    assert_eq!(w.status(id), EscrowStatus::Refunded);
}

#[test]
fn resolve_requires_disputed_state() {
    let a = accounts();
    let mut w = World::new();
    let id = w.create(&a.user1, &a.user2, &a.arbiter, TIMEOUT);
    w.deposit(id);

    assert_eq!(w.resolve(id, true), Outcome::Refused(ForgeError::InvalidInput));
}

// -----------------------------------------------------------------------
// Cancel
// -----------------------------------------------------------------------

#[test]
fn cancel_pending_escrow() {
    let a = accounts();
    let mut w = World::new();
    let id = w.create(&a.user1, &a.user2, &a.arbiter, TIMEOUT);

    assert_eq!(w.cancel(id), Outcome::Done(()));

    assert_eq!(w.status(id), EscrowStatus::Cancelled);
}

#[test]
fn cancel_after_deposit_is_rejected() {
    let a = accounts();
    let mut w = World::new();
    let id = w.create(&a.user1, &a.user2, &a.arbiter, TIMEOUT);
    w.deposit(id);

    assert_eq!(w.cancel(id), Outcome::Refused(ForgeError::InvalidInput));
    assert_eq!(w.balance(&w.contract), AMOUNT);
}

// -----------------------------------------------------------------------
// Missing ids
// -----------------------------------------------------------------------

#[test]
fn missing_escrow_reads_are_not_found() {
    let w = World::new();
    assert_eq!(w.escrow.get_status(999), Err(ForgeError::NotFound));
    assert_eq!(w.escrow.get_escrow(999).unwrap_err(), ForgeError::NotFound);
}

#[test]
fn operations_on_missing_escrow_are_not_found() {
    let a = accounts();
    let mut w = World::new();
    let outsider = a.user3;
    assert_eq!(w.deposit(999), Outcome::Refused(ForgeError::NotFound));
    assert_eq!(w.release(999), Outcome::Refused(ForgeError::NotFound));
    assert_eq!(w.refund(999), Outcome::Refused(ForgeError::NotFound));
    assert_eq!(w.dispute(999, &outsider), Outcome::Refused(ForgeError::NotFound));
    assert_eq!(w.resolve(999, true), Outcome::Refused(ForgeError::NotFound));
    assert_eq!(w.cancel(999), Outcome::Refused(ForgeError::NotFound));
    assert_eq!(w.escrow.touch_ttl(999), Err(ForgeError::NotFound));
}

// -----------------------------------------------------------------------
// TTL keeper
// -----------------------------------------------------------------------

#[test]
fn touch_ttl_extends_and_keeps_state_intact() {
    let a = accounts();
    let mut w = World::new();
    let id = w.create(&a.user1, &a.user2, &a.arbiter, TIMEOUT);
    w.deposit(id);

    assert_eq!(w.escrow.touch_ttl(id), Ok(()));

    assert_eq!(w.status(id), EscrowStatus::Funded);
}

// -----------------------------------------------------------------------
// Conservation: every payout path returns exactly the deposit
// -----------------------------------------------------------------------

#[test]
fn conservation_holds_on_every_terminal_path() {
    let paths: &[&dyn Fn(&mut World, u64, &Address, &Address)] = &[
        // Release to the seller.
        &|w, id, _buyer, _seller| {
            w.release(id);
        },
        // Seller refund before the deadline.
        &|w, id, _buyer, _seller| {
            w.refund(id);
        },
        // Buyer reclaim after the deadline (the timeout varies per round).
        &|w, id, _buyer, _seller| {
            let timeout = w.escrow.get_escrow(id).unwrap().timeout;
            w.now = START + timeout + 1;
            w.refund(id);
        },
        // Dispute raised by the buyer; arbiter sides with the seller.
        &|w, id, buyer, _seller| {
            w.dispute(id, buyer);
            w.resolve(id, true);
        },
        // Dispute raised by the seller; arbiter sides with the buyer.
        &|w, id, _buyer, seller| {
            w.dispute(id, seller);
            w.resolve(id, false);
        },
    ];

    for timeout in [1u64, 10, TIMEOUT, 100_000] {
        for (i, path) in paths.iter().enumerate() {
            let a = accounts();
            let mut w = World::new();
            let id = w.create(&a.user1, &a.user2, &a.arbiter, timeout);
            w.deposit(id);

            path(&mut w, id, &a.user1, &a.user2);

            assert_eq!(
                w.balance(&w.contract),
                0,
                "path {i}: contract must not retain dust (timeout {timeout})"
            );
            assert_eq!(
                w.balance(&a.user1) + w.balance(&a.user2),
                AMOUNT,
                "path {i}: buyer+seller must sum to the deposit (timeout {timeout})"
            );
            assert_eq!(
                w.deposit(id),
                Outcome::Refused(ForgeError::InvalidInput),
                "path {i}: terminal escrow must not be refundable again"
            );
        }
    }
}

// -----------------------------------------------------------------------
// Authorization: who must sign, and what a missing signature does
// -----------------------------------------------------------------------

#[test]
fn create_accepts_buyer_signature_with_matching_args() {
    let a = accounts();
    let mut w = World::new();
    w.envelope = Some(vec![sig(&a.user1)]);
    let token = w.token;
    let id = match w.call(|e, inv| e.create_escrow(inv, a.user1, a.user2, a.arbiter, token, AMOUNT, TIMEOUT)) {
        Outcome::Done(id) => id,
        other => panic!("contract ok expected, got {:?}", other),
    };
    assert_eq!(w.status(id), EscrowStatus::Pending);
}

#[test]
fn create_rejects_signature_from_non_buyer() {
    let a = accounts();
    let mut w = World::new();
    w.envelope = Some(vec![sig(&a.user2)]);
    let token = w.token;
    let res = w.call(|e, inv| e.create_escrow(inv, a.user1, a.user2, a.arbiter, token, AMOUNT, TIMEOUT));
    assert_eq!(res, Outcome::Abort);
}

#[test]
fn create_rejects_signature_over_different_args() {
    let a = accounts();
    let mut w = World::new();
    // Correct signer, but the signature covers a different amount (AMOUNT + 500)
    // than the invocation performs.
    w.envelope = Some(vec![Sig { address: a.user1, covers_call: false, token_pull: None }]);
    let token = w.token;
    let res = w.call(|e, inv| e.create_escrow(inv, a.user1, a.user2, a.arbiter, token, AMOUNT, TIMEOUT));
    assert_eq!(res, Outcome::Abort);
}

#[test]
fn deposit_accepts_full_buyer_authorization_chain() {
    let a = accounts();
    let mut w = World::new();
    let id = w.create(&a.user1, &a.user2, &a.arbiter, TIMEOUT);

    // The entrypoint frame and the token pull into custody, both buyer-signed.
    w.envelope = Some(vec![Sig { address: a.user1, covers_call: true, token_pull: Some(AMOUNT) }]);
    assert_eq!(w.deposit(id), Outcome::Done(()));
    assert_eq!(w.balance(&a.user1), 0);
    assert_eq!(w.balance(&w.contract), AMOUNT);
    assert_eq!(w.status(id), EscrowStatus::Funded);
}

#[test]
fn deposit_rejects_entrypoint_signature_without_token_authorization() {
    let a = accounts();
    let mut w = World::new();
    let id = w.create(&a.user1, &a.user2, &a.arbiter, TIMEOUT);

    // Only the entrypoint frame is signed; the token rejects the pull and the
    // escrow buckets its error.
    w.envelope = Some(vec![sig(&a.user1)]);
    assert_eq!(w.deposit(id), Outcome::Refused(ForgeError::TokenTransferFailed));
    assert_eq!(w.balance(&a.user1), AMOUNT);
    assert_eq!(w.balance(&w.contract), 0);
    assert_eq!(w.status(id), EscrowStatus::Pending);
}

#[test]
fn deposit_rejects_token_authorization_over_a_different_amount() {
    let a = accounts();
    let mut w = World::new();
    let id = w.create(&a.user1, &a.user2, &a.arbiter, TIMEOUT);

    w.envelope = Some(vec![Sig { address: a.user1, covers_call: true, token_pull: Some(AMOUNT - 1) }]);
    assert_eq!(w.deposit(id), Outcome::Refused(ForgeError::TokenTransferFailed));
    assert_eq!(w.balance(&w.contract), 0);
    assert_eq!(w.status(id), EscrowStatus::Pending);
}

#[test]
fn release_rejects_buyer_signature() {
    let a = accounts();
    let mut w = World::new();
    let id = w.create(&a.user1, &a.user2, &a.arbiter, TIMEOUT);
    w.deposit(id);

    w.envelope = Some(vec![sig(&a.user1)]);
    assert_eq!(w.release(id), Outcome::Abort);
    assert_eq!(w.balance(&w.contract), AMOUNT);
    assert_eq!(w.balance(&a.user2), 0);
    assert_eq!(w.status(id), EscrowStatus::Funded);
}

#[test]
fn release_completes_on_seller_signature_alone() {
    let a = accounts();
    let mut w = World::new();
    let id = w.create(&a.user1, &a.user2, &a.arbiter, TIMEOUT);
    w.deposit(id);

    w.envelope = Some(vec![sig(&a.user2)]);
    assert_eq!(w.release(id), Outcome::Done(()));
    assert_eq!(w.balance(&a.user2), AMOUNT);
    assert_eq!(w.balance(&a.user1), 0);
    assert_eq!(w.status(id), EscrowStatus::Completed);
}

#[test]
fn release_authorization_tree_is_seller_over_transfer() {
    let a = accounts();
    let mut w = World::new();
    let id = w.create(&a.user1, &a.user2, &a.arbiter, TIMEOUT);
    w.deposit(id);

    w.release(id);

    // Contract self-auth is implicit and not recorded: the seller alone.
    assert_eq!(w.last_auths, vec![a.user2]);
}

#[test]
fn refund_pre_deadline_rejects_buyer_signature() {
    let a = accounts();
    let mut w = World::new();
    let id = w.create(&a.user1, &a.user2, &a.arbiter, TIMEOUT);
    w.deposit(id);

    w.envelope = Some(vec![sig(&a.user1)]);
    assert_eq!(w.refund(id), Outcome::Abort);
    assert_eq!(w.balance(&w.contract), AMOUNT);
    assert_eq!(w.status(id), EscrowStatus::Funded);
}

#[test]
fn refund_authorization_tree_is_seller_pre_deadline() {
    let a = accounts();
    let mut w = World::new();
    let id = w.create(&a.user1, &a.user2, &a.arbiter, TIMEOUT);
    w.deposit(id);

    w.refund(id);

    assert_eq!(w.last_auths, vec![a.user2]);
}

#[test]
fn dispute_accepts_claimant_signature() {
    let a = accounts();
    let mut w = World::new();
    let id = w.create(&a.user1, &a.user2, &a.arbiter, TIMEOUT);
    w.deposit(id);

    w.envelope = Some(vec![sig(&a.user1)]);
    assert_eq!(w.dispute(id, &a.user1), Outcome::Done(()));
    assert_eq!(w.status(id), EscrowStatus::Disputed);
}

#[test]
fn dispute_rejects_signature_from_a_non_claimant() {
    let a = accounts();
    let mut w = World::new();
    let id = w.create(&a.user1, &a.user2, &a.arbiter, TIMEOUT);
    w.deposit(id);

    w.envelope = Some(vec![sig(&a.validator)]);
    assert_eq!(w.dispute(id, &a.user1), Outcome::Abort);
    assert_eq!(w.status(id), EscrowStatus::Funded);
}

#[test]
fn dispute_rejects_other_party_signing_as_claimant() {
    let a = accounts();
    let mut w = World::new();
    let id = w.create(&a.user1, &a.user2, &a.arbiter, TIMEOUT);
    w.deposit(id);

    w.envelope = Some(vec![sig(&a.user2)]);
    assert_eq!(w.dispute(id, &a.user1), Outcome::Abort);
    assert_eq!(w.status(id), EscrowStatus::Funded);
}

#[test]
fn resolve_rejects_non_arbiter_signature() {
    let a = accounts();
    let mut w = World::new();
    let id = w.create(&a.user1, &a.user2, &a.arbiter, TIMEOUT);
    w.deposit(id);
    w.dispute(id, &a.user1);

    w.envelope = Some(vec![sig(&a.user1)]);
    assert_eq!(w.resolve(id, true), Outcome::Abort);
    assert_eq!(w.status(id), EscrowStatus::Disputed);
    assert_eq!(w.balance(&w.contract), AMOUNT);
}

#[test]
fn resolve_authorization_tree_is_arbiter_over_transfer() {
    let a = accounts();
    let mut w = World::new();
    let id = w.create(&a.user1, &a.user2, &a.arbiter, TIMEOUT);
    w.deposit(id);
    w.dispute(id, &a.user1);

    w.resolve(id, true);

    assert_eq!(w.last_auths, vec![a.arbiter]);
}

#[test]
fn cancel_accepts_buyer_rejects_seller() {
    let a = accounts();
    let mut w = World::new();
    let id = w.create(&a.user1, &a.user2, &a.arbiter, TIMEOUT);

    // Seller cannot cancel a pending escrow.
    w.envelope = Some(vec![sig(&a.user2)]);
    assert_eq!(w.cancel(id), Outcome::Abort);
    assert_eq!(w.status(id), EscrowStatus::Pending);

    // The buyer's signature completes it.
    w.envelope = Some(vec![sig(&a.user1)]);
    assert_eq!(w.cancel(id), Outcome::Done(()));
    assert_eq!(w.status(id), EscrowStatus::Cancelled);
}

#[test]
fn blank_envelope_aborts_release_and_preserves_custody() {
    let a = accounts();
    let mut w = World::new();
    let id = w.create(&a.user1, &a.user2, &a.arbiter, TIMEOUT);
    w.deposit(id);

    w.envelope = Some(vec![]);
    assert_eq!(w.release(id), Outcome::Abort);
    assert_eq!(w.balance(&w.contract), AMOUNT);
    assert_eq!(w.status(id), EscrowStatus::Funded);
}

#[test]
fn blank_envelope_aborts_create_and_writes_nothing() {
    let a = accounts();
    let mut w = World::new();
    w.envelope = Some(vec![]);
    let token = w.token;
    let res = w.call(|e, inv| e.create_escrow(inv, a.user1, a.user2, a.arbiter, token, AMOUNT, TIMEOUT));
    assert_eq!(res, Outcome::Abort);
    // The id counter must not have advanced: the next escrow is id 1.
    w.envelope = None;
    let id = w.create(&a.user1, &a.user2, &a.arbiter, TIMEOUT);
    assert_eq!(id, 1);
}

// -----------------------------------------------------------------------
// Further scenarios of this library
// -----------------------------------------------------------------------

#[test]
fn successful_calls_publish_one_event_each() {
    let a = accounts();
    let mut w = World::new();
    let id = w.create(&a.user1, &a.user2, &a.arbiter, TIMEOUT);
    w.deposit(id);
    w.dispute(id, &a.user2);
    w.resolve(id, false);
    // A refused call publishes nothing.
    assert_eq!(w.release(id), Outcome::Refused(ForgeError::InvalidInput));

    let log = w.escrow.events();
    assert_eq!(log.len(), 4);
    match log[0] {
        EscrowEvent::EscrowCreated(e) => {
            assert_eq!(e.escrow_id, id);
            assert_eq!(e.data.status, EscrowStatus::Pending);
        },
        other => panic!("unexpected first event {:?}", other),
    }
    match log[1] {
        EscrowEvent::Deposited(e) => assert_eq!(e.data.status, EscrowStatus::Funded),
        other => panic!("unexpected second event {:?}", other),
    }
    match log[2] {
        EscrowEvent::Disputed(e) => assert_eq!(e.data.status, EscrowStatus::Disputed),
        other => panic!("unexpected third event {:?}", other),
    }
    match log[3] {
        EscrowEvent::Resolved(e) => {
            assert!(!e.in_favor_of_seller);
            assert_eq!(e.data.status, EscrowStatus::Refunded);
        },
        other => panic!("unexpected fourth event {:?}", other),
    }
}

#[test]
fn refund_at_exactly_the_deadline_is_the_buyers() {
    let a = accounts();
    let mut w = World::new();
    let id = w.create(&a.user1, &a.user2, &a.arbiter, TIMEOUT);
    w.deposit(id);

    w.now = START + TIMEOUT;
    assert_eq!(w.refund(id), Outcome::Done(()));
    assert_eq!(w.last_auths, vec![a.user1]);
}

#[test]
fn refund_with_overflowing_deadline_is_reported() {
    let a = accounts();
    let mut w = World::new();
    let id = w.create(&a.user1, &a.user2, &a.arbiter, u64::MAX);
    w.deposit(id);

    assert_eq!(w.refund(id), Outcome::Refused(ForgeError::ArithmeticOverflow));
    assert_eq!(w.status(id), EscrowStatus::Funded);
    assert_eq!(w.balance(&w.contract), AMOUNT);
}

#[test]
fn deposit_demands_the_buyer_even_when_refused() {
    let a = accounts();
    let mut w = World::new();
    let id = w.create(&a.user1, &a.user2, &a.arbiter, TIMEOUT);
    w.deposit(id);

    // The buyer's authorization is checked before the status: a stranger's
    // signature aborts instead of answering InvalidInput.
    w.envelope = Some(vec![sig(&a.validator)]);
    assert_eq!(w.deposit(id), Outcome::Abort);
}

#[test]
fn payout_transfers_name_the_escrow_token_and_amount() {
    let a = accounts();
    let mut w = World::new();
    let id = w.create(&a.user1, &a.user2, &a.arbiter, TIMEOUT);
    w.deposit(id);

    let mut escrow = w.escrow.clone();
    let mut inv = Invocation::new(START, w.contract, true);
    assert_eq!(escrow.release(&mut inv, id), Ok(()));
    assert_eq!(
        inv.transfers,
        vec![Transfer { token: w.token, from: w.contract, to: a.user2, amount: AMOUNT }]
    );

    // A token that rejects the payout leaves the record as it was.
    let mut escrow = w.escrow.clone();
    let mut inv = Invocation::new(START, w.contract, false);
    assert_eq!(escrow.release(&mut inv, id), Err(ForgeError::TokenTransferFailed));
    assert!(inv.transfers.is_empty());
    assert_eq!(escrow.get_status(id), Ok(EscrowStatus::Funded));
}

#[test]
fn error_codes_match_the_contract_error_spec() {
    assert_eq!(ForgeError::Unauthorized.code(), 1);
    assert_eq!(ForgeError::InvalidInput.code(), 3);
    assert_eq!(ForgeError::TokenTransferFailed.code(), 11);
    assert_eq!(ForgeError::from_code(9), Some(ForgeError::ArithmeticOverflow));
    assert_eq!(ForgeError::from_code(0), None);
    assert_eq!(ForgeError::from_code(12), None);
}
