//! A wallet that requires `threshold` approvals from a set of owners before
//! a transaction executes.
//!
//! ```text
//! submit --(confirm x n)--> threshold met --execute--> Executed
//! ```
//!
//! The wallet is configured once; owners submit transactions, other owners
//! confirm them (each at most once), and anyone may execute a transaction
//! once its confirmations meet the threshold. Executing the payload itself is
//! out of scope: the wallet tracks state, ownership and approvals.

pub mod laws;

use vstd::prelude::*;

use crate::errors::ForgeError;
use crate::ledger::{contains_address, copy_addresses, copy_bytes, next_id, Address, Invocation};

verus! {

/// Lifecycle state of a submitted transaction.
#[derive(Clone, Copy, Debug, PartialEq, Eq, Structural)]
pub enum TxStatus {
    /// Open for confirmations; not executed yet.
    Pending,
    /// Threshold met and executed.
    Executed,
    /// Rejected by owners (reserved; no entrypoint reaches it).
    Rejected,
}

/// A transaction awaiting multi-signature approval.
#[derive(Debug)]
pub struct WalletTx {
    /// Stable identifier assigned at submission time.
    pub tx_id: u64,
    /// Address that submitted the transaction.
    pub submitter: Address,
    /// The encoded transaction payload.
    pub payload: Vec<u8>,
    /// Owners that have confirmed so far, in confirmation order.
    pub confirmations: Vec<Address>,
    /// Current state.
    pub status: TxStatus,
}

/// A transaction as plain data.
#[verifier::ext_equal]
pub struct WalletTxView {
    pub tx_id: u64,
    pub submitter: Address,
    pub payload: Seq<u8>,
    pub confirmations: Seq<Address>,
    pub status: TxStatus,
}

impl View for WalletTx {
    type V = WalletTxView;

    open spec fn view(&self) -> WalletTxView {
        WalletTxView {
            tx_id: self.tx_id,
            submitter: self.submitter,
            payload: self.payload@,
            confirmations: self.confirmations@,
            status: self.status,
        }
    }
}

/// What configuring the wallet answers, given whether it is configured
/// already: `owners` must be non-empty and distinct, and the threshold
/// between 1 and their number.
pub open spec fn configuration_check(configured: bool, owners: Seq<Address>, threshold: u32) -> Result<(), ForgeError> {
    if configured {
        Err(ForgeError::AlreadyInitialized)
    } else if owners.len() == 0 || threshold == 0 || threshold > owners.len() || !owners.no_duplicates() {
        Err(ForgeError::InvalidInput)
    } else {
        Ok(())
    }
}

/// The transaction a submission opens as the one after the `count`-th, or
/// the error it answers with.
pub open spec fn submission(configured: bool, is_owner: bool, count: u64, submitter: Address, payload: Seq<u8>) -> Result<WalletTxView, ForgeError> {
    if !configured {
        Err(ForgeError::NotInitialized)
    } else if !is_owner {
        Err(ForgeError::Unauthorized)
    } else if count == u64::MAX {
        Err(ForgeError::ArithmeticOverflow)
    } else {
        Ok(
            WalletTxView {
                tx_id: (count + 1) as u64,
                submitter,
                payload,
                confirmations: Seq::empty(),
                status: TxStatus::Pending,
            },
        )
    }
}

/// The authorizations a submission demands: the submitter's, once the wallet
/// is configured and the submitter is an owner.
pub open spec fn submission_signers(configured: bool, is_owner: bool, submitter: Address) -> Seq<Address> {
    if configured && is_owner {
        seq![submitter]
    } else {
        Seq::empty()
    }
}

/// The transaction after `signer` (an owner or not) confirms it, or the error
/// the confirmation answers with.
pub open spec fn confirm_outcome(t: WalletTxView, is_owner: bool, signer: Address) -> Result<WalletTxView, ForgeError> {
    if t.status != TxStatus::Pending {
        Err(ForgeError::InvalidInput)
    } else if !is_owner {
        Err(ForgeError::Unauthorized)
    } else if t.confirmations.contains(signer) {
        Err(ForgeError::InvalidInput)
    } else {
        Ok(WalletTxView { confirmations: t.confirmations.push(signer), ..t })
    }
}

/// The authorizations a confirmation demands: the signer's, once the
/// transaction is pending and the signer is an owner.
pub open spec fn confirmation_signers(t: WalletTxView, is_owner: bool, signer: Address) -> Seq<Address> {
    if t.status == TxStatus::Pending && is_owner {
        seq![signer]
    } else {
        Seq::empty()
    }
}

/// The transaction after executing it under `threshold`, or the error the
/// execution answers with.
pub open spec fn execute_outcome(t: WalletTxView, threshold: Option<u32>) -> Result<WalletTxView, ForgeError> {
    if t.status != TxStatus::Pending {
        Err(ForgeError::InvalidInput)
    } else if threshold is None {
        Err(ForgeError::NotInitialized)
    } else if t.confirmations.len() < threshold->Some_0 {
        Err(ForgeError::InvalidInput)
    } else {
        Ok(WalletTxView { status: TxStatus::Executed, ..t })
    }
}

/// Check a configuration request: the wallet must not be configured yet,
/// and the owners and threshold must be admissible.
pub fn check_configuration(configured: bool, owners: &Vec<Address>, threshold: u32) -> (r: Result<(), ForgeError>)
    ensures
        r == configuration_check(configured, owners@, threshold),
{
    if configured {
        return Err(ForgeError::AlreadyInitialized);
    }
    if owners.len() == 0 {
        return Err(ForgeError::InvalidInput);
    }
    if threshold == 0 || threshold as usize > owners.len() {
        return Err(ForgeError::InvalidInput);
    }
    // Reject duplicate owners so a single owner can never inflate their
    // personal approval count.
    if has_duplicates(owners) {
        return Err(ForgeError::InvalidInput);
    }
    Ok(())
}

impl WalletTx {
    /// Open a submitted transaction as the one after the `count`-th: the
    /// wallet must be configured and the submitter one of `owners`, who
    /// authorizes.
    pub fn submitted(
        inv: &mut Invocation,
        configured: bool,
        owners: &Vec<Address>,
        count: u64,
        submitter: Address,
        payload: Vec<u8>,
    ) -> (r: Result<WalletTx, ForgeError>)
        ensures
            match submission(configured, owners@.contains(submitter), count, submitter, payload@) {
                Ok(t) => r is Ok && r->Ok_0@ == t,
                Err(e) => r is Err && r->Err_0 == e,
            },
            final(inv).records(
                *old(inv),
                submission_signers(configured, owners@.contains(submitter), submitter),
                Seq::empty(),
            ),
    {
        if !configured {
            return Err(ForgeError::NotInitialized);
        }
        if !contains_address(owners, submitter) {
            return Err(ForgeError::Unauthorized);
        }
        inv.require_auth(submitter);

        let tx_id = next_id(count)?;
        let wallet_tx = WalletTx {
            tx_id,
            submitter,
            payload,
            confirmations: Vec::new(),
            status: TxStatus::Pending,
        };
        assert(wallet_tx@ =~= submission(configured, true, count, submitter, wallet_tx.payload@)->Ok_0);
        Ok(wallet_tx)
    }

    /// Record `signer`'s approval: the transaction must be pending, the
    /// signer one of `owners` (who authorizes) and not among the confirmations.
    pub fn confirm(&mut self, inv: &mut Invocation, owners: &Vec<Address>, signer: Address) -> (r: Result<(), ForgeError>)
        ensures
            match confirm_outcome(old(self)@, owners@.contains(signer), signer) {
                Ok(t) => r is Ok && final(self)@ == t,
                Err(e) => r == Err::<(), ForgeError>(e) && final(self)@ == old(self)@,
            },
            final(inv).records(
                *old(inv),
                confirmation_signers(old(self)@, owners@.contains(signer), signer),
                Seq::empty(),
            ),
    {
        if self.status != TxStatus::Pending {
            return Err(ForgeError::InvalidInput);
        }
        if !contains_address(owners, signer) {
            return Err(ForgeError::Unauthorized);
        }
        inv.require_auth(signer);

        if contains_address(&self.confirmations, signer) {
            return Err(ForgeError::InvalidInput);
        }
        self.confirmations.push(signer);
        assert(self@ =~= confirm_outcome(old(self)@, true, signer)->Ok_0);
        Ok(())
    }

    /// Mark the transaction executed: it must be pending and its
    /// confirmations must meet the configured `threshold`.
    pub fn execute(&mut self, threshold: Option<u32>) -> (r: Result<(), ForgeError>)
        ensures
            match execute_outcome(old(self)@, threshold) {
                Ok(t) => r is Ok && final(self)@ == t,
                Err(e) => r == Err::<(), ForgeError>(e) && final(self)@ == old(self)@,
            },
    {
        if self.status != TxStatus::Pending {
            return Err(ForgeError::InvalidInput);
        }
        let threshold = match threshold {
            Some(t) => t,
            None => return Err(ForgeError::NotInitialized),
        };
        if self.confirmations.len() < threshold as usize {
            return Err(ForgeError::InvalidInput);
        }
        self.status = TxStatus::Executed;
        assert(self@ =~= execute_outcome(old(self)@, Some(threshold))->Ok_0);
        Ok(())
    }
}

/// The wallet's storage: the owner set and threshold once configured, and
/// the submitted transactions, whose ids run from 1 upward.
pub struct MultiSigWallet {
    owners: Vec<Address>,
    threshold: Option<u32>,
    txs: Vec<WalletTx>,
}

impl MultiSigWallet {
    /// The owner set (empty until configured).
    pub closed spec fn owners(self) -> Seq<Address> {
        self.owners@
    }

    /// The approval threshold, once configured.
    pub closed spec fn threshold(self) -> Option<u32> {
        self.threshold
    }

    /// The submitted transactions in submission order; the one with id `i`
    /// is at `i - 1`.
    pub closed spec fn txs(self) -> Seq<WalletTxView> {
        self.txs@.map_values(|t: WalletTx| t@)
    }

    /// How many transactions have been submitted.
    pub open spec fn count(self) -> nat {
        self.txs().len()
    }

    /// The transaction stored under `id`, if any.
    pub open spec fn tx(self, id: u64) -> Option<WalletTxView> {
        if 1 <= id <= self.count() {
            Some(self.txs()[id - 1])
        } else {
            None
        }
    }

    /// Whether `a` is one of the wallet's owners.
    pub open spec fn is_owner(self, a: Address) -> bool {
        self.owners().contains(a)
    }

    /// The wallet's invariant: a configured wallet has distinct owners and a
    /// threshold between 1 and their number; an unconfigured one has no
    /// owners; every transaction sits under its own id, is confirmed only by
    /// distinct owners, and was executed only once its confirmations met the
    /// threshold.
    pub open spec fn wf(self) -> bool {
        &&& self.count() <= u64::MAX
        &&& match self.threshold() {
            Some(t) => {
                &&& 0 < t <= self.owners().len()
                &&& self.owners().no_duplicates()
            },
            None => self.owners().len() == 0,
        }
        &&& forall|i: int| 0 <= i < self.count() ==> self.tx_wf(#[trigger] self.txs()[i], i)
    }

    /// The invariant of the transaction at position `i`.
    pub open spec fn tx_wf(self, t: WalletTxView, i: int) -> bool {
        &&& t.tx_id == i + 1
        &&& t.confirmations.no_duplicates()
        &&& forall|k: int| 0 <= k < t.confirmations.len() ==> self.is_owner(#[trigger] t.confirmations[k])
        &&& t.status == TxStatus::Executed ==> (self.threshold() is Some && t.confirmations.len()
            >= self.threshold()->Some_0)
    }

    /// An unconfigured wallet.
    pub fn new() -> (w: MultiSigWallet)
        ensures
            w.wf(),
            w.threshold() is None,
            w.owners() == Seq::<Address>::empty(),
            w.txs() == Seq::<WalletTxView>::empty(),
    {
        let w = MultiSigWallet { owners: Vec::new(), threshold: None, txs: Vec::new() };
        assert(w.txs() =~= Seq::<WalletTxView>::empty());
        w
    }

    /// Configure the wallet with `owners` and an approval `threshold`, once.
    ///
    /// Requires a non-empty owner set without duplicates and
    /// `0 < threshold <= owners.len()`.
    pub fn initialize(&mut self, owners: Vec<Address>, threshold: u32) -> (r: Result<(), ForgeError>)
        requires
            old(self).wf(),
        ensures
            final(self).wf(),
            final(self).txs() == old(self).txs(),
            r == configuration_check(old(self).threshold() is Some, owners@, threshold),
            r is Ok ==> final(self).owners() == owners@ && final(self).threshold() == Some(threshold),
            r is Err ==> final(self).owners() == old(self).owners() && final(self).threshold() == old(
                self,
            ).threshold(),
    {
        check_configuration(self.threshold.is_some(), &owners, threshold)?;
        self.owners = owners;
        self.threshold = Some(threshold);
        proof {
            assert forall|i: int| 0 <= i < self.count() implies self.tx_wf(#[trigger] self.txs()[i], i) by {
                assert(old(self).tx_wf(old(self).txs()[i], i));
                if self.txs()[i].confirmations.len() > 0 {
                    assert(old(self).is_owner(old(self).txs()[i].confirmations[0]));
                }
            }
        }
        Ok(())
    }

    /// Submit a new transaction for owner approval and return its stable id.
    ///
    /// Requires a configured wallet and the submitter to be an owner, who
    /// authorizes the call.
    pub fn submit(&mut self, inv: &mut Invocation, submitter: Address, tx: Vec<u8>) -> (r: Result<u64, ForgeError>)
        requires
            old(self).wf(),
        ensures
            final(self).wf(),
            final(self).owners() == old(self).owners(),
            final(self).threshold() == old(self).threshold(),
            final(inv).records(
                *old(inv),
                submission_signers(old(self).threshold() is Some, old(self).is_owner(submitter), submitter),
                Seq::empty(),
            ),
            match submission(
                old(self).threshold() is Some,
                old(self).is_owner(submitter),
                old(self).count() as u64,
                submitter,
                tx@,
            ) {
                Ok(t) => r == Ok::<u64, ForgeError>(t.tx_id) && final(self).txs() == old(self).txs().push(t),
                Err(e) => r == Err::<u64, ForgeError>(e) && final(self).txs() == old(self).txs(),
            },
    {
        let wallet_tx = WalletTx::submitted(
            inv,
            self.is_initialized(),
            &self.owners,
            self.txs.len() as u64,
            submitter,
            tx,
        )?;
        let tx_id = wallet_tx.tx_id;
        let ghost pre = self.txs();
        self.txs.push(wallet_tx);
        proof {
            assert(self.txs() =~= pre.push(wallet_tx@));
            assert forall|i: int| 0 <= i < self.count() implies self.tx_wf(#[trigger] self.txs()[i], i) by {
                if i < pre.len() {
                    assert(old(self).tx_wf(pre[i], i));
                }
            }
        }
        Ok(tx_id)
    }

    /// Record `signer`'s approval of a pending transaction.
    ///
    /// The signer must be an owner that has not confirmed this transaction
    /// yet, and authorizes the call.
    pub fn confirm(&mut self, inv: &mut Invocation, tx_id: u64, signer: Address) -> (r: Result<(), ForgeError>)
        requires
            old(self).wf(),
        ensures
            final(self).wf(),
            final(self).owners() == old(self).owners(),
            final(self).threshold() == old(self).threshold(),
            match old(self).tx(tx_id) {
                None => {
                    &&& r == Err::<(), ForgeError>(ForgeError::NotFound)
                    &&& final(self).txs() == old(self).txs()
                    &&& final(inv).records(*old(inv), Seq::empty(), Seq::empty())
                },
                Some(t) => {
                    &&& final(inv).records(
                        *old(inv),
                        confirmation_signers(t, old(self).is_owner(signer), signer),
                        Seq::empty(),
                    )
                    &&& match confirm_outcome(t, old(self).is_owner(signer), signer) {
                        Ok(t2) => r is Ok && final(self).txs() == old(self).txs().update(tx_id - 1, t2),
                        Err(e) => r == Err::<(), ForgeError>(e) && final(self).txs() == old(self).txs(),
                    }
                },
            },
    {
        let idx = self.get_tx_index(tx_id)?;
        assert(self.txs()[idx as int] == self.txs@[idx as int]@);
        let ghost pre = self.txs();
        if let Err(e) = self.txs[idx].confirm(inv, &self.owners, signer) {
            assert(self.txs() =~= pre);
            return Err(e);
        }
        proof {
            let t = pre[idx as int];
            assert(self.txs() =~= pre.update(idx as int, confirm_outcome(t, old(self).is_owner(signer), signer)->Ok_0));
            assert(old(self).tx_wf(t, idx as int));
            assert forall|i: int| 0 <= i < self.count() implies self.tx_wf(#[trigger] self.txs()[i], i) by {
                assert(old(self).tx_wf(pre[i], i));
            }
        }
        Ok(())
    }

    /// Execute a pending transaction once its confirmations meet the
    /// threshold. Anyone may call it.
    pub fn execute(&mut self, tx_id: u64) -> (r: Result<(), ForgeError>)
        requires
            old(self).wf(),
        ensures
            final(self).wf(),
            final(self).owners() == old(self).owners(),
            final(self).threshold() == old(self).threshold(),
            match old(self).tx(tx_id) {
                None => r == Err::<(), ForgeError>(ForgeError::NotFound) && final(self).txs() == old(self).txs(),
                Some(t) => match execute_outcome(t, old(self).threshold()) {
                    Ok(t2) => r is Ok && final(self).txs() == old(self).txs().update(tx_id - 1, t2),
                    Err(e) => r == Err::<(), ForgeError>(e) && final(self).txs() == old(self).txs(),
                },
            },
    {
        let idx = self.get_tx_index(tx_id)?;
        assert(self.txs()[idx as int] == self.txs@[idx as int]@);
        let ghost pre = self.txs();
        if let Err(e) = self.txs[idx].execute(self.threshold) {
            assert(self.txs() =~= pre);
            return Err(e);
        }
        proof {
            let t = pre[idx as int];
            assert(self.txs() =~= pre.update(idx as int, execute_outcome(t, old(self).threshold())->Ok_0));
            assert(old(self).tx_wf(t, idx as int));
            assert forall|i: int| 0 <= i < self.count() implies self.tx_wf(#[trigger] self.txs()[i], i) by {
                assert(old(self).tx_wf(pre[i], i));
            }
        }
        Ok(())
    }

    /// The configured approval threshold.
    pub fn get_threshold(&self) -> (r: Result<u32, ForgeError>)
        ensures
            r == (match self.threshold() {
                Some(t) => Ok::<u32, ForgeError>(t),
                None => Err(ForgeError::NotInitialized),
            }),
    {
        match self.threshold {
            Some(t) => Ok(t),
            None => Err(ForgeError::NotInitialized),
        }
    }

    /// A copy of the transaction stored under `tx_id`.
    pub fn get_tx(&self, tx_id: u64) -> (r: Result<WalletTx, ForgeError>)
        requires
            self.wf(),
        ensures
            match self.tx(tx_id) {
                Some(t) => r is Ok && r->Ok_0@ == t,
                None => r is Err && r->Err_0 == ForgeError::NotFound,
            },
    {
        let idx = self.get_tx_index(tx_id)?;
        let t = &self.txs[idx];
        let copy = WalletTx {
            tx_id: t.tx_id,
            submitter: t.submitter,
            payload: copy_bytes(&t.payload),
            confirmations: copy_addresses(&t.confirmations),
            status: t.status,
        };
        assert(copy@ =~= self.txs()[idx as int]);
        Ok(copy)
    }

    /// Whether the wallet has been configured.
    fn is_initialized(&self) -> (b: bool)
        ensures
            b == self.threshold() is Some,
    {
        self.threshold.is_some()
    }

    /// Position of the transaction with id `tx_id`.
    fn get_tx_index(&self, tx_id: u64) -> (r: Result<usize, ForgeError>)
        requires
            self.wf(),
        ensures
            match self.tx(tx_id) {
                Some(_) => r is Ok && r->Ok_0 == tx_id - 1 && tx_id - 1 < self.txs@.len(),
                None => r == Err::<usize, ForgeError>(ForgeError::NotFound),
            },
    {
        if tx_id == 0 || tx_id > self.txs.len() as u64 {
            return Err(ForgeError::NotFound);
        }
        Ok((tx_id - 1) as usize)
    }
}

/// Whether some address occurs twice in `list`.
fn has_duplicates(list: &Vec<Address>) -> (dup: bool)
    ensures
        dup == !list@.no_duplicates(),
{
    let mut i: usize = 0;
    while i < list.len()
        invariant
            i <= list@.len(),
            forall|a: int, b: int| 0 <= a < b < i ==> list@[a] != list@[b],
        decreases list@.len() - i,
    {
        let mut j: usize = 0;
        while j < i
            invariant
                i < list@.len(),
                j <= i,
                forall|b: int| 0 <= b < j ==> list@[b] != list@[i as int],
            decreases i - j,
        {
            if list[j] == list[i] {
                return true;
            }
            j = j + 1;
        }
        i = i + 1;
    }
    false
}

} // verus!
