//! Laws of the multi-signature wallet.

use vstd::prelude::*;

use crate::errors::ForgeError;
use crate::ledger::Address;
use crate::multi_sig_wallet::{
    configuration_check, confirm_outcome, execute_outcome, submission, MultiSigWallet, TxStatus,
    WalletTxView,
};

verus! {

/// Every executed transaction was approved by at least `threshold` distinct
/// owners; no owner's approval counts twice and no outsider's counts at all.
pub proof fn law_execution_needs_threshold_distinct_owners(w: MultiSigWallet, tx_id: u64)
    requires
        w.wf(),
        w.tx(tx_id) is Some,
        w.tx(tx_id)->Some_0.status == TxStatus::Executed,
    ensures
        w.threshold() is Some,
        w.tx(tx_id)->Some_0.confirmations.len() >= w.threshold()->Some_0,
        w.tx(tx_id)->Some_0.confirmations.no_duplicates(),
        forall|k: int|
            0 <= k < w.tx(tx_id)->Some_0.confirmations.len() ==> w.is_owner(
                #[trigger] w.tx(tx_id)->Some_0.confirmations[k],
            ),
{
    assert(w.tx_wf(w.txs()[tx_id - 1], tx_id - 1));
}

/// Every pending transaction's confirmations come from distinct owners, and
/// never more of them than there are owners.
pub proof fn law_confirmations_are_distinct_owners(w: MultiSigWallet, tx_id: u64)
    requires
        w.wf(),
        w.tx(tx_id) is Some,
    ensures
        w.tx(tx_id)->Some_0.confirmations.no_duplicates(),
        forall|k: int|
            0 <= k < w.tx(tx_id)->Some_0.confirmations.len() ==> w.is_owner(
                #[trigger] w.tx(tx_id)->Some_0.confirmations[k],
            ),
        w.tx(tx_id)->Some_0.confirmations.len() <= w.owners().len(),
{
    let t = w.txs()[tx_id - 1];
    assert(w.tx_wf(t, tx_id - 1));
    let c = t.confirmations;
    // The confirmations are distinct members of the owner set, so there are at
    // most as many of them as owners.
    assert(c.to_set().subset_of(w.owners().to_set()));
    c.unique_seq_to_set();
    w.owners().lemma_cardinality_of_set();
    vstd::set_lib::lemma_len_subset(c.to_set(), w.owners().to_set());
}

/// A wallet can be configured with any non-empty list of distinct owners and
/// any threshold from 1 up to the number of owners, `n`-of-`n` included; every
/// other owner list or threshold is refused with `InvalidInput`, and a wallet
/// that is already configured refuses every configuration.
pub proof fn law_any_admissible_configuration_is_accepted(owners: Seq<Address>, threshold: u32)
    ensures
        configuration_check(false, owners, threshold) is Ok <==> {
            &&& owners.len() > 0
            &&& owners.no_duplicates()
            &&& 1 <= threshold <= owners.len()
        },
        configuration_check(false, owners, threshold) is Err ==> configuration_check(false, owners, threshold)
            == Err::<(), ForgeError>(ForgeError::InvalidInput),
        configuration_check(true, owners, threshold) == Err::<(), ForgeError>(ForgeError::AlreadyInitialized),
{
}

/// Every owner may confirm a pending transaction exactly once, its submitter
/// included: a first confirmation appends the owner to the confirmations and
/// changes nothing else, a second one is refused, and a non-owner's is refused
/// as `Unauthorized`. A transaction that is no longer pending takes no
/// confirmation at all.
pub proof fn law_every_owner_confirms_once(t: WalletTxView, signer: Address)
    ensures
        t.status == TxStatus::Pending && !t.confirmations.contains(signer) ==> confirm_outcome(t, true, signer)
            == Ok::<WalletTxView, ForgeError>(
            WalletTxView { confirmations: t.confirmations.push(signer), ..t },
        ),
        t.confirmations.contains(signer) ==> confirm_outcome(t, true, signer) is Err,
        t.status == TxStatus::Pending ==> confirm_outcome(t, false, signer) == Err::<WalletTxView, ForgeError>(
            ForgeError::Unauthorized,
        ),
        t.status != TxStatus::Pending ==> confirm_outcome(t, true, signer) is Err
            && confirm_outcome(t, false, signer) is Err,
{
}

/// A pending transaction of a configured wallet executes exactly when its
/// confirmations are at least the threshold, however far above it they go;
/// execution only flips the status to `Executed`, and an executed
/// transaction is never executed again. Once a transaction may execute,
/// a further confirmation keeps it executable.
pub proof fn law_execution_once_threshold_met(t: WalletTxView, threshold: u32, signer: Address)
    requires
        t.status == TxStatus::Pending,
    ensures
        t.confirmations.len() >= threshold ==> execute_outcome(t, Some(threshold)) == Ok::<
            WalletTxView,
            ForgeError,
        >(WalletTxView { status: TxStatus::Executed, ..t }),
        t.confirmations.len() < threshold ==> execute_outcome(t, Some(threshold)) == Err::<
            WalletTxView,
            ForgeError,
        >(ForgeError::InvalidInput),
        execute_outcome(t, None) == Err::<WalletTxView, ForgeError>(ForgeError::NotInitialized),
        execute_outcome(t, Some(threshold)) matches Ok(t2) ==> execute_outcome(t2, Some(threshold)) is Err,
        execute_outcome(t, Some(threshold)) is Ok && confirm_outcome(t, true, signer) is Ok
            ==> execute_outcome(confirm_outcome(t, true, signer)->Ok_0, Some(threshold)) is Ok,
{
}

/// The transaction after `signers` confirm it one after another, each as an
/// owner; the first refused confirmation ends the run with its error.
pub open spec fn confirm_each(t: WalletTxView, signers: Seq<Address>) -> Result<WalletTxView, ForgeError>
    decreases signers.len(),
{
    if signers.len() == 0 {
        Ok(t)
    } else {
        match confirm_each(t, signers.drop_last()) {
            Ok(t1) => confirm_outcome(t1, true, signers.last()),
            Err(e) => Err(e),
        }
    }
}

/// Distinct signers who have not confirmed a pending transaction yet all get
/// their confirmations in, in order, and nothing else about it changes.
pub proof fn law_distinct_signers_all_confirm(t: WalletTxView, signers: Seq<Address>)
    requires
        t.status == TxStatus::Pending,
        (t.confirmations + signers).no_duplicates(),
    ensures
        confirm_each(t, signers) == Ok::<WalletTxView, ForgeError>(
            WalletTxView { confirmations: t.confirmations + signers, ..t },
        ),
    decreases signers.len(),
{
    if signers.len() > 0 {
        let c = t.confirmations;
        let front = signers.drop_last();
        let x = signers.last();
        assert((c + signers).drop_last() =~= c + front);
        assert((c + front).no_duplicates()) by {
            assert forall|i: int, j: int| 0 <= i < j < (c + front).len() implies (c + front)[i] != (c
                + front)[j] by {
                assert((c + front)[i] == (c + signers)[i]);
                assert((c + front)[j] == (c + signers)[j]);
            }
        }
        law_distinct_signers_all_confirm(t, front);
        assert(!(c + front).contains(x)) by {
            if (c + front).contains(x) {
                let k = choose|k: int| 0 <= k < (c + front).len() && (c + front)[k] == x;
                assert((c + signers)[k] == x);
                assert((c + signers)[(c + signers).len() - 1] == x);
            }
        }
        assert((c + front).push(x) =~= c + signers);
    }
}

/// The whole approval flow works for every admissible wallet: configured
/// with distinct owners and a threshold up to their number, a transaction
/// that an owner submits is confirmed by any distinct owners, the submitter
/// among them if it likes, and executes as soon as at least `threshold` of
/// them have confirmed. With all owners confirming, an `n`-of-`n` wallet
/// executes too.
pub proof fn law_threshold_of_distinct_owners_executes(
    owners: Seq<Address>,
    threshold: u32,
    count: u64,
    submitter: Address,
    payload: Seq<u8>,
    signers: Seq<Address>,
)
    requires
        owners.len() > 0,
        owners.no_duplicates(),
        1 <= threshold <= owners.len(),
        owners.contains(submitter),
        count < u64::MAX,
        signers.no_duplicates(),
        forall|i: int| 0 <= i < signers.len() ==> owners.contains(#[trigger] signers[i]),
        threshold <= signers.len(),
    ensures
        configuration_check(false, owners, threshold) == Ok::<(), ForgeError>(()),
        submission(true, owners.contains(submitter), count, submitter, payload) is Ok,
        confirm_each(submission(true, true, count, submitter, payload)->Ok_0, signers) is Ok,
        execute_outcome(
            confirm_each(submission(true, true, count, submitter, payload)->Ok_0, signers)->Ok_0,
            Some(threshold),
        ) is Ok,
{
    let t = submission(true, true, count, submitter, payload)->Ok_0;
    assert(t.confirmations + signers =~= signers);
    law_distinct_signers_all_confirm(t, signers);
}

} // verus!
