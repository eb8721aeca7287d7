//! What a contract sees of the ledger: addresses, the invocation context the
//! host supplies, and the effects an invocation records (authorizations it
//! demanded, token transfers it made).

use vstd::prelude::*;

use crate::errors::ForgeError;

verus! {

/// The two kinds of ledger address.
#[derive(Clone, Copy, Debug, PartialEq, Eq, Hash, Structural)]
pub enum AddressKind {
    /// An account, identified by its Ed25519 public key (`G...` strkey).
    Account,
    /// A contract, identified by its contract-id hash (`C...` strkey).
    Contract,
}

/// A ledger address: its kind and its 32-byte payload, held as two
/// big-endian 128-bit halves. Two addresses are the same party exactly when
/// all three fields agree.
#[derive(Clone, Copy, Debug, PartialEq, Eq, Hash, Structural)]
pub struct Address {
    pub kind: AddressKind,
    pub hi: u128,
    pub lo: u128,
}

impl Address {
    /// The account address whose public key is `hi ++ lo`.
    pub fn account(hi: u128, lo: u128) -> (a: Address)
        ensures
            a == (Address { kind: AddressKind::Account, hi, lo }),
    {
        Address { kind: AddressKind::Account, hi, lo }
    }

    /// The contract address whose id hash is `hi ++ lo`.
    pub fn contract(hi: u128, lo: u128) -> (a: Address)
        ensures
            a == (Address { kind: AddressKind::Contract, hi, lo }),
    {
        Address { kind: AddressKind::Contract, hi, lo }
    }
}

/// A movement of `amount` units of the SEP-41 token `token` from `from` to `to`.
#[derive(Clone, Copy, Debug, PartialEq, Eq, Structural)]
pub struct Transfer {
    pub token: Address,
    pub from: Address,
    pub to: Address,
    pub amount: i128,
}

/// One contract invocation as the host runs it.
///
/// The host supplies the ledger time, the invoked contract's own address and
/// the verdict of the token contracts this invocation calls (the token either
/// honours the transfers asked of it or rejects them). The invocation records
/// every authorization the contract demands (`require_auth`) and every token
/// transfer that went through.
pub struct Invocation {
    /// Ledger timestamp at which the call runs.
    pub now: u64,
    /// Address of the invoked contract.
    pub contract: Address,
    /// Whether the token contracts honour the transfers asked of them.
    pub token_accepts: bool,
    /// Addresses whose authorization the call demanded, in order.
    pub auths: Vec<Address>,
    /// Token transfers the call made, in order.
    pub transfers: Vec<Transfer>,
}

impl Invocation {
    /// A fresh invocation at ledger time `now` of the contract at `contract`.
    pub fn new(now: u64, contract: Address, token_accepts: bool) -> (inv: Invocation)
        ensures
            inv.now == now,
            inv.contract == contract,
            inv.token_accepts == token_accepts,
            inv.auths@ == Seq::<Address>::empty(),
            inv.transfers@ == Seq::<Transfer>::empty(),
    {
        Invocation { now, contract, token_accepts, auths: Vec::new(), transfers: Vec::new() }
    }

    /// The context fields of the invocation are the same in `self` and `other`.
    pub open spec fn same_context(self, other: Invocation) -> bool {
        &&& self.now == other.now
        &&& self.contract == other.contract
        &&& self.token_accepts == other.token_accepts
    }

    /// The call demanded exactly the authorizations `demanded` and made exactly
    /// the transfers `moved`, on top of what `old` had recorded.
    pub open spec fn records(self, old: Invocation, demanded: Seq<Address>, moved: Seq<Transfer>) -> bool {
        &&& self.same_context(old)
        &&& self.auths@ =~= old.auths@ + demanded
        &&& self.transfers@ =~= old.transfers@ + moved
    }

    /// Demand the authorization of `who` for this invocation.
    pub fn require_auth(&mut self, who: Address)
        ensures
            final(self).records(*old(self), seq![who], Seq::empty()),
    {
        self.auths.push(who);
    }

    /// Ask the token contract `token` to move `amount` from `from` to `to`.
    ///
    /// A rejection from the token contract (insufficient balance, missing or
    /// deauthorized trustline, undeployed token, custom token logic) is
    /// bucketed into `TokenTransferFailed`; which of these it was is not
    /// forwarded.
    pub fn transfer(&mut self, token: Address, from: Address, to: Address, amount: i128) -> (r:
        Result<(), ForgeError>)
        ensures
            old(self).token_accepts ==> r is Ok && final(self).records(
                *old(self),
                Seq::empty(),
                seq![Transfer { token, from, to, amount }],
            ),
            !old(self).token_accepts ==> r == Err::<(), ForgeError>(ForgeError::TokenTransferFailed)
                && final(self).records(*old(self), Seq::empty(), Seq::empty()),
    {
        if self.token_accepts {
            self.transfers.push(Transfer { token, from, to, amount });
            Ok(())
        } else {
            Err(ForgeError::TokenTransferFailed)
        }
    }

    /// Whether every authorization this call demanded is among the signatures
    /// in `envelope`; the host aborts the whole invocation when it is not.
    pub fn covered_by(&self, envelope: &Vec<Address>) -> (ok: bool)
        ensures
            ok == (forall|i: int| 0 <= i < self.auths@.len() ==> envelope@.contains(#[trigger] self.auths@[i])),
    {
        let mut i: usize = 0;
        while i < self.auths.len()
            invariant
                i <= self.auths@.len(),
                forall|j: int| 0 <= j < i ==> envelope@.contains(#[trigger] self.auths@[j]),
            decreases self.auths@.len() - i,
        {
            if !contains_address(envelope, self.auths[i]) {
                return false;
            }
            i = i + 1;
        }
        true
    }
}

/// Whether `x` fits in an `i128`.
pub open spec fn fits_i128(x: int) -> bool {
    i128::MIN <= x <= i128::MAX
}

/// The sequence holding the value of `o`, if any.
pub open spec fn seq_of<T>(o: Option<T>) -> Seq<T> {
    match o {
        Some(x) => seq![x],
        None => Seq::empty(),
    }
}

/// Whether `a` occurs in `list`.
pub fn contains_address(list: &Vec<Address>, a: Address) -> (found: bool)
    ensures
        found == list@.contains(a),
{
    let mut i: usize = 0;
    while i < list.len()
        invariant
            i <= list@.len(),
            forall|j: int| 0 <= j < i ==> list@[j] != a,
        decreases list@.len() - i,
    {
        if list[i] == a {
            return true;
        }
        i = i + 1;
    }
    false
}

/// The id a monotonic counter standing at `count` hands out next.
pub fn next_id(count: u64) -> (r: Result<u64, ForgeError>)
    ensures
        count < u64::MAX ==> r == Ok::<u64, ForgeError>((count + 1) as u64),
        count == u64::MAX ==> r == Err::<u64, ForgeError>(ForgeError::ArithmeticOverflow),
{
    match count.checked_add(1) {
        Some(id) => Ok(id),
        None => Err(ForgeError::ArithmeticOverflow),
    }
}

/// A byte-for-byte copy of `bytes`.
pub fn copy_bytes(bytes: &Vec<u8>) -> (out: Vec<u8>)
    ensures
        out@ == bytes@,
{
    let mut out: Vec<u8> = Vec::new();
    let mut i: usize = 0;
    while i < bytes.len()
        invariant
            i <= bytes@.len(),
            out@ == bytes@.subrange(0, i as int),
        decreases bytes@.len() - i,
    {
        out.push(bytes[i]);
        i = i + 1;
    }
    out
}

/// An entry-for-entry copy of `list`.
pub fn copy_addresses(list: &Vec<Address>) -> (out: Vec<Address>)
    ensures
        out@ == list@,
{
    let mut out: Vec<Address> = Vec::new();
    let mut i: usize = 0;
    while i < list.len()
        invariant
            i <= list@.len(),
            out@ == list@.subrange(0, i as int),
        decreases list@.len() - i,
    {
        out.push(list[i]);
        i = i + 1;
    }
    out
}

} // verus!
