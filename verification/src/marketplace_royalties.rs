//! Creator royalty splits on secondary sales.
//!
//! Each collection has one royalty configuration with a single recipient and
//! a basis-point rate. A sale of `amount` reserves `amount * bps / 10_000`
//! (rounded down) for the recipient and returns the net owed to the seller;
//! a `Disabled` configuration settles in full to the seller.

pub mod laws;

use vstd::prelude::*;

use crate::errors::ForgeError;
use crate::ledger::{fits_i128, Address, Invocation};

verus! {

/// The largest rate a configuration may carry: 100%, in basis points.
pub const MAX_BPS: u32 = 10_000;

/// Lifecycle state of a registered royalty configuration.
#[derive(Clone, Copy, Debug, PartialEq, Eq, Structural)]
pub enum RoyaltyStatus {
    /// Active and applied to sales.
    Active,
    /// Disabled; sales settle to the seller in full.
    Disabled,
}

/// A royalty configuration for a single collection.
#[derive(Clone, Copy, Debug, PartialEq, Eq, Structural)]
pub struct Royalty {
    /// Collection (NFT contract) this configuration applies to.
    pub collection: Address,
    /// Address entitled to royalty payments.
    pub recipient: Address,
    /// Royalty rate in basis points (100 bps = 1%).
    pub bps: u32,
    /// Whether the configuration is currently enforced.
    pub status: RoyaltyStatus,
}

/// The royalty share of a sale of `amount` at `bps` basis points, rounded down.
pub open spec fn royalty_share(amount: int, bps: int) -> int {
    (amount * bps) / 10_000
}

/// The net owed to the seller of a sale of `amount` under `r`, or
/// `ArithmeticOverflow` when the intermediate product does not fit.
pub open spec fn net_of_sale(r: Royalty, amount: i128) -> Result<i128, ForgeError> {
    if r.status == RoyaltyStatus::Disabled {
        Ok(amount)
    } else if !fits_i128(amount * r.bps) {
        Err(ForgeError::ArithmeticOverflow)
    } else if !fits_i128(amount - royalty_share(amount as int, r.bps as int)) {
        Err(ForgeError::ArithmeticOverflow)
    } else {
        Ok((amount - royalty_share(amount as int, r.bps as int)) as i128)
    }
}

impl Royalty {
    /// An `Active` configuration for `collection`: requires `bps <= 10_000`
    /// and the collection's authorization.
    pub fn configure(inv: &mut Invocation, collection: Address, recipient: Address, bps: u32) -> (r: Result<Royalty, ForgeError>)
        ensures
            bps > MAX_BPS ==> r == Err::<Royalty, ForgeError>(ForgeError::InvalidInput) && final(inv).records(
                *old(inv),
                Seq::empty(),
                Seq::empty(),
            ),
            bps <= MAX_BPS ==> r == Ok::<Royalty, ForgeError>(
                Royalty { collection, recipient, bps, status: RoyaltyStatus::Active },
            ) && final(inv).records(*old(inv), seq![collection], Seq::empty()),
    {
        if bps > MAX_BPS {
            return Err(ForgeError::InvalidInput);
        }
        inv.require_auth(collection);
        Ok(Royalty { collection, recipient, bps, status: RoyaltyStatus::Active })
    }

    /// The net owed to `seller` for a sale of `amount` under this
    /// configuration: requires `amount > 0` and the collection's
    /// authorization; a `Disabled` configuration settles in full.
    pub fn distribute(&self, inv: &mut Invocation, seller: Address, amount: i128) -> (r: Result<i128, ForgeError>)
        ensures
            amount <= 0 ==> r == Err::<i128, ForgeError>(ForgeError::InvalidInput) && final(inv).records(
                *old(inv),
                Seq::empty(),
                Seq::empty(),
            ),
            amount > 0 ==> r == net_of_sale(*self, amount) && final(inv).records(
                *old(inv),
                seq![self.collection],
                Seq::empty(),
            ),
    {
        if amount <= 0 {
            return Err(ForgeError::InvalidInput);
        }
        inv.require_auth(self.collection);

        if self.status == RoyaltyStatus::Disabled {
            return Ok(amount);
        }

        let product = match amount.checked_mul(self.bps as i128) {
            Some(p) => p,
            None => return Err(ForgeError::ArithmeticOverflow),
        };
        assert(product >= 0) by (nonlinear_arith)
            requires
                product == amount * self.bps,
                amount > 0,
                self.bps >= 0,
        ;
        let royalty_share = product / 10_000;
        let _ = &seller;
        // `bps <= 10_000` makes the share at most `amount`, so the net is
        // never negative; the checked subtraction fails loudly should that
        // ever be broken.
        match amount.checked_sub(royalty_share) {
            Some(net) => Ok(net),
            None => Err(ForgeError::ArithmeticOverflow),
        }
    }
}

/// The royalty contract's storage: one configuration per collection.
pub struct MarketplaceRoyalties {
    entries: Vec<Royalty>,
}

impl MarketplaceRoyalties {
    /// The stored configurations, in registration order.
    pub closed spec fn entries(self) -> Seq<Royalty> {
        self.entries@
    }

    /// The configuration stored for `collection`, if any.
    pub open spec fn royalty(self, collection: Address) -> Option<Royalty> {
        if exists|i: int| 0 <= i < self.entries().len() && #[trigger] self.entries()[i].collection == collection {
            Some(
                self.entries()[choose|i: int|
                    0 <= i < self.entries().len() && #[trigger] self.entries()[i].collection == collection],
            )
        } else {
            None
        }
    }

    /// At most one configuration per collection, none above 100%.
    pub open spec fn wf(self) -> bool {
        &&& forall|i: int, j: int|
            0 <= i < j < self.entries().len() ==> #[trigger] self.entries()[i].collection
                != #[trigger] self.entries()[j].collection
        &&& forall|i: int| 0 <= i < self.entries().len() ==> #[trigger] self.entries()[i].bps <= MAX_BPS
    }

    /// A contract with no configurations yet.
    pub fn new() -> (m: MarketplaceRoyalties)
        ensures
            m.wf(),
            forall|c: Address| m.royalty(c) is None,
    {
        MarketplaceRoyalties { entries: Vec::new() }
    }

    /// Register or update the royalty recipient and rate for `collection`.
    ///
    /// Requires `bps <= 10_000` (100%) and the collection's authorization.
    /// Re-registration replaces the existing configuration and re-activates it.
    pub fn set_royalty(&mut self, inv: &mut Invocation, collection: Address, recipient: Address, bps: u32) -> (r: Result<(), ForgeError>)
        requires
            old(self).wf(),
        ensures
            final(self).wf(),
            bps > MAX_BPS ==> {
                &&& r == Err::<(), ForgeError>(ForgeError::InvalidInput)
                &&& forall|c: Address| #[trigger] final(self).royalty(c) == old(self).royalty(c)
                &&& final(inv).records(*old(inv), Seq::empty(), Seq::empty())
            },
            bps <= MAX_BPS ==> {
                &&& r is Ok
                &&& final(self).royalty(collection) == Some(
                    Royalty { collection, recipient, bps, status: RoyaltyStatus::Active },
                )
                &&& forall|c: Address| c != collection ==> #[trigger] final(self).royalty(c) == old(self).royalty(c)
                &&& final(inv).records(*old(inv), seq![collection], Seq::empty())
            },
    {
        let royalty = Royalty::configure(inv, collection, recipient, bps)?;
        let ghost pre = self.entries@;
        match self.find(collection) {
            Some(idx) => {
                self.entries.set(idx, royalty);
                proof {
                    assert forall|c: Address| c != collection implies #[trigger] self.royalty(c) == old(self).royalty(c) by {
                        if exists|i: int| 0 <= i < pre.len() && #[trigger] pre[i].collection == c {
                            let i = choose|i: int| 0 <= i < pre.len() && #[trigger] pre[i].collection == c;
                            assert(self.entries()[i].collection == c);
                        }
                        if exists|i: int| 0 <= i < self.entries().len() && #[trigger] self.entries()[i].collection == c {
                            let i = choose|i: int| 0 <= i < self.entries().len() && #[trigger] self.entries()[i].collection == c;
                            assert(pre[i].collection == c);
                        }
                    }
                    assert(self.entries()[idx as int].collection == collection);
                }
            },
            None => {
                self.entries.push(royalty);
                proof {
                    assert forall|c: Address| c != collection implies #[trigger] self.royalty(c) == old(self).royalty(c) by {
                        if exists|i: int| 0 <= i < pre.len() && #[trigger] pre[i].collection == c {
                            let i = choose|i: int| 0 <= i < pre.len() && #[trigger] pre[i].collection == c;
                            assert(self.entries()[i].collection == c);
                        }
                        if exists|i: int| 0 <= i < self.entries().len() && #[trigger] self.entries()[i].collection == c {
                            let i = choose|i: int| 0 <= i < self.entries().len() && #[trigger] self.entries()[i].collection == c;
                            assert(pre[i].collection == c);
                        }
                    }
                    assert(self.entries()[pre.len() as int].collection == collection);
                }
            },
        }
        Ok(())
    }

    /// The net owed to `seller` for a sale of `amount` in `collection`, after
    /// reserving `amount * bps / 10_000` for the recipient.
    ///
    /// Requires a registered configuration, `amount > 0` and the collection's
    /// authorization. A `Disabled` configuration settles in full.
    pub fn distribute(&self, inv: &mut Invocation, collection: Address, seller: Address, amount: i128) -> (r: Result<i128, ForgeError>)
        requires
            self.wf(),
        ensures
            match self.royalty(collection) {
                None => {
                    &&& r == Err::<i128, ForgeError>(ForgeError::NotFound)
                    &&& final(inv).records(*old(inv), Seq::empty(), Seq::empty())
                },
                Some(royalty) => if amount <= 0 {
                    &&& r == Err::<i128, ForgeError>(ForgeError::InvalidInput)
                    &&& final(inv).records(*old(inv), Seq::empty(), Seq::empty())
                } else {
                    &&& r == net_of_sale(royalty, amount)
                    &&& final(inv).records(*old(inv), seq![collection], Seq::empty())
                },
            },
    {
        let royalty = match self.find(collection) {
            Some(idx) => self.entries[idx],
            None => return Err(ForgeError::NotFound),
        };
        royalty.distribute(inv, seller, amount)
    }

    /// The stored royalty configuration for `collection`.
    pub fn get_royalty(&self, collection: Address) -> (r: Result<Royalty, ForgeError>)
        requires
            self.wf(),
        ensures
            r == (match self.royalty(collection) {
                Some(royalty) => Ok::<Royalty, ForgeError>(royalty),
                None => Err(ForgeError::NotFound),
            }),
    {
        match self.find(collection) {
            Some(idx) => Ok(self.entries[idx]),
            None => Err(ForgeError::NotFound),
        }
    }

    /// Position of the configuration for `collection`, if any.
    fn find(&self, collection: Address) -> (r: Option<usize>)
        requires
            self.wf(),
        ensures
            match r {
                Some(i) => {
                    &&& i < self.entries().len()
                    &&& self.entries()[i as int].collection == collection
                    &&& self.royalty(collection) == Some(self.entries()[i as int])
                },
                None => self.royalty(collection) is None,
            },
    {
        let mut i: usize = 0;
        while i < self.entries.len()
            invariant
                self.wf(),
                i <= self.entries@.len(),
                forall|j: int| 0 <= j < i ==> #[trigger] self.entries@[j].collection != collection,
            decreases self.entries@.len() - i,
        {
            if self.entries[i].collection == collection {
                proof {
                    let k = choose|k: int|
                        0 <= k < self.entries().len() && #[trigger] self.entries()[k].collection == collection;
                    if k < i {
                        assert(self.entries()[k].collection != self.entries()[i as int].collection);
                    } else if k > i {
                        assert(self.entries()[i as int].collection != self.entries()[k].collection);
                    }
                }
                return Some(i);
            }
            i = i + 1;
        }
        None
    }
}

} // verus!
