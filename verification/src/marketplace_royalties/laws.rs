//! Laws of the royalty split: the seller's net and the recipient's share
//! partition the sale, and a rate within 100% never makes the net negative.

use vstd::prelude::*;

use vstd::arithmetic::div_mod::{lemma_div_is_ordered, lemma_div_pos_is_pos};

use crate::ledger::fits_i128;
use crate::marketplace_royalties::{net_of_sale, royalty_share, Royalty, RoyaltyStatus, MAX_BPS};

verus! {

/// For a configuration within 100% and a positive sale, the net owed to the
/// seller lies between `0` and the sale amount, and together with the
/// recipient's share it makes up the whole sale. At 0 bps the seller gets
/// everything, at 10,000 bps nothing.
pub proof fn law_net_settles_within_the_sale(r: Royalty, amount: i128)
    requires
        r.bps <= MAX_BPS,
        amount > 0,
        net_of_sale(r, amount) is Ok,
    ensures
        0 <= net_of_sale(r, amount)->Ok_0 <= amount,
        r.status == RoyaltyStatus::Active ==> net_of_sale(r, amount)->Ok_0 + royalty_share(
            amount as int,
            r.bps as int,
        ) == amount,
        r.status == RoyaltyStatus::Active && r.bps == 0 ==> net_of_sale(r, amount)->Ok_0 == amount,
        r.status == RoyaltyStatus::Active && r.bps == MAX_BPS ==> net_of_sale(r, amount)->Ok_0 == 0,
{
    lemma_share_within_sale(amount as int, r.bps as int);
}

/// A positive sale at a rate within 100% is refused only when the
/// intermediate `amount * bps` product does not fit in an `i128`.
pub proof fn law_only_overflow_refuses_a_sale(r: Royalty, amount: i128)
    requires
        r.bps <= MAX_BPS,
        amount > 0,
        r.status == RoyaltyStatus::Disabled || fits_i128(amount * r.bps),
    ensures
        net_of_sale(r, amount) is Ok,
{
    lemma_share_within_sale(amount as int, r.bps as int);
}

/// The rounded-down share of a positive sale at a rate within 100% lies
/// between `0` and the sale.
proof fn lemma_share_within_sale(amount: int, bps: int)
    requires
        amount > 0,
        0 <= bps <= 10_000,
    ensures
        0 <= royalty_share(amount, bps) <= amount,
        bps == 0 ==> royalty_share(amount, bps) == 0,
        bps == 10_000 ==> royalty_share(amount, bps) == amount,
{
    assert(0 <= amount * bps <= amount * 10_000) by (nonlinear_arith)
        requires
            amount > 0,
            0 <= bps <= 10_000,
    ;
    lemma_div_pos_is_pos(amount * bps, 10_000);
    lemma_div_is_ordered(amount * bps, amount * 10_000, 10_000);
    assert((amount * 10_000) / 10_000 == amount) by (nonlinear_arith);
    if bps == 0 {
        assert(amount * bps == 0) by (nonlinear_arith)
            requires
                bps == 0,
        ;
    }
}

} // verus!
