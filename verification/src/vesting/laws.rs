//! Laws of the vesting contract: the vested amount never exceeds the total
//! and never decreases with time, and claims pay exactly what vested.

use vstd::prelude::*;

use vstd::arithmetic::div_mod::{lemma_div_is_ordered, lemma_div_pos_is_pos, lemma_multiply_divide_lt};
use vstd::arithmetic::mul::lemma_mul_inequality;

use crate::ledger::{fits_i128, Address};
use crate::vesting::{
    claim_outcome, claimable_at, cliff_time, end_time, opening, valid_schedule, vested, VestingSchedule,
    VestingStatus,
};

verus! {

/// The vested amount of a valid schedule lies between `0` and the total: `0`
/// before the cliff, the whole total from the end of vesting on.
pub proof fn law_vested_stays_within_total(s: VestingSchedule, now: u64)
    requires
        valid_schedule(s),
        vested(s, now) is Ok,
    ensures
        0 <= vested(s, now)->Ok_0 <= s.total_amount,
        now < cliff_time(s) ==> vested(s, now)->Ok_0 == 0,
        now >= end_time(s) ==> vested(s, now)->Ok_0 == s.total_amount,
{
    if cliff_time(s) <= now < end_time(s) {
        let e = now - cliff_time(s);
        let p = end_time(s) - cliff_time(s);
        let x = s.total_amount * e;
        assert(0 <= x) by (nonlinear_arith)
            requires
                s.total_amount > 0,
                e >= 0,
                x == s.total_amount * e,
        ;
        lemma_div_pos_is_pos(x, p);
        lemma_mul_inequality(e, p, s.total_amount as int);
        assert(x == e * s.total_amount) by (nonlinear_arith)
            requires
                x == s.total_amount * e,
        ;
        assert(x < p * s.total_amount) by (nonlinear_arith)
            requires
                e < p,
                s.total_amount > 0,
                x == s.total_amount * e,
        ;
        lemma_multiply_divide_lt(x, p, s.total_amount as int);
    }
}

/// The vested amount never decreases as ledger time moves forward.
pub proof fn law_vested_is_monotone(s: VestingSchedule, t1: u64, t2: u64)
    requires
        valid_schedule(s),
        t1 <= t2,
        vested(s, t1) is Ok,
        vested(s, t2) is Ok,
    ensures
        vested(s, t1)->Ok_0 <= vested(s, t2)->Ok_0,
{
    law_vested_stays_within_total(s, t1);
    law_vested_stays_within_total(s, t2);
    if cliff_time(s) <= t1 && t2 < end_time(s) {
        let p = end_time(s) - cliff_time(s);
        let e1 = t1 - cliff_time(s);
        let e2 = t2 - cliff_time(s);
        lemma_mul_inequality(e1, e2, s.total_amount as int);
        assert(s.total_amount * e1 <= s.total_amount * e2) by (nonlinear_arith)
            requires
                e1 * s.total_amount <= e2 * s.total_amount,
        ;
        lemma_div_is_ordered(s.total_amount * e1, s.total_amount * e2, p);
    }
}

/// A successful claim pays exactly what vested since the previous claim and
/// records the vested amount as claimed: claiming again at the same time
/// pays nothing.
pub proof fn law_claim_pays_the_vested_increase(s: VestingSchedule, now: u64)
    requires
        valid_schedule(s),
        claim_outcome(s, now) is Ok,
    ensures
        vested(s, now) is Ok,
        claim_outcome(s, now)->Ok_0.1.claimed == vested(s, now)->Ok_0,
        claim_outcome(s, now)->Ok_0.0 == vested(s, now)->Ok_0 - s.claimed,
        claimable_at(claim_outcome(s, now)->Ok_0.1, now) == Ok::<i128, crate::errors::ForgeError>(0),
        claim_outcome(s, now)->Ok_0.1 == (VestingSchedule {
            claimed: claim_outcome(s, now)->Ok_0.1.claimed,
            status: claim_outcome(s, now)->Ok_0.1.status,
            ..s
        }),
{
}

/// The schedule after claims at the ledger times `times`, in order, and what
/// those claims paid in all; a failed claim changes nothing and pays nothing.
pub open spec fn claims(s: VestingSchedule, times: Seq<u64>) -> (VestingSchedule, int)
    decreases times.len(),
{
    if times.len() == 0 {
        (s, 0)
    } else {
        let (s1, paid) = claims(s, times.drop_last());
        match claim_outcome(s1, times.last()) {
            Ok((amount, s2)) => (s2, paid + amount),
            Err(_) => (s1, paid),
        }
    }
}

/// Repeated claims never overpay or underpay: over claims at non-decreasing
/// ledger times on a fresh schedule, the total paid is what the schedule
/// records as claimed, never more than the total amount, and every single
/// claim pays a non-negative amount. When the last claim succeeds, the total
/// paid is exactly the amount vested at its time: each claim pays what vested
/// at its time minus what the earlier claims paid.
pub proof fn law_repeated_claims_never_overpay(s: VestingSchedule, times: Seq<u64>)
    requires
        valid_schedule(s),
        s.claimed == 0,
        forall|i: int, j: int| 0 <= i <= j < times.len() ==> times[i] <= times[j],
    ensures
        claims(s, times).1 == claims(s, times).0.claimed,
        0 <= claims(s, times).0.claimed <= s.total_amount,
        valid_schedule(claims(s, times).0),
        claims(s, times).0.claimed == 0 || exists|i: int|
            0 <= i < times.len() && vested(s, #[trigger] times[i]) == Ok::<i128, crate::errors::ForgeError>(
                claims(s, times).0.claimed,
            ),
        claims(s, times).0 == (VestingSchedule {
            claimed: claims(s, times).0.claimed,
            status: claims(s, times).0.status,
            ..s
        }),
        times.len() > 0 ==> match claim_outcome(claims(s, times.drop_last()).0, times.last()) {
            Ok((amount, _)) => {
                &&& 0 <= amount
                &&& amount == claims(s, times).1 - claims(s, times.drop_last()).1
                &&& vested(s, times.last()) is Ok
                &&& claims(s, times).1 == vested(s, times.last())->Ok_0
            },
            Err(_) => claims(s, times) == claims(s, times.drop_last()),
        },
    decreases times.len(),
{
    if times.len() > 0 {
        let prefix = times.drop_last();
        law_repeated_claims_never_overpay(s, prefix);
        let (s1, paid) = claims(s, prefix);
        let t = times.last();
        assert(vested(s1, t) == vested(s, t));
        if claim_outcome(s1, t) is Ok {
            law_claim_pays_the_vested_increase(s1, t);
            law_vested_stays_within_total(s, t);
            if s1.claimed != 0 {
                let i = choose|i: int|
                    0 <= i < prefix.len() && vested(s, #[trigger] prefix[i]) == Ok::<
                        i128,
                        crate::errors::ForgeError,
                    >(s1.claimed);
                assert(prefix[i] == times[i]);
                law_vested_is_monotone(s, prefix[i], t);
            }
            assert(times[times.len() - 1] == t);
        } else {
            if s1.claimed != 0 {
                let i = choose|i: int|
                    0 <= i < prefix.len() && vested(s, #[trigger] prefix[i]) == Ok::<
                        i128,
                        crate::errors::ForgeError,
                    >(s1.claimed);
                assert(prefix[i] == times[i]);
            }
        }
    }
}


/// A schedule can be opened for every positive total and every cliff no
/// later than a positive duration, while ids remain and the cliff time fits a
/// timestamp: it starts now with nothing claimed, `Locked` behind a cliff and
/// `Vesting` at once without one. Anything else is refused.
pub proof fn law_schedules_open_for_admissible_terms(
    now: u64,
    count: u64,
    beneficiary: Address,
    token: Address,
    total_amount: i128,
    cliff: u64,
    duration: u64,
)
    ensures
        opening(now, count, beneficiary, token, total_amount, cliff, duration) is Ok <==> {
            &&& total_amount > 0
            &&& 0 < duration
            &&& cliff <= duration
            &&& count < u64::MAX
            &&& now + cliff <= u64::MAX
        },
        opening(now, count, beneficiary, token, total_amount, cliff, duration) matches Ok((id, s)) ==> {
            &&& id == count + 1
            &&& valid_schedule(s)
            &&& s.beneficiary == beneficiary && s.token == token
            &&& s.total_amount == total_amount && s.cliff == cliff && s.duration == duration
            &&& s.start == now
            &&& s.claimed == 0
            &&& (s.status == VestingStatus::Locked <==> cliff > 0)
            &&& (s.status == VestingStatus::Vesting <==> cliff == 0)
        },
{
}

/// The vested amount is always computable for a schedule whose end fits a
/// timestamp and whose `total * (duration - cliff)` fits an `i128`.
pub proof fn law_vested_is_computable(s: VestingSchedule, now: u64)
    requires
        valid_schedule(s),
        end_time(s) <= u64::MAX,
        fits_i128(s.total_amount * (s.duration - s.cliff)),
    ensures
        vested(s, now) is Ok,
{
    if cliff_time(s) <= now < end_time(s) {
        let e = now - cliff_time(s);
        let p = s.duration - s.cliff;
        assert(0 <= s.total_amount * e <= s.total_amount * p) by (nonlinear_arith)
            requires
                0 <= e <= p,
                s.total_amount > 0,
        ;
    }
}

/// A claim on a schedule whose vested amount can be computed and is not
/// below what was claimed always goes through: it pays the difference and
/// leaves the vested amount recorded as claimed.
pub proof fn law_claims_succeed_when_computable(s: VestingSchedule, now: u64)
    requires
        valid_schedule(s),
        vested(s, now) is Ok,
        0 <= s.claimed <= vested(s, now)->Ok_0,
    ensures
        claim_outcome(s, now) is Ok,
        claim_outcome(s, now)->Ok_0.0 == vested(s, now)->Ok_0 - s.claimed,
        claim_outcome(s, now)->Ok_0.1.claimed == vested(s, now)->Ok_0,
{
    law_vested_stays_within_total(s, now);
}

} // verus!
