//! Token vesting: a beneficiary's tokens are released linearly over time,
//! optionally behind a cliff.
//!
//! Timings are durations in seconds from the schedule's start (the ledger
//! time at creation):
//!
//! ```text
//! start ......... start+cliff ................... start+duration
//!   |             (claims become possible)        (fully vested)
//!   |  Locked    |            Vesting (linear)  |
//! ```
//!
//! The vested amount at ledger time `t` is `0` before `start + cliff`,
//! `total_amount` from `start + duration` on, and in between
//! `total_amount * (t - (start + cliff)) / (duration - cliff)`, rounded down
//! so claims never round up.

pub mod laws;

use vstd::prelude::*;

use crate::errors::ForgeError;
use crate::ledger::{fits_i128, next_id, Address, Invocation};

verus! {

/// Lifecycle state of a vesting schedule.
#[derive(Clone, Copy, Debug, PartialEq, Eq, Structural)]
pub enum VestingStatus {
    /// Before the cliff has been reached.
    Locked,
    /// Past the cliff; tokens are vesting linearly.
    Vesting,
    /// Fully vested and claimed.
    Completed,
    /// Schedule was terminated before completion (reserved; no entrypoint
    /// reaches it).
    Revoked,
}

/// A single token-vesting schedule.
#[derive(Clone, Copy, Debug, PartialEq, Eq, Structural)]
pub struct VestingSchedule {
    /// Recipient of the vested tokens.
    pub beneficiary: Address,
    /// Token contract whose balance is drawn down.
    pub token: Address,
    /// Total amount to vest linearly between `cliff` and `duration`.
    pub total_amount: i128,
    /// Ledger timestamp at which vesting begins (creation time).
    pub start: u64,
    /// Seconds after `start` at which claims become possible.
    pub cliff: u64,
    /// Seconds after `start` at which the schedule is fully vested.
    pub duration: u64,
    /// Amount already claimed by the beneficiary.
    pub claimed: i128,
    /// Lifecycle state as of the last write.
    pub status: VestingStatus,
}

/// A schedule as `create_schedule` admits it: a positive total and a cliff
/// no later than the end of vesting.
pub open spec fn valid_schedule(s: VestingSchedule) -> bool {
    &&& s.total_amount > 0
    &&& s.cliff <= s.duration
}

/// Time at which claims become possible.
pub open spec fn cliff_time(s: VestingSchedule) -> int {
    s.start + s.cliff
}

/// Time at which the schedule is fully vested.
pub open spec fn end_time(s: VestingSchedule) -> int {
    s.start + s.duration
}

/// The amount vested at ledger time `now`, or `ArithmeticOverflow` when a
/// timestamp or the intermediate `total * elapsed` product does not fit.
pub open spec fn vested(s: VestingSchedule, now: u64) -> Result<i128, ForgeError> {
    if cliff_time(s) > u64::MAX {
        Err(ForgeError::ArithmeticOverflow)
    } else if now < cliff_time(s) {
        Ok(0)
    } else if end_time(s) > u64::MAX {
        Err(ForgeError::ArithmeticOverflow)
    } else if now >= end_time(s) {
        Ok(s.total_amount)
    } else if !fits_i128(s.total_amount * (now - cliff_time(s))) {
        Err(ForgeError::ArithmeticOverflow)
    } else {
        Ok(((s.total_amount * (now - cliff_time(s))) / (end_time(s) - cliff_time(s))) as i128)
    }
}

/// The amount claimable at ledger time `now`: vested minus claimed.
pub open spec fn claimable_at(s: VestingSchedule, now: u64) -> Result<i128, ForgeError> {
    match vested(s, now) {
        Err(e) => Err(e),
        Ok(v) => if fits_i128(v - s.claimed) {
            Ok((v - s.claimed) as i128)
        } else {
            Err(ForgeError::ArithmeticOverflow)
        },
    }
}

/// The lifecycle status at ledger time `now`, derived from time and the
/// claimed amount.
pub open spec fn status_at(s: VestingSchedule, now: u64) -> Result<VestingStatus, ForgeError> {
    if s.claimed >= s.total_amount {
        Ok(VestingStatus::Completed)
    } else if cliff_time(s) > u64::MAX {
        Err(ForgeError::ArithmeticOverflow)
    } else if now < cliff_time(s) {
        Ok(VestingStatus::Locked)
    } else {
        Ok(VestingStatus::Vesting)
    }
}

/// What a claim at ledger time `now` pays and the schedule it leaves behind,
/// or the error it answers with.
pub open spec fn claim_outcome(s: VestingSchedule, now: u64) -> Result<(i128, VestingSchedule), ForgeError> {
    match claimable_at(s, now) {
        Err(e) => Err(e),
        Ok(amount) => if amount == 0 {
            Ok((0, s))
        } else if !fits_i128(s.claimed + amount) {
            Err(ForgeError::ArithmeticOverflow)
        } else {
            let claimed = (s.claimed + amount) as i128;
            let s1 = VestingSchedule { claimed, ..s };
            match status_at(s1, now) {
                Err(e) => Err(e),
                Ok(status) => Ok((amount, VestingSchedule { status, ..s1 })),
            }
        },
    }
}

/// The id and schedule a creation call opens as the one after the
/// `count`-th, at ledger time `now`, or the error it answers with.
pub open spec fn opening(
    now: u64,
    count: u64,
    beneficiary: Address,
    token: Address,
    total_amount: i128,
    cliff: u64,
    duration: u64,
) -> Result<(u64, VestingSchedule), ForgeError> {
    if total_amount <= 0 || duration == 0 || cliff > duration {
        Err(ForgeError::InvalidInput)
    } else if count == u64::MAX || now + cliff > u64::MAX {
        Err(ForgeError::ArithmeticOverflow)
    } else {
        Ok(
            (
                (count + 1) as u64,
                VestingSchedule {
                    beneficiary,
                    token,
                    total_amount,
                    start: now,
                    cliff,
                    duration,
                    claimed: 0,
                    // Derived from time: without a cliff the schedule vests at once.
                    status: if cliff == 0 {
                        VestingStatus::Vesting
                    } else {
                        VestingStatus::Locked
                    },
                },
            ),
        )
    }
}

/// The authorizations a creation call demands: the beneficiary's, once the
/// terms passed validation.
pub open spec fn opening_signers(beneficiary: Address, total_amount: i128, cliff: u64, duration: u64) -> Seq<Address> {
    if total_amount <= 0 || duration == 0 || cliff > duration {
        Seq::empty()
    } else {
        seq![beneficiary]
    }
}

impl VestingSchedule {
    /// Whether the schedule has the shape `create_schedule` admits.
    pub fn is_valid(&self) -> (b: bool)
        ensures
            b == valid_schedule(*self),
    {
        self.total_amount > 0 && self.cliff <= self.duration
    }

    /// Open a new schedule as the one after the `count`-th: validate the
    /// terms, demand the beneficiary's authorization, take the next id and
    /// start vesting at the current ledger time.
    pub fn open(
        inv: &mut Invocation,
        count: u64,
        beneficiary: Address,
        token: Address,
        total_amount: i128,
        cliff: u64,
        duration: u64,
    ) -> (r: Result<(u64, VestingSchedule), ForgeError>)
        ensures
            r == opening(old(inv).now, count, beneficiary, token, total_amount, cliff, duration),
            final(inv).records(*old(inv), opening_signers(beneficiary, total_amount, cliff, duration), Seq::empty()),
    {
        if total_amount <= 0 {
            return Err(ForgeError::InvalidInput);
        }
        if duration == 0 {
            return Err(ForgeError::InvalidInput);
        }
        if cliff > duration {
            return Err(ForgeError::InvalidInput);
        }
        inv.require_auth(beneficiary);

        let id = next_id(count)?;
        let start = inv.now;
        let mut schedule = VestingSchedule {
            beneficiary,
            token,
            total_amount,
            start,
            cliff,
            duration,
            claimed: 0,
            status: VestingStatus::Locked,
        };
        // Derive the initial status from time (cliff == 0 starts `Vesting`).
        schedule.status = current_status(&schedule, start)?;
        Ok((id, schedule))
    }

    /// Claim what vested and is not yet claimed: the beneficiary authorizes;
    /// answers the amount paid and the updated schedule.
    pub fn claim(&self, inv: &mut Invocation) -> (r: Result<(i128, VestingSchedule), ForgeError>)
        requires
            valid_schedule(*self),
        ensures
            r == claim_outcome(*self, old(inv).now),
            final(inv).records(*old(inv), seq![self.beneficiary], Seq::empty()),
            r matches Ok((_, s)) ==> valid_schedule(s),
    {
        inv.require_auth(self.beneficiary);

        let now = inv.now;
        let amount = claimable_amount(self, now)?;
        if amount == 0 {
            return Ok((0, *self));
        }
        let mut schedule = *self;
        schedule.claimed = match self.claimed.checked_add(amount) {
            Some(c) => c,
            None => return Err(ForgeError::ArithmeticOverflow),
        };
        schedule.status = current_status(&schedule, now)?;
        proof {
            assert(status_at(VestingSchedule { claimed: schedule.claimed, ..*self }, now) == Ok::<
                VestingStatus,
                ForgeError,
            >(schedule.status));
        }
        Ok((amount, schedule))
    }
}

/// The vesting contract's storage: the schedules, whose ids run from 1 upward
/// in creation order.
pub struct Vesting {
    schedules: Vec<VestingSchedule>,
}

impl Vesting {
    /// Schedules in creation order; the schedule with id `i` is at `i - 1`.
    pub closed spec fn schedules(self) -> Seq<VestingSchedule> {
        self.schedules@
    }

    /// How many schedules have been created.
    pub open spec fn count(self) -> nat {
        self.schedules().len()
    }

    /// The schedule stored under `id`, if any.
    pub open spec fn schedule(self, id: u64) -> Option<VestingSchedule> {
        if 1 <= id <= self.count() {
            Some(self.schedules()[id - 1])
        } else {
            None
        }
    }

    /// The counter fits in a `u64` and every stored schedule is valid.
    pub open spec fn wf(self) -> bool {
        &&& self.count() <= u64::MAX
        &&& forall|i: int| 0 <= i < self.count() ==> valid_schedule(#[trigger] self.schedules()[i])
    }

    /// A contract with no schedules yet.
    pub fn new() -> (v: Vesting)
        ensures
            v.wf(),
            v.schedules() == Seq::<VestingSchedule>::empty(),
    {
        Vesting { schedules: Vec::new() }
    }

    /// Create a new vesting schedule for `beneficiary` and return its stable id.
    ///
    /// Requires `total_amount > 0`, `duration > 0` and `cliff <= duration`;
    /// the beneficiary authorizes. The schedule starts at the current ledger
    /// time, `Locked` behind a cliff or `Vesting` right away without one.
    pub fn create_schedule(
        &mut self,
        inv: &mut Invocation,
        beneficiary: Address,
        token: Address,
        total_amount: i128,
        cliff: u64,
        duration: u64,
    ) -> (r: Result<u64, ForgeError>)
        requires
            old(self).wf(),
        ensures
            final(self).wf(),
            final(inv).records(*old(inv), opening_signers(beneficiary, total_amount, cliff, duration), Seq::empty()),
            match opening(old(inv).now, old(self).count() as u64, beneficiary, token, total_amount, cliff, duration) {
                Ok((id, s)) => {
                    &&& r == Ok::<u64, ForgeError>(id)
                    &&& final(self).schedules() == old(self).schedules().push(s)
                },
                Err(e) => {
                    &&& r == Err::<u64, ForgeError>(e)
                    &&& final(self).schedules() == old(self).schedules()
                },
            },
    {
        let (id, schedule) = VestingSchedule::open(
            inv,
            self.schedules.len() as u64,
            beneficiary,
            token,
            total_amount,
            cliff,
            duration,
        )?;
        self.schedules.push(schedule);
        Ok(id)
    }

    /// Claim the vested-but-unclaimed amount as of the current ledger time.
    ///
    /// Requires the beneficiary. Returns exactly what vested since the last
    /// claim, or `0` (with nothing written) when nothing is claimable.
    pub fn claim(&mut self, inv: &mut Invocation, schedule_id: u64) -> (r: Result<i128, ForgeError>)
        requires
            old(self).wf(),
        ensures
            final(self).wf(),
            match old(self).schedule(schedule_id) {
                None => {
                    &&& r == Err::<i128, ForgeError>(ForgeError::NotFound)
                    &&& final(self).schedules() == old(self).schedules()
                    &&& final(inv).records(*old(inv), Seq::empty(), Seq::empty())
                },
                Some(s) => {
                    &&& final(inv).records(*old(inv), seq![s.beneficiary], Seq::empty())
                    &&& match claim_outcome(s, old(inv).now) {
                        Ok((amount, s1)) => {
                            &&& r == Ok::<i128, ForgeError>(amount)
                            &&& final(self).schedules() == old(self).schedules().update(schedule_id - 1, s1)
                        },
                        Err(e) => {
                            &&& r == Err::<i128, ForgeError>(e)
                            &&& final(self).schedules() == old(self).schedules()
                        },
                    }
                },
            },
    {
        let schedule = self.get_schedule(schedule_id)?;
        let (amount, claimed) = schedule.claim(inv)?;
        if amount == 0 {
            return Ok(0);
        }
        assert(self.schedules@ == old(self).schedules@);
        assert(1 <= schedule_id <= self.schedules.len());
        self.schedules.set((schedule_id - 1) as usize, claimed);
        assert(self.schedules() =~= old(self).schedules().update(schedule_id - 1, claimed));
        Ok(amount)
    }

    /// The amount currently claimable (no state change).
    pub fn claimable(&self, inv: &Invocation, schedule_id: u64) -> (r: Result<i128, ForgeError>)
        requires
            self.wf(),
        ensures
            r == (match self.schedule(schedule_id) {
                Some(s) => claimable_at(s, inv.now),
                None => Err(ForgeError::NotFound),
            }),
    {
        let schedule = self.get_schedule(schedule_id)?;
        claimable_amount(&schedule, inv.now)
    }

    /// The current lifecycle status, derived from the ledger time and the
    /// claimed amount rather than the stored field.
    pub fn get_status(&self, inv: &Invocation, schedule_id: u64) -> (r: Result<VestingStatus, ForgeError>)
        requires
            self.wf(),
        ensures
            r == (match self.schedule(schedule_id) {
                Some(s) => status_at(s, inv.now),
                None => Err(ForgeError::NotFound),
            }),
    {
        let schedule = self.get_schedule(schedule_id)?;
        current_status(&schedule, inv.now)
    }

    /// Load a schedule by id.
    fn get_schedule(&self, schedule_id: u64) -> (r: Result<VestingSchedule, ForgeError>)
        requires
            self.wf(),
        ensures
            r == (match self.schedule(schedule_id) {
                Some(s) => Ok::<VestingSchedule, ForgeError>(s),
                None => Err(ForgeError::NotFound),
            }),
    {
        if schedule_id == 0 || schedule_id > self.schedules.len() as u64 {
            return Err(ForgeError::NotFound);
        }
        Ok(self.schedules[(schedule_id - 1) as usize])
    }
}

/// Derive the lifecycle status from ledger time and claimed amount.
pub fn current_status(schedule: &VestingSchedule, now: u64) -> (r: Result<VestingStatus, ForgeError>)
    ensures
        r == status_at(*schedule, now),
{
    if schedule.claimed >= schedule.total_amount {
        return Ok(VestingStatus::Completed);
    }
    let cliff_time = match schedule.start.checked_add(schedule.cliff) {
        Some(t) => t,
        None => return Err(ForgeError::ArithmeticOverflow),
    };
    if now < cliff_time {
        return Ok(VestingStatus::Locked);
    }
    Ok(VestingStatus::Vesting)
}

/// Vested amount at ledger time `now`, rounded down so claims never round up.
pub fn vested_amount(schedule: &VestingSchedule, now: u64) -> (r: Result<i128, ForgeError>)
    requires
        valid_schedule(*schedule),
    ensures
        r == vested(*schedule, now),
{
    let cliff_time = match schedule.start.checked_add(schedule.cliff) {
        Some(t) => t,
        None => return Err(ForgeError::ArithmeticOverflow),
    };
    if now < cliff_time {
        return Ok(0);
    }
    let end_time = match schedule.start.checked_add(schedule.duration) {
        Some(t) => t,
        None => return Err(ForgeError::ArithmeticOverflow),
    };
    if now >= end_time {
        return Ok(schedule.total_amount);
    }
    // `cliff <= duration`, so the vesting period is not negative; a zero period
    // means everything vests at once, which the branch above already returned.
    let period = end_time - cliff_time;
    if period == 0 {
        return Ok(schedule.total_amount);
    }
    let elapsed = now - cliff_time;
    let product = match schedule.total_amount.checked_mul(elapsed as i128) {
        Some(p) => p,
        None => return Err(ForgeError::ArithmeticOverflow),
    };
    assert(product >= 0) by (nonlinear_arith)
        requires
            product == schedule.total_amount * elapsed,
            schedule.total_amount > 0,
    ;
    Ok(product / (period as i128))
}

/// Claimable amount at ledger time `now`: vested minus claimed.
pub fn claimable_amount(schedule: &VestingSchedule, now: u64) -> (r: Result<i128, ForgeError>)
    requires
        valid_schedule(*schedule),
    ensures
        r == claimable_at(*schedule, now),
{
    let vested = vested_amount(schedule, now)?;
    match vested.checked_sub(schedule.claimed) {
        Some(c) => Ok(c),
        None => Err(ForgeError::ArithmeticOverflow),
    }
}

} // verus!
