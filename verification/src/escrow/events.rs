//! Escrow lifecycle events. The escrow id is the event's topic so indexers can
//! filter by escrow cheaply; the payload carries the full record so no read
//! call is needed to reconstruct state.

use vstd::prelude::*;

use crate::escrow::EscrowData;

verus! {

/// Published when an escrow is created.
#[derive(Clone, Copy, Debug, PartialEq, Eq, Structural)]
pub struct EscrowCreated {
    pub escrow_id: u64,
    pub data: EscrowData,
}

/// Published when the buyer funds an escrow.
#[derive(Clone, Copy, Debug, PartialEq, Eq, Structural)]
pub struct Deposited {
    pub escrow_id: u64,
    pub data: EscrowData,
}

/// Published when the funds are released to the seller.
#[derive(Clone, Copy, Debug, PartialEq, Eq, Structural)]
pub struct Released {
    pub escrow_id: u64,
    pub data: EscrowData,
}

/// Published when the funds are refunded to the buyer.
#[derive(Clone, Copy, Debug, PartialEq, Eq, Structural)]
pub struct Refunded {
    pub escrow_id: u64,
    pub data: EscrowData,
}

/// Published when a party raises a dispute.
#[derive(Clone, Copy, Debug, PartialEq, Eq, Structural)]
pub struct Disputed {
    pub escrow_id: u64,
    pub data: EscrowData,
}

/// Published when the arbiter resolves a dispute.
#[derive(Clone, Copy, Debug, PartialEq, Eq, Structural)]
pub struct Resolved {
    pub escrow_id: u64,
    pub data: EscrowData,
    pub in_favor_of_seller: bool,
}

/// Published when the buyer cancels an unfunded escrow.
#[derive(Clone, Copy, Debug, PartialEq, Eq, Structural)]
pub struct Cancelled {
    pub escrow_id: u64,
    pub data: EscrowData,
}

/// Any of the escrow contract's events.
#[derive(Clone, Copy, Debug, PartialEq, Eq, Structural)]
pub enum EscrowEvent {
    EscrowCreated(EscrowCreated),
    Deposited(Deposited),
    Released(Released),
    Refunded(Refunded),
    Disputed(Disputed),
    Resolved(Resolved),
    Cancelled(Cancelled),
}

/// Publish `EscrowCreated` for `escrow`.
pub fn escrow_created(log: &mut Vec<EscrowEvent>, escrow: &EscrowData)
    ensures
        final(log)@ == old(log)@.push(
            EscrowEvent::EscrowCreated(EscrowCreated { escrow_id: escrow.escrow_id, data: *escrow }),
        ),
{
    log.push(EscrowEvent::EscrowCreated(EscrowCreated { escrow_id: escrow.escrow_id, data: *escrow }));
}

/// Publish `Deposited` for `escrow`.
pub fn deposited(log: &mut Vec<EscrowEvent>, escrow: &EscrowData)
    ensures
        final(log)@ == old(log)@.push(
            EscrowEvent::Deposited(Deposited { escrow_id: escrow.escrow_id, data: *escrow }),
        ),
{
    log.push(EscrowEvent::Deposited(Deposited { escrow_id: escrow.escrow_id, data: *escrow }));
}

/// Publish `Released` for `escrow`.
pub fn released(log: &mut Vec<EscrowEvent>, escrow: &EscrowData)
    ensures
        final(log)@ == old(log)@.push(
            EscrowEvent::Released(Released { escrow_id: escrow.escrow_id, data: *escrow }),
        ),
{
    log.push(EscrowEvent::Released(Released { escrow_id: escrow.escrow_id, data: *escrow }));
}

/// Publish `Refunded` for `escrow`.
pub fn refunded(log: &mut Vec<EscrowEvent>, escrow: &EscrowData)
    ensures
        final(log)@ == old(log)@.push(
            EscrowEvent::Refunded(Refunded { escrow_id: escrow.escrow_id, data: *escrow }),
        ),
{
    log.push(EscrowEvent::Refunded(Refunded { escrow_id: escrow.escrow_id, data: *escrow }));
}

/// Publish `Disputed` for `escrow`.
pub fn disputed(log: &mut Vec<EscrowEvent>, escrow: &EscrowData)
    ensures
        final(log)@ == old(log)@.push(
            EscrowEvent::Disputed(Disputed { escrow_id: escrow.escrow_id, data: *escrow }),
        ),
{
    log.push(EscrowEvent::Disputed(Disputed { escrow_id: escrow.escrow_id, data: *escrow }));
}

/// Publish `Resolved` for `escrow` with the arbiter's decision.
pub fn resolved(log: &mut Vec<EscrowEvent>, escrow: &EscrowData, in_favor_of_seller: bool)
    ensures
        final(log)@ == old(log)@.push(
            EscrowEvent::Resolved(
                Resolved { escrow_id: escrow.escrow_id, data: *escrow, in_favor_of_seller },
            ),
        ),
{
    log.push(
        EscrowEvent::Resolved(Resolved { escrow_id: escrow.escrow_id, data: *escrow, in_favor_of_seller }),
    );
}

/// Publish `Cancelled` for `escrow`.
pub fn cancelled(log: &mut Vec<EscrowEvent>, escrow: &EscrowData)
    ensures
        final(log)@ == old(log)@.push(
            EscrowEvent::Cancelled(Cancelled { escrow_id: escrow.escrow_id, data: *escrow }),
        ),
{
    log.push(EscrowEvent::Cancelled(Cancelled { escrow_id: escrow.escrow_id, data: *escrow }));
}

} // verus!
