//! Verified core of the Soroban Forge contract suite.
//!
//! Each contract of the suite (escrow, DAO governance, vesting, marketplace
//! royalties, multi-signature wallet) is modelled here as a state machine over
//! the contract's storage: every entrypoint is a verified function from the
//! stored state, the call's arguments and what the ledger host supplies
//! (time, the token contract's verdict) to a result, a new state, and the
//! observable effects of the call (authorizations demanded, token transfers
//! made, events published).

pub mod errors;
pub mod ledger;
pub mod escrow;
pub mod vesting;
pub mod marketplace_royalties;
pub mod multi_sig_wallet;
pub mod dao_governance;
