# soroban_forge

Verified core of the Soroban Forge contract suite: escrow, vesting,
marketplace royalties, multi-signature wallet and DAO governance.

Each contract is a state machine over its storage. An entrypoint is a
function from the stored state, its arguments and what the ledger host
supplies (the ledger time, the contract's own address, whether the token
contract honours a transfer) to a result and a new state, together with the
effects it records on the `Invocation`: the authorizations it demands and
the token transfers it makes. Contracts, laws and proofs are checked by
Verus.

Layout:

- `src/` — the verified library.
  - `errors.rs` — `ForgeError` and its on-chain codes.
  - `ledger.rs` — addresses, the invocation context, shared helpers.
  - `escrow.rs`, `escrow/events.rs`, `escrow/laws.rs` — three-party escrow.
  - `vesting.rs`, `vesting/laws.rs` — linear vesting with a cliff.
  - `marketplace_royalties.rs`, `marketplace_royalties/laws.rs` — royalty splits.
  - `multi_sig_wallet.rs`, `multi_sig_wallet/laws.rs` — M-of-N wallet.
  - `dao_governance.rs`, `dao_governance/laws.rs` — proposals and votes.
- `tests/` — tests of the library, run against the compiled crate.
- `app/` — the Soroban contracts themselves: storage, `require_auth`, token
  client calls, events and TTL bumps around the library's state machines.
