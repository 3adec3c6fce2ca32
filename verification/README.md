# escrow

Two Soroban contracts for a freelance marketplace, with their decisions
verified by Verus:

- the **escrow** contract: jobs posted with funds held by the contract,
  accepted, submitted, approved (paying the freelancer less a platform fee,
  reduced by discount tiers), cancelled with a full refund (a query reports
  whether a job is still within its cancellation grace period), disputed
  (collecting the dispute fee) and resolved; milestone jobs; SLA penalties;
  token allow-lists, white- and blacklists checked on every call a client,
  freelancer or forwarder makes, trusted forwarders and fee withdrawal;
- the **retainer** contract: recurring engagements renewed at fixed intervals
  up to a maximum number of renewals, and records of jobs moved to and from
  other chains.

## Layout

- `src/` — the verified library. Each contract is a plain value
  (`EscrowContract`, `RetainerContract`) whose entry points return either a
  refusal or the new state together with what the host must do: the
  authorizations to demand, the token transfers to make and the events to
  publish. Contracts are stated over a mathematical model of the storage
  (`EscrowView`, `RetainerState`).
  - `store.rs` — keyed storage with a `Map` view;
  - `address.rs` — account addresses and transfer parties;
  - `escrow_types.rs`, `fees.rs`, `escrow_spec.rs`, `escrow.rs` — the escrow
    contract, its fee arithmetic and its specification;
  - `retainer.rs` — the retainer contract;
  - `escrow_laws.rs`, `retainer_laws.rs` — properties that span calls:
    invariants kept by every operation, the job lifecycle, fee bounds,
    read-after-write of the access lists and more.
- `tests/` — executable tests of the library.
- `app/` — the deployed contracts: Soroban types, storage, authorization,
  token transfers and events around the verified core.
