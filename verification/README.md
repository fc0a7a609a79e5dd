# LiquiFact escrow

The rules of an escrow contract for invoice financing, verified with Verus.

Investors deposit one token towards an invoice's funding target. Once the target is met the SME
either withdraws the liquidity, or settles at maturity, upon which every investor claims a pro-rata
share of principal and coupon. An escrow that is cancelled while open is refunded. A compliance hold
and an operational pause stop what bears risk.

## Layout

- `src/env.rs`: the environment of a call (storage, clock, authorizations, token balance) and the
  effects that a call leaves to be done.
- `src/init.rs`, `funding.rs`, `settlement.rs`, `limits.rs`, `hold.rs`, `admin.rs`, `allowlist.rs`,
  `attestation.rs`, `collateral.rs`, `lifetime.rs`, `queries.rs`: the entrypoints of
  `LiquifactEscrow`. Each is specified by a refusal (when, and with which error) and by the
  environment afterwards.
- `src/tiers.rs`, `payout.rs`, `wide.rs`: the yield ladder and the payout arithmetic, with their laws.
- `src/validity.rs`: the invariant of the storage and the proof that every call keeps it.
- `src/laws/`: what holds of all calls: authority, fixed terms, status and marks (`lifecycle.rs`), the
  books and batches (`books.rs`), custody (`custody.rs`), payouts (`payouts.rs`), hold, handover and
  the rest (`control.rs`).
- `src/invoice_id.rs`: invoice identifiers, with the calls into the ledger host that read a text and
  make a symbol.
- `app/`: the contract on the ledger, which converts values, reads and writes entries, obtains
  authorizations and performs effects.
