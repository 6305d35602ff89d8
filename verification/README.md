# relief_chain

A verified model of a disaster-relief coordination ledger (admin, verifiers,
disaster events, beneficiaries, vendors, category-bound aid vouchers and a
simulated relief vault), written in Verus.

- `src/types.rs` — the plain-value domain types (addresses and symbols are held
  by their text).
- `src/table.rs` — a keyed table with distinct keys, viewed as a `Map`.
- `src/model.rs` — the ledger state as maps (`ReliefChainView`), its
  consistency invariant, and what every request does to it.
- `src/history.rs` — sequences of requests: the state they reach, and the totals
  issued, redeemed, deposited and paid out along the way.
- `src/contract.rs` — `ReliefChain`, the executable ledger; every entry point
  is proved to do exactly what the model says and to keep the invariant.
- `src/laws.rs` — properties of the ledger as a whole, for one request and for
  any sequence of requests, proved over the model.
- `app/` — the Soroban contract around the library: authorization, ledger time,
  events and persistence (the log of successful requests, replayed on load).
