# wallet_backend

A double-entry wallet backend: users hold per-currency accounts; top-ups, transfers, card
holds (authorize, capture, cancel) and refunds post balanced ledger entries and keep a balance
projection; every monetary request is idempotent.

## Layout

- `src/` — the library, verified with Verus. Its contracts state what each operation returns
  and how it changes the balance rows; its proof functions state the laws of the ledger
  (postings balance, currency totals are kept, checked operations never overdraw, cancel
  undoes authorize, refund undoes capture, history order, token authentication, idempotent
  replay).
  - `domain`, `models` — value types and requests with their validation.
  - `ledger`, `bookkeeping` — balance rows, postings, entries and their deltas.
  - `posting`, `flow`, `events` — the operations as typestate flows, their checks and the
    outbox events they publish.
  - `idempotency`, `auth`, `history`, `receipt`, `accounts`, `seed`, `perf` — request keys,
    tokens, listings and answers, demo data and load-run counting.
  - `codec`, `json`, `error`, `text`, `decimal` — encodings, JSON reads, errors and text
    helpers; calls into outside crates stand behind small wrappers with contracts.
- `tests/` — tests of the library.
- `app/` — the HTTP server (axum), the SQLite store (sqlx) and the load-test harness; it reads
  and writes the store and hands plain values to the library.
