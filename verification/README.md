# payment_gateway

A payment gateway between a shop and a bank, and the mock bank it is tested
against, with their logic verified in Verus.

- `src/` is the verified library:
  - `payment` — the payment state machine (pending → authorized → captured →
    refunded, or authorized → voided) and its laws;
  - `idempotency`, `routes`, `recovery`, `repository`, `errors` — the
    decisions of the gateway's endpoints and of its recovery worker;
  - `bank` — bank errors, classification of bank replies, and the bounded
    retry policy with exponential backoff and jitter;
  - `mock_bank` — the bank's test cards and Luhn check, its ledger with the
    capture/void/refund rules and idempotent replay, and its chaos planning;
  - `common`, `text`, `fingerprint` — shared values, text rendering, and
    SHA-256 request fingerprints.
- `app/` runs the services: `gateway` (axum + PostgreSQL + HTTP bank client),
  `mock-bank` (axum, in-memory ledger, OpenAPI docs) and `test-gateway` (an
  end-to-end script), chosen by the first argument.
- `tests/` exercises the library on concrete values.
