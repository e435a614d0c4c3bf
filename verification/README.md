# inheritx

The business rules of the InheritX inheritance-planning backend, written in
Verus and proved against their contracts.

## Layout

- `src/` — the verified library.
  - `allbridge` — cross-chain bridge rules: supported chains and stablecoins,
    fee routing, transfer checks, reading the bridge API's answers, built-in
    token and route lists.
  - `compliance` — which checks a lending event gets, when each reports a
    violation, the reasons recorded, the alert cooldown, the listener slot.
  - `external_integrations` — retry policy and back-off, failure
    classification and recovery for the compliance services.
  - `governance` — proposal statuses, the parameter allowlist, voting and
    finalization rules.
  - `insurance` — coverage ratio, health score, fund status, reserve updates
    and the claim life cycle.
  - `lending` — reconciliation, loan health and risk flags, liquidation,
    history buckets.
  - `middleware` — rate-limit identity and refusals, request ids, body size,
    caching of write responses, security headers.
  - `secure_messages` — sealing and opening legacy messages and data keys,
    message validation, delivery tallies.
  - `data_retention`, `inactivity_watchdog`, `emergency_access_jobs`,
    `graphql`, `ai_optimizer` — settings, validation and query rules.
  - `decimal`, `text`, `error` — decimal amounts over `rust_decimal`, text
    operations with std's semantics, the service error type.
- `tests/` — tests of the library.
- `app/` — the service around it: database access, HTTP handlers and
  middleware, HTTP clients of the external services, background workers,
  and the database side of the insurance fund, the lending sweeps (risk
  engine, liquidation bot, reconciliation) and the compliance engine.

## Checking

Verus verifies `src/`; the tests run against the compiled library with the
real outside crates linked.
