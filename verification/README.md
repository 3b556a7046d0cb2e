# payloadexchange-mvp

A server on which sponsors pay for the service calls of the users that they target. Calls are paid
for by the x402 protocol: by a sponsor's campaign, by the sponsor of an API, or by the caller, who
shows a proof of a payment on a test network.

- `src/` is the library, verified with Verus: the state of the server, its rules, and the steps of
  each request. A request that needs other servers, or the database, goes through steps: each step
  says what to do outside, and goes on with what came of it.
- `app/` is the server around it: routes, JSON, the database and HTTP calls.
- `tests/` runs the library.

## The library

| Module | What it holds |
| --- | --- |
| `types`, `error`, `endpoints` | requests, replies, records, errors, statuses |
| `state`, `listing`, `reports`, `skills` | what the server keeps in memory, and what it shows of it |
| `proxy` | calls through the proxy, and the campaigns that pay for them |
| `payments`, `verification`, `paid_runs`, `testnet`, `onchain` | payments by callers |
| `sponsored`, `sponsored_create`, `sponsored_run` | APIs whose calls a sponsor pays for |
| `registration`, `config` | users with the database, settings |
| `metrics`, `hash` | counters, and the hash that tells them apart |
| `laws`, `history` | what holds across requests, and through any series of them |
| `text`, `json`, `http_rules`, `ids`, `clock` | texts, JSON, HTTP, identifiers, time |

Identifiers are UUIDs by their 128-bit value. What rests on chance or on the clock is an argument of
a function whose name ends in `_as` or `_at`; the function without that ending draws it.
