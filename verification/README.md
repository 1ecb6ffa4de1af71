# hexstody

The verified core of a custodial Bitcoin wallet, written in Verus.

- `src/domain.rs` — currencies and addresses.
- `src/types.rs` — the messages of the HTTP interfaces.
- `src/withdrawal.rs` — withdrawal requests and operators' decisions as stored,
  with their conversions.
- `src/btc_api.rs` — the hot wallet's rules: which messages operators sign,
  when their signatures authorise a withdrawal, what is paid and what is
  answered, how chain events are handed out, and the test-node endpoints.
- `src/operator.rs` — the operators' side: decision URLs, the decisions
  forwarded for storage, and the book of invitations (no number twice).
- `src/btc_codec.rs` — the trusted wrappers around the `bitcoin` and `uuid`
  crates (address parsing, transaction decoding, script addresses, UUID text).
- `app/` — the Rocket servers and the node RPC calls, which hand plain values
  to the library and act on what it decides.

Operator signatures themselves are checked by a function the embedding
program supplies; the library takes the verdicts and applies the
authorisation rule to them.
