# quay_venue

A Quay strategy as a routable trading venue, verified with Verus.

- `src/` is the library. `venue` holds the venue and its routing gate, `state`
  builds and refreshes it, `quote` prices swaps, `swap` builds swap
  instructions and lookup-table keys, `creation` discovers strategies, `clock`
  decodes the clock sysvar. `sdk` holds every call into the Quay SDK and the
  Solana crates, with the contract that the library relies on.
- `tests/` runs the library with the real crates.
- `app/` puts the venue behind a router's async traits: fetching accounts,
  floating-point prices and error texts.

Contracts speak of the models (`VenueState`, `InstructionView`, ...). Proof
functions named `law_*` state what holds of the library as a whole.
