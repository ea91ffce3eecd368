# cquisitor

Inspection and validation of Cardano transactions, written in Verus: executable
Rust whose contracts are proved.

- `src/cbor` reads CBOR into a JSON tree that keeps the position of every token.
- `src/validators/phase_1` checks whether the certificates of a transaction agree
  with what is registered on the ledger.
- `src/validators/phase_2` runs the script of a redeemer and reports how it fared.
- `src/plutus` runs all scripts of a transaction and answers what they use.
- The files named `laws.rs` and `registration_laws.rs` state what holds of each
  part as a whole.
- `tests` holds the tests, `app` the entry points for callers that speak JSON.
