# registry-relay

The decisions of the registry relay as a Verus library.

- `src/json.rs`: JSON values, their equality, and objects without repeated keys.
- `src/attribute_release/`: release predicates and computed claims. `document.rs` builds the mapping
  document that carries an expression, `cache.rs` keeps compiled mappings, `evaluation.rs` and
  `diagnostics.rs` read what the mapping engine gives back, `release.rs` decides each step of an
  evaluation, and `laws.rs` states what holds of the whole.
- `src/provenance/signers/`: the signer whose key stands in a file that is read again on each use,
  and what holds of it over its life.
- `tests/`: tests of the library.
- `app/`: the mapping runtime, the key file, the locks and the traits around the library.

A function that needs work that the library cannot do takes an event and returns a step. The caller
does what the step says and calls again with what came of it, until the step is `Done`.
