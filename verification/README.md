# sriracha_mayo

A verified core for safe bindings to MAYO-C, the reference implementation of
the MAYO post-quantum signature scheme.

- `src/` (verified with Verus): the parameter sets and their sizes; public
  keys, secret keys and signatures, whose lengths are type invariants; key
  derivation, signing and verification as two halves around a MAYO-C call,
  which check inputs, fix the exact buffers handed to MAYO-C and turn its
  status codes into typed results; and a batch verifier that caches one
  expanded public key per distinct key and verifies queued signatures one
  step at a time, with proofs that a batch verifies exactly when every
  queued signature does.
- `app/`: the MAYO-C declarations and calls, each operation as a single call
  (`keypair_from_seed`, `random_keypair`, `sign`, `verify`, `batch_add`,
  `batch_verify`), and the serde and `Display` forms of the library's types.
- `tests/`: tests of the library on concrete values.
