# cryptokit

A Rust binding to Apple CryptoKit (P-256, Secure Enclave keys, ML-DSA-65 and
ML-DSA-87), split in two:

- `src/` is the verified library. It holds the key, signature and shared
  secret types with their invariants, and, for every operation of the Swift
  bridge, the function that turns the bridge's reply (a status code and the
  buffers it filled) into a result. Each carries a contract checked by Verus.
- `app/` makes the calls into the Swift bridge (`extern "C"`), hands the
  replies to the library, and offers the operations under their usual names
  (`generate_keypair`, `sign`, `verify`, `key_agreement`, Secure Enclave
  `generate`/`public_key`/`sign`/`delete`, ML-DSA `generate_private_key`,
  `sign`, `verify`, `from_bytes`).

Modules of the library:

- `error`: `CryptoKitError`.
- `reply`: shared rules for bridge buffers (truncation to a reported length,
  lossy UTF-8 decoding of error messages, signing replies).
- `asymmetric::p256`: P-256 values, the `P256` replies, the Secure Enclave
  P-256 key handle.
- `quantum`: the `QuantumSafe` trait; `quantum::signature`: the signature
  traits, ML-DSA-65/87 keys and their Secure Enclave handles.
