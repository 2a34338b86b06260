//! Verified core of a CryptoKit binding: P-256 keys and signatures, Secure
//! Enclave key handles, and the ML-DSA post-quantum signature schemes.
//!
//! Every operation that needs CryptoKit itself goes through the Swift bridge,
//! which reports a status code and fills byte buffers. This crate holds the
//! key types with their invariants and the rules by which a bridge reply
//! becomes a key, a signature, a verdict or an error.

pub mod error;
pub mod reply;
pub mod asymmetric;
pub mod quantum;
