use vstd::prelude::*;

verus! {

/// Errors reported by the CryptoKit operations.
#[derive(Debug, Clone, PartialEq, Eq)]
pub enum CryptoKitError {
    /// The input was rejected; the text says why.
    InvalidInput(String),
    /// A key could not be generated or read back.
    KeyGenerationFailed,
    /// A P-256 signature could not be produced.
    SignatureFailed,
    /// A signature could not be produced by a Secure Enclave or ML-DSA key.
    SigningFailed,
    /// The verifier failed to reach a verdict.
    VerificationFailed,
    /// A shared secret could not be derived.
    DerivationFailed,
}

/// `e` is an `InvalidInput` error whose message reads `msg`.
pub open spec fn is_invalid_input(e: CryptoKitError, msg: Seq<char>) -> bool {
    e matches CryptoKitError::InvalidInput(m) && m@ == msg
}

/// Builds an `InvalidInput` error carrying `msg`.
pub fn invalid_input(msg: &str) -> (e: CryptoKitError)
    ensures
        is_invalid_input(e, msg@),
{
    CryptoKitError::InvalidInput(msg.to_owned())
}

} // verus!
