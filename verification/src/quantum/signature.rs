//! Quantum-safe digital signatures: ML-DSA-65 and ML-DSA-87, in software and
//! in the Secure Enclave.

use vstd::prelude::*;

use crate::error::{invalid_input, is_invalid_input, CryptoKitError};
use crate::quantum::QuantumSafe;
use crate::reply::{signature_from_status, truncate_to, truncated};

verus! {

/// Size of an encoded ML-DSA-65 public key.
pub const MLDSA65_PUBLIC_KEY_SIZE: usize = 1952;

/// Size of an ML-DSA-65 private key seed.
pub const MLDSA65_SEED_SIZE: usize = 64;

/// Size of the buffer handed to the bridge for an ML-DSA-65 signature.
pub const MLDSA65_SIGNATURE_SIZE: usize = 3309;

/// Size of an encoded ML-DSA-87 public key.
pub const MLDSA87_PUBLIC_KEY_SIZE: usize = 2592;

/// Size of an ML-DSA-87 private key seed.
pub const MLDSA87_SEED_SIZE: usize = 64;

/// Size of the buffer handed to the bridge for an ML-DSA-87 signature.
pub const MLDSA87_SIGNATURE_SIZE: usize = 4627;

/// Size of the buffer handed to the bridge for a Secure Enclave data
/// representation (an opaque key blob).
pub const SE_DATA_REPRESENTATION_MAX_SIZE: usize = 16384;

/// A digital signature algorithm.
pub trait DigitalSignatureAlgorithm: QuantumSafe {
    type PrivateKey: SignaturePrivateKey;

    type PublicKey: SignaturePublicKey;

    /// Reads the bridge's reply to private key generation: status 0 hands
    /// back the filled seed and public key buffers as a private key, any
    /// other status is `KeyGenerationFailed`.
    fn private_key_from_reply(status: i32, seed: Vec<u8>, public_key: Vec<u8>) -> (r: Result<
        Self::PrivateKey,
        CryptoKitError,
    >)
        requires
            seed@.len() == <Self::PrivateKey as SignaturePrivateKey>::seed_len(),
            public_key@.len() == <<Self::PrivateKey as SignaturePrivateKey>::PublicKey as SignaturePublicKey>::encoded_len(),
        ensures
            status == 0 ==> (r matches Ok(key) && key.seed() == seed@ && key.public_encoding()
                == public_key@),
            status != 0 ==> r matches Err(CryptoKitError::KeyGenerationFailed),
    ;
}

/// The private half of a signature key pair.
pub trait SignaturePrivateKey: Sized {
    type PublicKey: SignaturePublicKey;

    type Signature: View<V = Seq<u8>>;

    /// Length of a private key seed.
    spec fn seed_len() -> nat;

    /// The seed the key is made from.
    spec fn seed(&self) -> Seq<u8>;

    /// The encoding of the matching public key.
    spec fn public_encoding(&self) -> Seq<u8>;

    /// The corresponding public key.
    fn public_key(&self) -> (public_key: Self::PublicKey)
        ensures
            public_key.encoding() == self.public_encoding(),
    ;

    /// Reads the bridge's reply to signing: status 0 hands back the signature
    /// buffer cut to the reported length, any other status is
    /// `SigningFailed`.
    fn signature_from_reply(status: i32, signature: Vec<u8>, signature_len: usize) -> (r: Result<
        Self::Signature,
        CryptoKitError,
    >)
        ensures
            status == 0 ==> (r matches Ok(sig) && sig@ == truncated(
                signature@,
                signature_len as int,
            )),
            status != 0 ==> r matches Err(CryptoKitError::SigningFailed),
    ;

    /// Serializes the private key: its seed.
    fn to_bytes(&self) -> (bytes: Vec<u8>)
        ensures
            bytes@ == self.seed(),
            bytes@.len() == Self::seed_len(),
    ;

    /// First step of deserializing a private key: accepts exactly the seeds
    /// of the right length. Only an accepted seed is handed to the bridge to
    /// derive its public key.
    fn check_seed(bytes: &[u8]) -> (r: Result<(), CryptoKitError>)
        ensures
            r is Ok <==> bytes@.len() == Self::seed_len(),
            r matches Err(e) ==> is_invalid_input(e, "Invalid private key length"@),
    ;

    /// Second step of deserializing a private key: reads the bridge's reply to
    /// deriving the public key of `seed`. Status 0 yields the key made of
    /// `seed` and the derived public key, anything else an `InvalidInput`
    /// error.
    fn from_seed_reply(seed: &[u8], status: i32, public_key: Vec<u8>) -> (r: Result<
        Self,
        CryptoKitError,
    >)
        requires
            seed@.len() == Self::seed_len(),
            public_key@.len() == <Self::PublicKey as SignaturePublicKey>::encoded_len(),
        ensures
            status == 0 <==> r is Ok,
            r matches Ok(key) ==> key.seed() == seed@ && key.public_encoding() == public_key@,
            r matches Err(e) ==> is_invalid_input(e, "Invalid private key"@),
    ;
}

/// The public half of a signature key pair.
pub trait SignaturePublicKey: Sized {
    type Signature;

    /// Length of an encoded public key.
    spec fn encoded_len() -> nat;

    /// The key's encoding.
    spec fn encoding(&self) -> Seq<u8>;

    /// Reads the bridge's reply to verification: 0 is a valid signature, 1 an
    /// invalid one, anything else `VerificationFailed`.
    fn verdict_from_reply(status: i32) -> (r: Result<bool, CryptoKitError>)
        ensures
            status == 0 ==> r == Ok::<bool, CryptoKitError>(true),
            status == 1 ==> r == Ok::<bool, CryptoKitError>(false),
            status != 0 && status != 1 ==> r matches Err(CryptoKitError::VerificationFailed),
    ;

    /// Serializes the public key.
    fn to_bytes(&self) -> (bytes: Vec<u8>)
        ensures
            bytes@ == self.encoding(),
            bytes@.len() == Self::encoded_len(),
    ;

    /// Deserializes a public key: accepts exactly the byte strings of the
    /// encoded length.
    fn from_bytes(bytes: &[u8]) -> (r: Result<Self, CryptoKitError>)
        ensures
            r is Ok <==> bytes@.len() == Self::encoded_len(),
            r matches Ok(key) ==> key.encoding() == bytes@,
            r matches Err(e) ==> is_invalid_input(e, "Invalid public key length"@),
    ;
}

/// Shared reading of a verification reply: 0 valid, 1 invalid, otherwise
/// `VerificationFailed`.
fn verdict_from_status(status: i32) -> (r: Result<bool, CryptoKitError>)
    ensures
        status == 0 ==> r == Ok::<bool, CryptoKitError>(true),
        status == 1 ==> r == Ok::<bool, CryptoKitError>(false),
        status != 0 && status != 1 ==> r matches Err(CryptoKitError::VerificationFailed),
{
    match status {
        0 => Ok(true),
        1 => Ok(false),
        _ => Err(CryptoKitError::VerificationFailed),
    }
}

// ML-DSA-65

/// ML-DSA-65 algorithm (security level 2).
pub struct MLDsa65;

impl QuantumSafe for MLDsa65 {
    fn algorithm_name() -> (name: &'static str)
        ensures
            name@ == "ML-DSA-65"@,
    {
        "ML-DSA-65"
    }

    fn security_level() -> (level: u8)
        ensures
            level == 2,
    {
        2
    }
}

impl DigitalSignatureAlgorithm for MLDsa65 {
    type PrivateKey = MLDsa65PrivateKey;

    type PublicKey = MLDsa65PublicKey;

    fn private_key_from_reply(status: i32, seed: Vec<u8>, public_key: Vec<u8>) -> (r: Result<
        MLDsa65PrivateKey,
        CryptoKitError,
    >) {
        if status != 0 {
            return Err(CryptoKitError::KeyGenerationFailed);
        }
        Ok(MLDsa65PrivateKey { bytes: seed, public_key: MLDsa65PublicKey { bytes: public_key } })
    }
}

/// ML-DSA-65 private key.
pub struct MLDsa65PrivateKey {
    bytes: Vec<u8>,
    public_key: MLDsa65PublicKey,
}

impl MLDsa65PrivateKey {
    #[verifier::type_invariant]
    spec fn well_formed(self) -> bool {
        self.bytes@.len() == MLDSA65_SEED_SIZE
    }
}

impl SignaturePrivateKey for MLDsa65PrivateKey {
    type PublicKey = MLDsa65PublicKey;

    type Signature = Vec<u8>;

    open spec fn seed_len() -> nat {
        MLDSA65_SEED_SIZE as nat
    }

    closed spec fn seed(&self) -> Seq<u8> {
        self.bytes@
    }

    closed spec fn public_encoding(&self) -> Seq<u8> {
        self.public_key@
    }

    fn public_key(&self) -> (public_key: MLDsa65PublicKey)
        ensures
            public_key@ == self.public_encoding(),
    {
        self.public_key.clone()
    }

    fn signature_from_reply(status: i32, signature: Vec<u8>, signature_len: usize) -> (r: Result<
        Vec<u8>,
        CryptoKitError,
    >) {
        signature_from_status(status, signature, signature_len)
    }

    fn to_bytes(&self) -> (bytes: Vec<u8>) {
        proof {
            use_type_invariant(self);
        }
        vstd::slice::slice_to_vec(self.bytes.as_slice())
    }

    fn check_seed(bytes: &[u8]) -> (r: Result<(), CryptoKitError>) {
        if bytes.len() != MLDSA65_SEED_SIZE {
            return Err(invalid_input("Invalid private key length"));
        }
        Ok(())
    }

    fn from_seed_reply(seed: &[u8], status: i32, public_key: Vec<u8>) -> (r: Result<
        MLDsa65PrivateKey,
        CryptoKitError,
    >) {
        if status != 0 {
            return Err(invalid_input("Invalid private key"));
        }
        Ok(
            MLDsa65PrivateKey {
                bytes: vstd::slice::slice_to_vec(seed),
                public_key: MLDsa65PublicKey { bytes: public_key },
            },
        )
    }
}

/// ML-DSA-65 public key.
pub struct MLDsa65PublicKey {
    bytes: Vec<u8>,
}

impl MLDsa65PublicKey {
    #[verifier::type_invariant]
    spec fn well_formed(self) -> bool {
        self.bytes@.len() == MLDSA65_PUBLIC_KEY_SIZE
    }
}

impl View for MLDsa65PublicKey {
    type V = Seq<u8>;

    closed spec fn view(&self) -> Seq<u8> {
        self.bytes@
    }
}

impl Clone for MLDsa65PublicKey {
    fn clone(&self) -> (copy: Self)
        ensures
            copy@ == self@,
    {
        proof {
            use_type_invariant(self);
        }
        MLDsa65PublicKey { bytes: vstd::slice::slice_to_vec(self.bytes.as_slice()) }
    }
}

impl SignaturePublicKey for MLDsa65PublicKey {
    type Signature = Vec<u8>;

    open spec fn encoded_len() -> nat {
        MLDSA65_PUBLIC_KEY_SIZE as nat
    }

    open spec fn encoding(&self) -> Seq<u8> {
        self@
    }

    fn verdict_from_reply(status: i32) -> (r: Result<bool, CryptoKitError>) {
        verdict_from_status(status)
    }

    fn to_bytes(&self) -> (bytes: Vec<u8>)
        ensures
            bytes@ == self@,
    {
        proof {
            use_type_invariant(self);
        }
        vstd::slice::slice_to_vec(self.bytes.as_slice())
    }

    fn from_bytes(bytes: &[u8]) -> (r: Result<MLDsa65PublicKey, CryptoKitError>)
        ensures
            r matches Ok(key) ==> key@ == bytes@,
    {
        if bytes.len() != MLDSA65_PUBLIC_KEY_SIZE {
            return Err(invalid_input("Invalid public key length"));
        }
        Ok(MLDsa65PublicKey { bytes: vstd::slice::slice_to_vec(bytes) })
    }
}

// ML-DSA-87

/// ML-DSA-87 algorithm (security level 3).
pub struct MLDsa87;

impl QuantumSafe for MLDsa87 {
    fn algorithm_name() -> (name: &'static str)
        ensures
            name@ == "ML-DSA-87"@,
    {
        "ML-DSA-87"
    }

    fn security_level() -> (level: u8)
        ensures
            level == 3,
    {
        3
    }
}

impl DigitalSignatureAlgorithm for MLDsa87 {
    type PrivateKey = MLDsa87PrivateKey;

    type PublicKey = MLDsa87PublicKey;

    fn private_key_from_reply(status: i32, seed: Vec<u8>, public_key: Vec<u8>) -> (r: Result<
        MLDsa87PrivateKey,
        CryptoKitError,
    >) {
        if status != 0 {
            return Err(CryptoKitError::KeyGenerationFailed);
        }
        Ok(MLDsa87PrivateKey { bytes: seed, public_key: MLDsa87PublicKey { bytes: public_key } })
    }
}

/// ML-DSA-87 private key.
pub struct MLDsa87PrivateKey {
    bytes: Vec<u8>,
    public_key: MLDsa87PublicKey,
}

impl MLDsa87PrivateKey {
    #[verifier::type_invariant]
    spec fn well_formed(self) -> bool {
        self.bytes@.len() == MLDSA87_SEED_SIZE
    }
}

impl SignaturePrivateKey for MLDsa87PrivateKey {
    type PublicKey = MLDsa87PublicKey;

    type Signature = Vec<u8>;

    open spec fn seed_len() -> nat {
        MLDSA87_SEED_SIZE as nat
    }

    closed spec fn seed(&self) -> Seq<u8> {
        self.bytes@
    }

    closed spec fn public_encoding(&self) -> Seq<u8> {
        self.public_key@
    }

    fn public_key(&self) -> (public_key: MLDsa87PublicKey)
        ensures
            public_key@ == self.public_encoding(),
    {
        self.public_key.clone()
    }

    fn signature_from_reply(status: i32, signature: Vec<u8>, signature_len: usize) -> (r: Result<
        Vec<u8>,
        CryptoKitError,
    >) {
        signature_from_status(status, signature, signature_len)
    }

    fn to_bytes(&self) -> (bytes: Vec<u8>) {
        proof {
            use_type_invariant(self);
        }
        vstd::slice::slice_to_vec(self.bytes.as_slice())
    }

    fn check_seed(bytes: &[u8]) -> (r: Result<(), CryptoKitError>) {
        if bytes.len() != MLDSA87_SEED_SIZE {
            return Err(invalid_input("Invalid private key length"));
        }
        Ok(())
    }

    fn from_seed_reply(seed: &[u8], status: i32, public_key: Vec<u8>) -> (r: Result<
        MLDsa87PrivateKey,
        CryptoKitError,
    >) {
        if status != 0 {
            return Err(invalid_input("Invalid private key"));
        }
        Ok(
            MLDsa87PrivateKey {
                bytes: vstd::slice::slice_to_vec(seed),
                public_key: MLDsa87PublicKey { bytes: public_key },
            },
        )
    }
}

/// ML-DSA-87 public key.
pub struct MLDsa87PublicKey {
    bytes: Vec<u8>,
}

impl MLDsa87PublicKey {
    #[verifier::type_invariant]
    spec fn well_formed(self) -> bool {
        self.bytes@.len() == MLDSA87_PUBLIC_KEY_SIZE
    }
}

impl View for MLDsa87PublicKey {
    type V = Seq<u8>;

    closed spec fn view(&self) -> Seq<u8> {
        self.bytes@
    }
}

impl Clone for MLDsa87PublicKey {
    fn clone(&self) -> (copy: Self)
        ensures
            copy@ == self@,
    {
        proof {
            use_type_invariant(self);
        }
        MLDsa87PublicKey { bytes: vstd::slice::slice_to_vec(self.bytes.as_slice()) }
    }
}

impl SignaturePublicKey for MLDsa87PublicKey {
    type Signature = Vec<u8>;

    open spec fn encoded_len() -> nat {
        MLDSA87_PUBLIC_KEY_SIZE as nat
    }

    open spec fn encoding(&self) -> Seq<u8> {
        self@
    }

    fn verdict_from_reply(status: i32) -> (r: Result<bool, CryptoKitError>) {
        verdict_from_status(status)
    }

    fn to_bytes(&self) -> (bytes: Vec<u8>)
        ensures
            bytes@ == self@,
    {
        proof {
            use_type_invariant(self);
        }
        vstd::slice::slice_to_vec(self.bytes.as_slice())
    }

    fn from_bytes(bytes: &[u8]) -> (r: Result<MLDsa87PublicKey, CryptoKitError>)
        ensures
            r matches Ok(key) ==> key@ == bytes@,
    {
        if bytes.len() != MLDSA87_PUBLIC_KEY_SIZE {
            return Err(invalid_input("Invalid public key length"));
        }
        Ok(MLDsa87PublicKey { bytes: vstd::slice::slice_to_vec(bytes) })
    }
}

/// An ML-DSA-65 public key serializes to exactly the bytes it holds: its
/// encoding is the key itself, the bytes the bridge filled when it was
/// generated or derived, or the bytes `from_bytes` was given. So
/// `public_key().to_bytes()` of a key generated from a reply is the reply's
/// public key buffer, and that is what verification hands to the bridge.
pub proof fn lemma_mldsa65_public_key_encoding_is_key(key: MLDsa65PublicKey)
    ensures
        key.encoding() == key@,
{
}

// Secure Enclave ML-DSA-65

/// Secure Enclave ML-DSA-65 private key handle (opaque data representation).
pub struct SEMLDsa65PrivateKey {
    data_representation: Vec<u8>,
    public_key: MLDsa65PublicKey,
}

impl View for SEMLDsa65PrivateKey {
    type V = Seq<u8>;

    /// The opaque data representation of the key.
    closed spec fn view(&self) -> Seq<u8> {
        self.data_representation@
    }
}

impl SEMLDsa65PrivateKey {
    /// The encoding of the key's public key.
    pub closed spec fn public_encoding(&self) -> Seq<u8> {
        self.public_key@
    }

    /// Reads the bridge's reply to generating a key in the Secure Enclave:
    /// status 0 yields the key whose data representation is the filled buffer
    /// cut to the reported length, with the filled public key; any other
    /// status is `KeyGenerationFailed`.
    pub fn from_generate_reply(
        status: i32,
        data_representation: Vec<u8>,
        data_representation_len: usize,
        public_key: Vec<u8>,
    ) -> (r: Result<Self, CryptoKitError>)
        requires
            public_key@.len() == MLDSA65_PUBLIC_KEY_SIZE,
        ensures
            status == 0 ==> (r matches Ok(key) && key@ == truncated(
                data_representation@,
                data_representation_len as int,
            ) && key.public_encoding() == public_key@),
            status != 0 ==> r matches Err(CryptoKitError::KeyGenerationFailed),
    {
        if status != 0 {
            return Err(CryptoKitError::KeyGenerationFailed);
        }
        Ok(
            SEMLDsa65PrivateKey {
                data_representation: truncate_to(data_representation, data_representation_len),
                public_key: MLDsa65PublicKey { bytes: public_key },
            },
        )
    }

    pub fn public_key(&self) -> (public_key: &MLDsa65PublicKey)
        ensures
            public_key@ == self.public_encoding(),
    {
        &self.public_key
    }

    /// Reads the bridge's reply to signing with the key: status 0 hands back
    /// the signature buffer cut to the reported length, any other status is
    /// `SigningFailed`.
    pub fn signature_from_reply(status: i32, signature: Vec<u8>, signature_len: usize) -> (r:
        Result<Vec<u8>, CryptoKitError>)
        ensures
            status == 0 ==> (r matches Ok(sig) && sig@ == truncated(
                signature@,
                signature_len as int,
            )),
            status != 0 ==> r matches Err(CryptoKitError::SigningFailed),
    {
        signature_from_status(status, signature, signature_len)
    }

    /// Opaque data representation for persistence.
    pub fn data_representation(&self) -> (data: &[u8])
        ensures
            data@ == self@,
    {
        self.data_representation.as_slice()
    }

    /// Restores a key handle from a persisted data representation and its
    /// public key.
    pub fn from_data_representation(data: &[u8], public_key: &MLDsa65PublicKey) -> (key: Self)
        ensures
            key@ == data@,
            key.public_encoding() == public_key@,
    {
        SEMLDsa65PrivateKey {
            data_representation: vstd::slice::slice_to_vec(data),
            public_key: public_key.clone(),
        }
    }
}

/// An ML-DSA-87 public key serializes to exactly the bytes it holds: its
/// encoding is the key itself, the bytes the bridge filled when it was
/// generated or derived, or the bytes `from_bytes` was given. So
/// `public_key().to_bytes()` of a key generated from a reply is the reply's
/// public key buffer, and that is what verification hands to the bridge.
pub proof fn lemma_mldsa87_public_key_encoding_is_key(key: MLDsa87PublicKey)
    ensures
        key.encoding() == key@,
{
}

// Secure Enclave ML-DSA-87

/// Secure Enclave ML-DSA-87 private key handle (opaque data representation).
pub struct SEMLDsa87PrivateKey {
    data_representation: Vec<u8>,
    public_key: MLDsa87PublicKey,
}

impl View for SEMLDsa87PrivateKey {
    type V = Seq<u8>;

    /// The opaque data representation of the key.
    closed spec fn view(&self) -> Seq<u8> {
        self.data_representation@
    }
}

impl SEMLDsa87PrivateKey {
    /// The encoding of the key's public key.
    pub closed spec fn public_encoding(&self) -> Seq<u8> {
        self.public_key@
    }

    /// Reads the bridge's reply to generating a key in the Secure Enclave:
    /// status 0 yields the key whose data representation is the filled buffer
    /// cut to the reported length, with the filled public key; any other
    /// status is `KeyGenerationFailed`.
    pub fn from_generate_reply(
        status: i32,
        data_representation: Vec<u8>,
        data_representation_len: usize,
        public_key: Vec<u8>,
    ) -> (r: Result<Self, CryptoKitError>)
        requires
            public_key@.len() == MLDSA87_PUBLIC_KEY_SIZE,
        ensures
            status == 0 ==> (r matches Ok(key) && key@ == truncated(
                data_representation@,
                data_representation_len as int,
            ) && key.public_encoding() == public_key@),
            status != 0 ==> r matches Err(CryptoKitError::KeyGenerationFailed),
    {
        if status != 0 {
            return Err(CryptoKitError::KeyGenerationFailed);
        }
        Ok(
            SEMLDsa87PrivateKey {
                data_representation: truncate_to(data_representation, data_representation_len),
                public_key: MLDsa87PublicKey { bytes: public_key },
            },
        )
    }

    pub fn public_key(&self) -> (public_key: &MLDsa87PublicKey)
        ensures
            public_key@ == self.public_encoding(),
    {
        &self.public_key
    }

    /// Reads the bridge's reply to signing with the key: status 0 hands back
    /// the signature buffer cut to the reported length, any other status is
    /// `SigningFailed`.
    pub fn signature_from_reply(status: i32, signature: Vec<u8>, signature_len: usize) -> (r:
        Result<Vec<u8>, CryptoKitError>)
        ensures
            status == 0 ==> (r matches Ok(sig) && sig@ == truncated(
                signature@,
                signature_len as int,
            )),
            status != 0 ==> r matches Err(CryptoKitError::SigningFailed),
    {
        signature_from_status(status, signature, signature_len)
    }

    /// Opaque data representation for persistence.
    pub fn data_representation(&self) -> (data: &[u8])
        ensures
            data@ == self@,
    {
        self.data_representation.as_slice()
    }

    /// Restores a key handle from a persisted data representation and its
    /// public key.
    pub fn from_data_representation(data: &[u8], public_key: &MLDsa87PublicKey) -> (key: Self)
        ensures
            key@ == data@,
            key.public_encoding() == public_key@,
    {
        SEMLDsa87PrivateKey {
            data_representation: vstd::slice::slice_to_vec(data),
            public_key: public_key.clone(),
        }
    }
}

} // verus!
