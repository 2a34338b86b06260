//! P-256 keys, signatures and shared secrets, and the Secure Enclave P-256
//! key handle.

use vstd::prelude::*;

use crate::error::{invalid_input, is_invalid_input, CryptoKitError};
use crate::reply::{decode_utf8_lossy, first_64, truncate_to, truncated, utf8_lossy};

verus! {

/// Size of an uncompressed P-256 public key without its prefix (x and y).
pub const P256_PUBLIC_KEY_SIZE: usize = 64;

/// Size of a raw P-256 signature (r and s).
pub const P256_SIGNATURE_SIZE: usize = 64;

/// Size of the buffer handed to the bridge for a Secure Enclave data representation.
pub const SE_P256_DATA_REPRESENTATION_MAX_SIZE: usize = 1024;

/// P-256 private key (32 bytes).
pub struct P256PrivateKey {
    data: [u8; 32],
}

/// P-256 public key (64 bytes).
pub struct P256PublicKey {
    data: [u8; 64],
}

/// P-256 signature (64 bytes).
pub struct P256Signature {
    data: [u8; 64],
}

/// P-256 shared secret (32 bytes).
pub struct P256SharedSecret {
    data: [u8; 32],
}

impl View for P256PrivateKey {
    type V = Seq<u8>;

    closed spec fn view(&self) -> Seq<u8> {
        self.data@
    }
}

impl Clone for P256PrivateKey {
    fn clone(&self) -> (copy: Self)
        ensures
            copy@ == self@,
    {
        Self { data: self.data }
    }
}

impl View for P256PublicKey {
    type V = Seq<u8>;

    closed spec fn view(&self) -> Seq<u8> {
        self.data@
    }
}

impl Clone for P256PublicKey {
    fn clone(&self) -> (copy: Self)
        ensures
            copy@ == self@,
    {
        Self { data: self.data }
    }
}

impl View for P256Signature {
    type V = Seq<u8>;

    closed spec fn view(&self) -> Seq<u8> {
        self.data@
    }
}

impl Clone for P256Signature {
    fn clone(&self) -> (copy: Self)
        ensures
            copy@ == self@,
    {
        Self { data: self.data }
    }
}

impl View for P256SharedSecret {
    type V = Seq<u8>;

    closed spec fn view(&self) -> Seq<u8> {
        self.data@
    }
}

impl Clone for P256SharedSecret {
    fn clone(&self) -> (copy: Self)
        ensures
            copy@ == self@,
    {
        Self { data: self.data }
    }
}

impl P256PrivateKey {
    /// The private key made of `bytes`.
    pub closed spec fn from_array(bytes: [u8; 32]) -> Self {
        Self { data: bytes }
    }

    /// The bytes of the private key.
    pub closed spec fn array(&self) -> [u8; 32] {
        self.data
    }

    #[verifier::allow_in_spec]
    pub fn from_bytes(bytes: [u8; 32]) -> (key: Self)
        ensures
            key@ == bytes@,
        returns
            Self::from_array(bytes),
    {
        Self { data: bytes }
    }

    #[verifier::allow_in_spec]
    pub fn as_bytes(&self) -> (bytes: &[u8; 32])
        ensures
            bytes@ == self@,
        returns
            &self.array(),
    {
        &self.data
    }
}

/// The bytes of a private key built from `bytes` are `bytes`, and a private key rebuilt
/// from the bytes of another is that same private key.
pub proof fn lemma_private_key_bytes_round_trip(bytes: [u8; 32], key: P256PrivateKey)
    ensures
        *P256PrivateKey::from_bytes(bytes).as_bytes() == bytes,
        P256PrivateKey::from_bytes(*key.as_bytes()) == key,
{
}

impl P256PublicKey {
    /// The public key made of `bytes`.
    pub closed spec fn from_array(bytes: [u8; 64]) -> Self {
        Self { data: bytes }
    }

    /// The bytes of the public key.
    pub closed spec fn array(&self) -> [u8; 64] {
        self.data
    }

    #[verifier::allow_in_spec]
    pub fn from_bytes(bytes: [u8; 64]) -> (key: Self)
        ensures
            key@ == bytes@,
        returns
            Self::from_array(bytes),
    {
        Self { data: bytes }
    }

    #[verifier::allow_in_spec]
    pub fn as_bytes(&self) -> (bytes: &[u8; 64])
        ensures
            bytes@ == self@,
        returns
            &self.array(),
    {
        &self.data
    }
}

/// The bytes of a public key built from `bytes` are `bytes`, and a public key rebuilt
/// from the bytes of another is that same public key.
pub proof fn lemma_public_key_bytes_round_trip(bytes: [u8; 64], key: P256PublicKey)
    ensures
        *P256PublicKey::from_bytes(bytes).as_bytes() == bytes,
        P256PublicKey::from_bytes(*key.as_bytes()) == key,
{
}

impl P256Signature {
    /// The signature made of `bytes`.
    pub closed spec fn from_array(bytes: [u8; 64]) -> Self {
        Self { data: bytes }
    }

    /// The bytes of the signature.
    pub closed spec fn array(&self) -> [u8; 64] {
        self.data
    }

    #[verifier::allow_in_spec]
    pub fn from_bytes(bytes: [u8; 64]) -> (signature: Self)
        ensures
            signature@ == bytes@,
        returns
            Self::from_array(bytes),
    {
        Self { data: bytes }
    }

    #[verifier::allow_in_spec]
    pub fn as_bytes(&self) -> (bytes: &[u8; 64])
        ensures
            bytes@ == self@,
        returns
            &self.array(),
    {
        &self.data
    }
}

/// The bytes of a signature built from `bytes` are `bytes`, and a signature rebuilt
/// from the bytes of another is that same signature.
pub proof fn lemma_signature_bytes_round_trip(bytes: [u8; 64], signature: P256Signature)
    ensures
        *P256Signature::from_bytes(bytes).as_bytes() == bytes,
        P256Signature::from_bytes(*signature.as_bytes()) == signature,
{
}

impl P256SharedSecret {
    /// The shared secret made of `bytes`.
    pub closed spec fn from_array(bytes: [u8; 32]) -> Self {
        Self { data: bytes }
    }

    /// The bytes of the shared secret.
    pub closed spec fn array(&self) -> [u8; 32] {
        self.data
    }

    #[verifier::allow_in_spec]
    pub fn from_bytes(bytes: [u8; 32]) -> (secret: Self)
        ensures
            secret@ == bytes@,
        returns
            Self::from_array(bytes),
    {
        Self { data: bytes }
    }

    #[verifier::allow_in_spec]
    pub fn as_bytes(&self) -> (bytes: &[u8; 32])
        ensures
            bytes@ == self@,
        returns
            &self.array(),
    {
        &self.data
    }
}

/// The bytes of a shared secret built from `bytes` are `bytes`, and a shared secret rebuilt
/// from the bytes of another is that same shared secret.
pub proof fn lemma_shared_secret_bytes_round_trip(bytes: [u8; 32], secret: P256SharedSecret)
    ensures
        *P256SharedSecret::from_bytes(bytes).as_bytes() == bytes,
        P256SharedSecret::from_bytes(*secret.as_bytes()) == secret,
{
}

/// The P-256 elliptic curve, for signatures (ECDSA) and key agreement (ECDH).
pub struct P256;

impl P256 {
    /// Reads the bridge's reply to key generation: status 0 hands back the
    /// two filled buffers as a key pair, any other status is
    /// `KeyGenerationFailed`.
    pub fn key_pair_from_reply(status: i32, private_key: [u8; 32], public_key: [u8; 64]) -> (r:
        Result<(P256PrivateKey, P256PublicKey), CryptoKitError>)
        ensures
            status == 0 ==> (r matches Ok((sk, pk)) && sk@ == private_key@ && pk@ == public_key@),
            status != 0 ==> r matches Err(CryptoKitError::KeyGenerationFailed),
    {
        if status == 0 {
            Ok((P256PrivateKey::from_bytes(private_key), P256PublicKey::from_bytes(public_key)))
        } else {
            Err(CryptoKitError::KeyGenerationFailed)
        }
    }

    /// Reads the bridge's reply to signing: status 0 hands back the filled
    /// buffer as the signature, any other status is `SignatureFailed`.
    pub fn signature_from_reply(status: i32, signature: [u8; 64]) -> (r: Result<
        P256Signature,
        CryptoKitError,
    >)
        ensures
            status == 0 ==> (r matches Ok(sig) && sig@ == signature@),
            status != 0 ==> r matches Err(CryptoKitError::SignatureFailed),
    {
        if status == 0 {
            Ok(P256Signature::from_bytes(signature))
        } else {
            Err(CryptoKitError::SignatureFailed)
        }
    }

    /// Reads the bridge's reply to verification: 1 is a valid signature, 0 an
    /// invalid one, anything else `VerificationFailed`.
    pub fn verdict_from_reply(status: i32) -> (r: Result<bool, CryptoKitError>)
        ensures
            status == 1 ==> r == Ok::<bool, CryptoKitError>(true),
            status == 0 ==> r == Ok::<bool, CryptoKitError>(false),
            status != 0 && status != 1 ==> r matches Err(CryptoKitError::VerificationFailed),
    {
        match status {
            1 => Ok(true),
            0 => Ok(false),
            _ => Err(CryptoKitError::VerificationFailed),
        }
    }

    /// Reads the bridge's reply to key agreement: status 0 hands back the
    /// filled buffer as the shared secret, any other status is
    /// `DerivationFailed`.
    pub fn shared_secret_from_reply(status: i32, shared_secret: [u8; 32]) -> (r: Result<
        P256SharedSecret,
        CryptoKitError,
    >)
        ensures
            status == 0 ==> (r matches Ok(secret) && secret@ == shared_secret@),
            status != 0 ==> r matches Err(CryptoKitError::DerivationFailed),
    {
        if status == 0 {
            Ok(P256SharedSecret::from_bytes(shared_secret))
        } else {
            Err(CryptoKitError::DerivationFailed)
        }
    }
}

/// Reads the bridge's reply to deleting every Secure Enclave key of the app
/// from the Keychain: status 0 is success, anything else an `InvalidInput`
/// error.
pub fn delete_all_keys_from_reply(status: i32) -> (r: Result<(), CryptoKitError>)
    ensures
        status == 0 <==> r is Ok,
        r matches Err(e) ==> is_invalid_input(e, "Failed to delete all SE keys"@),
{
    if status != 0 {
        return Err(invalid_input("Failed to delete all SE keys"));
    }
    Ok(())
}

/// Secure Enclave P-256 private key handle (opaque data representation).
pub struct SEP256PrivateKey {
    data_representation: Vec<u8>,
}

impl View for SEP256PrivateKey {
    type V = Seq<u8>;

    /// The opaque data representation of the key.
    closed spec fn view(&self) -> Seq<u8> {
        self.data_representation@
    }
}

impl SEP256PrivateKey {
    /// Reads the bridge's reply to generating a key in the Secure Enclave.
    ///
    /// `data_representation` is the buffer the bridge filled and
    /// `data_representation_len` the length it reported. Status -2 means the
    /// access control could not be created, -3 that the bridge wrote an error
    /// message into the buffer, 0 success; any other status is
    /// `KeyGenerationFailed`.
    pub fn from_generate_reply(
        status: i32,
        data_representation: Vec<u8>,
        data_representation_len: usize,
    ) -> (r: Result<Self, CryptoKitError>)
        requires
            status == -3 ==> data_representation_len <= data_representation@.len(),
        ensures
            status == 0 ==> (r matches Ok(key) && key@ == truncated(
                data_representation@,
                data_representation_len as int,
            )),
            status == -2 ==> (r matches Err(e) && is_invalid_input(
                e,
                "SecAccessControlCreateWithFlags returned nil"@,
            )),
            status == -3 ==> (r matches Err(e) && is_invalid_input(
                e,
                utf8_lossy(data_representation@.take(data_representation_len as int)),
            )),
            status != 0 && status != -2 && status != -3 ==> r matches Err(
                CryptoKitError::KeyGenerationFailed,
            ),
    {
        if status == -2 {
            return Err(invalid_input("SecAccessControlCreateWithFlags returned nil"));
        }
        if status == -3 {
            let message = vstd::slice::slice_subrange(
                data_representation.as_slice(),
                0,
                data_representation_len,
            );
            return Err(CryptoKitError::InvalidInput(decode_utf8_lossy(message)));
        }
        if status != 0 {
            return Err(CryptoKitError::KeyGenerationFailed);
        }
        Ok(SEP256PrivateKey {
            data_representation: truncate_to(data_representation, data_representation_len),
        })
    }

    /// Reads the bridge's reply to reading back the public key: status 0
    /// hands back the filled buffer as the key, any other status is
    /// `KeyGenerationFailed`.
    pub fn public_key_from_reply(status: i32, public_key: &[u8]) -> (r: Result<
        P256PublicKey,
        CryptoKitError,
    >)
        requires
            status == 0 ==> public_key@.len() == P256_PUBLIC_KEY_SIZE,
        ensures
            status == 0 ==> (r matches Ok(pk) && pk@ == public_key@),
            status != 0 ==> r matches Err(CryptoKitError::KeyGenerationFailed),
    {
        if status != 0 {
            return Err(CryptoKitError::KeyGenerationFailed);
        }
        let pk = first_64(public_key);
        assert(public_key@.take(64) =~= public_key@);
        Ok(P256PublicKey::from_bytes(pk))
    }

    /// Reads the bridge's reply to signing with the key: status 0 hands back
    /// the first 64 bytes of the buffer as the signature, any other status is
    /// `SigningFailed`.
    pub fn signature_from_reply(status: i32, signature: &[u8]) -> (r: Result<
        P256Signature,
        CryptoKitError,
    >)
        requires
            status == 0 ==> signature@.len() >= P256_SIGNATURE_SIZE,
        ensures
            status == 0 ==> (r matches Ok(sig) && sig@ == signature@.take(64)),
            status != 0 ==> r matches Err(CryptoKitError::SigningFailed),
    {
        if status != 0 {
            return Err(CryptoKitError::SigningFailed);
        }
        Ok(P256Signature::from_bytes(first_64(signature)))
    }

    /// Opaque data representation for persistence.
    pub fn data_representation(&self) -> (data: &[u8])
        ensures
            data@ == self@,
    {
        self.data_representation.as_slice()
    }

    /// Restores a key handle from a persisted data representation.
    pub fn from_data_representation(data: &[u8]) -> (key: Self)
        ensures
            key@ == data@,
    {
        SEP256PrivateKey { data_representation: vstd::slice::slice_to_vec(data) }
    }

    /// Reads the bridge's reply to deleting the key from the Secure Enclave
    /// and Keychain: status 0 is success, anything else an `InvalidInput`
    /// error.
    pub fn deletion_from_reply(status: i32) -> (r: Result<(), CryptoKitError>)
        ensures
            status == 0 <==> r is Ok,
            r matches Err(e) ==> is_invalid_input(e, "Failed to delete SE P256 key"@),
    {
        if status != 0 {
            return Err(invalid_input("Failed to delete SE P256 key"));
        }
        Ok(())
    }
}

} // verus!
