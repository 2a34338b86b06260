use cryptokit::error::CryptoKitError;
use cryptokit::quantum::signature::{
    DigitalSignatureAlgorithm, MLDsa65, MLDsa65PrivateKey, MLDsa65PublicKey, MLDsa87,
    MLDsa87PrivateKey, MLDsa87PublicKey, SEMLDsa65PrivateKey, SEMLDsa87PrivateKey,
    SignaturePrivateKey, SignaturePublicKey, MLDSA65_PUBLIC_KEY_SIZE, MLDSA65_SEED_SIZE,
    MLDSA65_SIGNATURE_SIZE, MLDSA87_PUBLIC_KEY_SIZE, MLDSA87_SEED_SIZE, MLDSA87_SIGNATURE_SIZE,
};
use cryptokit::quantum::QuantumSafe;

fn bytes(len: usize, seed: u8) -> Vec<u8> {
    (0..len).map(|i| seed.wrapping_add(i as u8)).collect()
}

fn invalid_input(r: &CryptoKitError, msg: &str) -> bool {
    matches!(r, CryptoKitError::InvalidInput(m) if m == msg)
}

#[test]
fn algorithm_names_and_levels() {
    assert_eq!(MLDsa65::algorithm_name(), "ML-DSA-65");
    assert_eq!(MLDsa65::security_level(), 2);
    assert_eq!(MLDsa87::algorithm_name(), "ML-DSA-87");
    assert_eq!(MLDsa87::security_level(), 3);
}

#[test]
fn sizes() {
    assert_eq!(MLDSA65_PUBLIC_KEY_SIZE, 1952);
    assert_eq!(MLDSA65_SEED_SIZE, 64);
    assert_eq!(MLDSA65_SIGNATURE_SIZE, 3309);
    assert_eq!(MLDSA87_PUBLIC_KEY_SIZE, 2592);
    assert_eq!(MLDSA87_SEED_SIZE, 64);
    assert_eq!(MLDSA87_SIGNATURE_SIZE, 4627);
}

#[test]
fn mldsa65_generated_key_keeps_seed_and_public_key() {
    let seed = bytes(64, 1);
    let pk = bytes(1952, 2);
    let key = MLDsa65::private_key_from_reply(0, seed.clone(), pk.clone())
        .unwrap_or_else(|e| panic!("{:?}", e));
    assert_eq!(key.to_bytes(), seed);
    assert_eq!(key.public_key().to_bytes(), pk);
}

#[test]
fn mldsa65_generation_failure() {
    let r = MLDsa65::private_key_from_reply(-1, bytes(64, 0), bytes(1952, 0));
    assert!(matches!(r, Err(CryptoKitError::KeyGenerationFailed)));
}

#[test]
fn mldsa65_signature_reply_truncates() {
    let buf = bytes(3309, 5);
    let sig = MLDsa65PrivateKey::signature_from_reply(0, buf.clone(), 3000).unwrap();
    assert_eq!(sig, buf[..3000].to_vec());
    let whole = MLDsa65PrivateKey::signature_from_reply(0, buf.clone(), 5000).unwrap();
    assert_eq!(whole, buf);
    assert_eq!(
        MLDsa65PrivateKey::signature_from_reply(1, buf, 3000),
        Err(CryptoKitError::SigningFailed)
    );
}

#[test]
fn mldsa65_seed_check() {
    assert_eq!(MLDsa65PrivateKey::check_seed(&bytes(64, 0)), Ok(()));
    let short = MLDsa65PrivateKey::check_seed(&bytes(63, 0)).unwrap_err();
    assert!(invalid_input(&short, "Invalid private key length"));
    let long = MLDsa65PrivateKey::check_seed(&bytes(65, 0)).unwrap_err();
    assert!(invalid_input(&long, "Invalid private key length"));
}

#[test]
fn mldsa65_import_with_derived_public_key() {
    let seed = bytes(64, 11);
    let pk = bytes(1952, 12);
    let key = MLDsa65PrivateKey::from_seed_reply(&seed, 0, pk.clone())
        .unwrap_or_else(|e| panic!("{:?}", e));
    assert_eq!(key.to_bytes(), seed);
    assert_eq!(key.public_key().to_bytes(), pk);
    match MLDsa65PrivateKey::from_seed_reply(&seed, -1, pk) {
        Err(e) => assert!(invalid_input(&e, "Invalid private key")),
        Ok(_) => panic!("derivation failure must be an error"),
    }
}

#[test]
fn mldsa65_verdict_zero_is_valid_one_is_invalid() {
    assert_eq!(MLDsa65PublicKey::verdict_from_reply(0), Ok(true));
    assert_eq!(MLDsa65PublicKey::verdict_from_reply(1), Ok(false));
    assert_eq!(
        MLDsa65PublicKey::verdict_from_reply(-1),
        Err(CryptoKitError::VerificationFailed)
    );
}

#[test]
fn mldsa65_public_key_bytes_round_trip() {
    let pk = bytes(1952, 33);
    let key = MLDsa65PublicKey::from_bytes(&pk).unwrap_or_else(|e| panic!("{:?}", e));
    assert_eq!(key.to_bytes(), pk);
    let again = MLDsa65PublicKey::from_bytes(&key.to_bytes()).unwrap_or_else(|e| panic!("{:?}", e));
    assert_eq!(again.to_bytes(), pk);
    assert_eq!(key.clone().to_bytes(), pk);
}

#[test]
fn mldsa65_public_key_wrong_length() {
    for len in [0usize, 1951, 1953, 2592] {
        match MLDsa65PublicKey::from_bytes(&bytes(len, 0)) {
            Err(e) => assert!(invalid_input(&e, "Invalid public key length")),
            Ok(_) => panic!("length {} must be rejected", len),
        }
    }
}

#[test]
fn mldsa87_generated_key_keeps_seed_and_public_key() {
    let seed = bytes(64, 3);
    let pk = bytes(2592, 4);
    let key = MLDsa87::private_key_from_reply(0, seed.clone(), pk.clone())
        .unwrap_or_else(|e| panic!("{:?}", e));
    assert_eq!(key.to_bytes(), seed);
    assert_eq!(key.public_key().to_bytes(), pk);
    let r = MLDsa87::private_key_from_reply(2, seed, pk);
    assert!(matches!(r, Err(CryptoKitError::KeyGenerationFailed)));
}

#[test]
fn mldsa87_import_and_verdicts() {
    assert!(MLDsa87PrivateKey::check_seed(&bytes(64, 0)).is_ok());
    let e = MLDsa87PrivateKey::check_seed(&bytes(32, 0)).unwrap_err();
    assert!(invalid_input(&e, "Invalid private key length"));
    let seed = bytes(64, 21);
    let pk = bytes(2592, 22);
    let key = MLDsa87PrivateKey::from_seed_reply(&seed, 0, pk.clone())
        .unwrap_or_else(|e| panic!("{:?}", e));
    assert_eq!(key.public_key().to_bytes(), pk);
    assert_eq!(MLDsa87PublicKey::verdict_from_reply(0), Ok(true));
    assert_eq!(MLDsa87PublicKey::verdict_from_reply(1), Ok(false));
    assert_eq!(
        MLDsa87PublicKey::verdict_from_reply(7),
        Err(CryptoKitError::VerificationFailed)
    );
}

#[test]
fn mldsa87_public_key_bytes() {
    let pk = bytes(2592, 1);
    let key = MLDsa87PublicKey::from_bytes(&pk).unwrap_or_else(|e| panic!("{:?}", e));
    assert_eq!(key.to_bytes(), pk);
    match MLDsa87PublicKey::from_bytes(&bytes(1952, 0)) {
        Err(e) => assert!(invalid_input(&e, "Invalid public key length")),
        Ok(_) => panic!("an ML-DSA-65 sized key must be rejected"),
    }
    let sig = MLDsa87PrivateKey::signature_from_reply(0, bytes(4627, 0), 4600).unwrap();
    assert_eq!(sig.len(), 4600);
}

#[test]
fn se_mldsa65_generate_reply() {
    let mut rep = vec![0u8; 16384];
    rep[..4].copy_from_slice(&[4, 3, 2, 1]);
    let pk = bytes(1952, 8);
    let key = SEMLDsa65PrivateKey::from_generate_reply(0, rep.clone(), 4, pk.clone())
        .unwrap_or_else(|e| panic!("{:?}", e));
    assert_eq!(key.data_representation(), &[4, 3, 2, 1]);
    assert_eq!(key.public_key().to_bytes(), pk);
    assert!(matches!(
        SEMLDsa65PrivateKey::from_generate_reply(-1, rep, 4, pk),
        Err(CryptoKitError::KeyGenerationFailed)
    ));
}

#[test]
fn se_mldsa65_restore_and_sign_reply() {
    let pk = MLDsa65PublicKey::from_bytes(&bytes(1952, 90)).unwrap_or_else(|e| panic!("{:?}", e));
    let key = SEMLDsa65PrivateKey::from_data_representation(&[1, 2, 3], &pk);
    assert_eq!(key.data_representation(), &[1, 2, 3]);
    assert_eq!(key.public_key().to_bytes(), pk.to_bytes());
    let sig = SEMLDsa65PrivateKey::signature_from_reply(0, bytes(3309, 0), 3293).unwrap();
    assert_eq!(sig, bytes(3293, 0));
    assert_eq!(
        SEMLDsa65PrivateKey::signature_from_reply(-1, bytes(3309, 0), 3293),
        Err(CryptoKitError::SigningFailed)
    );
}

#[test]
fn se_mldsa87_generate_restore_and_sign_reply() {
    let pk = bytes(2592, 70);
    let key = SEMLDsa87PrivateKey::from_generate_reply(0, vec![5u8; 16384], 100, pk.clone())
        .unwrap_or_else(|e| panic!("{:?}", e));
    assert_eq!(key.data_representation(), &[5u8; 100][..]);
    assert_eq!(key.public_key().to_bytes(), pk);
    let restored = SEMLDsa87PrivateKey::from_data_representation(key.data_representation(), key.public_key());
    assert_eq!(restored.data_representation(), key.data_representation());
    assert_eq!(restored.public_key().to_bytes(), pk);
    assert!(matches!(
        SEMLDsa87PrivateKey::from_generate_reply(3, vec![0u8; 16], 4, pk),
        Err(CryptoKitError::KeyGenerationFailed)
    ));
    let sig = SEMLDsa87PrivateKey::signature_from_reply(0, bytes(4627, 1), 4627).unwrap();
    assert_eq!(sig, bytes(4627, 1));
    assert_eq!(
        SEMLDsa87PrivateKey::signature_from_reply(2, bytes(4627, 1), 4627),
        Err(CryptoKitError::SigningFailed)
    );
}
