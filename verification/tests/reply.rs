use cryptokit::error::{invalid_input, CryptoKitError};
use cryptokit::reply::{first_64, signature_from_status, truncate_to};

#[test]
fn truncate_to_keeps_reported_prefix() {
    assert_eq!(truncate_to(vec![1, 2, 3, 4], 2), vec![1, 2]);
    assert_eq!(truncate_to(vec![1, 2, 3, 4], 4), vec![1, 2, 3, 4]);
    assert_eq!(truncate_to(vec![1, 2, 3, 4], 9), vec![1, 2, 3, 4]);
    assert_eq!(truncate_to(vec![1, 2, 3, 4], 0), Vec::<u8>::new());
}

#[test]
fn first_64_copies_prefix() {
    let bytes: Vec<u8> = (0..100u8).collect();
    let out = first_64(&bytes);
    assert_eq!(&out[..], &bytes[..64]);
}

#[test]
fn signing_status_reply() {
    assert_eq!(signature_from_status(0, vec![9, 8, 7], 2), Ok(vec![9, 8]));
    assert_eq!(
        signature_from_status(-7, vec![9, 8, 7], 2),
        Err(CryptoKitError::SigningFailed)
    );
}

#[test]
fn invalid_input_carries_message() {
    assert_eq!(
        invalid_input("bad"),
        CryptoKitError::InvalidInput("bad".to_string())
    );
}
