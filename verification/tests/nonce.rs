use hpos_hc_connect::nonce::{fresh_nonce, nonce_from, NonceError, NONCE_LIFETIME_MICROS};

#[test]
fn nonces_expire_after_five_minutes() {
    assert_eq!(NONCE_LIFETIME_MICROS, 5 * 60 * 1_000_000);
    let (bytes, expires) = nonce_from(Ok([9u8; 32]), 1_000).unwrap();
    assert_eq!(bytes, [9u8; 32]);
    assert_eq!(expires, 1_000 + 300_000_000);
}

#[test]
fn nonce_errors() {
    assert_eq!(nonce_from(Err(getrandom::Error::UNSUPPORTED), 0), Err(NonceError::NoRandomness));
    assert_eq!(nonce_from(Ok([0u8; 32]), i64::MAX - 1), Err(NonceError::ExpiryOverflow));
    assert_eq!(fresh_nonce(i64::MAX), Err(NonceError::ExpiryOverflow));
}

#[test]
fn fresh_nonces_differ() {
    let (a, ea) = fresh_nonce(7).unwrap();
    let (b, _) = fresh_nonce(7).unwrap();
    assert_eq!(ea, 7 + NONCE_LIFETIME_MICROS);
    assert_ne!(a, b);
}
