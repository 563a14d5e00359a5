//! Fresh nonces for signed zome calls and coordinator requests: 32 random
//! bytes, valid for five minutes.
use vstd::prelude::*;

verus! {

/// The error type of the `getrandom` crate.
#[verifier::external_type_specification]
#[verifier::external_body]
pub struct ExGetrandomError(getrandom::Error);

/// How long a nonce stays valid, in microseconds (five minutes).
pub const NONCE_LIFETIME_MICROS: i64 = 300_000_000;

/// Why no nonce could be made.
#[derive(Clone, Copy, Debug, PartialEq, Eq, Structural)]
pub enum NonceError {
    /// The operating system gave no random bytes.
    NoRandomness,
    /// The expiry time does not fit a timestamp.
    ExpiryOverflow,
}

/// Fills 32 bytes with `getrandom::getrandom`. The bytes come from the
/// operating system's random source, so nothing is claimed of them, nor of
/// whether the call succeeds.
#[verifier::external_body]
fn random_bytes_32() -> (r: Result<[u8; 32], getrandom::Error>) {
    let mut bytes = [0u8; 32];
    match getrandom::getrandom(&mut bytes) {
        Ok(()) => Ok(bytes),
        Err(e) => Err(e),
    }
}

/// A nonce from the outcome of drawing random bytes, expiring five minutes
/// after `now_micros` (a timestamp in microseconds).
pub fn nonce_from(random: Result<[u8; 32], getrandom::Error>, now_micros: i64) -> (r: Result<([u8; 32], i64), NonceError>)
    ensures
        match random {
            Err(_) => r == Err::<([u8; 32], i64), NonceError>(NonceError::NoRandomness),
            Ok(bytes) => if now_micros + NONCE_LIFETIME_MICROS <= i64::MAX {
                r == Ok::<([u8; 32], i64), NonceError>((bytes, (now_micros + NONCE_LIFETIME_MICROS) as i64))
            } else {
                r == Err::<([u8; 32], i64), NonceError>(NonceError::ExpiryOverflow)
            },
        },
{
    match random {
        Err(_) => Err(NonceError::NoRandomness),
        Ok(bytes) => match now_micros.checked_add(NONCE_LIFETIME_MICROS) {
            Some(expires) => Ok((bytes, expires)),
            None => Err(NonceError::ExpiryOverflow),
        },
    }
}

/// Draws a fresh nonce and its expiry, five minutes after `now_micros`.
/// Whether random bytes can be had is up to the operating system; when they
/// are, the expiry is exact, and an expiry beyond the timestamp range is an error.
pub fn fresh_nonce(now_micros: i64) -> (r: Result<([u8; 32], i64), NonceError>)
    ensures
        r matches Ok((_, expires)) ==> expires == now_micros + NONCE_LIFETIME_MICROS,
        now_micros + NONCE_LIFETIME_MICROS > i64::MAX ==> r is Err,
        r matches Err(NonceError::ExpiryOverflow) ==> now_micros + NONCE_LIFETIME_MICROS > i64::MAX,
{
    nonce_from(random_bytes_32(), now_micros)
}

} // verus!
