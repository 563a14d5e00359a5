//! The host's signing keys: signing payloads for Holo's backend.
use ed25519_dalek::Signer;
use vstd::prelude::*;

verus! {

/// The Ed25519 signature (64 bytes) of `message` under the secret key `secret_key`.
pub uninterp spec fn ed25519_signature(secret_key: Seq<u8>, message: Seq<u8>) -> Seq<u8>;

/// The standard base64 encoding of `bytes`, without padding.
pub uninterp spec fn base64_standard_no_pad(bytes: Seq<u8>) -> Seq<char>;

/// Signs with ed25519-dalek: `SigningKey::from_bytes` then `try_sign`, which
/// the crate's source shows never fails for a signing key; claims that the
/// signature's bytes are the Ed25519 signature of the message under the key.
#[verifier::external_body]
fn sign_ed25519(secret_key: &[u8; 32], message: &[u8]) -> (r: [u8; 64])
    ensures
        r@ == ed25519_signature(secret_key@, message@),
{
    let key = ed25519_dalek::SigningKey::from_bytes(secret_key);
    key.try_sign(message).unwrap().to_bytes()
}

/// Encodes with `base64::encode_config(.., base64::STANDARD_NO_PAD)`; claims
/// that the text is the encoding of the bytes. The crate panics when the
/// encoded size overflows a `usize`, which `requires` leaves out.
#[verifier::external_body]
fn encode_standard_no_pad(bytes: &[u8]) -> (r: String)
    requires
        bytes@.len() <= usize::MAX / 4,
    ensures
        r@ == base64_standard_no_pad(bytes@),
{
    base64::encode_config(bytes, base64::STANDARD_NO_PAD)
}

/// The keys of the host, with the admin's email.
pub struct HostKeys {
    pub email: String,
    secret_key: [u8; 32],
    pub pubkey_base36: String,
    pub holoport_id: String,
}

/// Why a payload could not be signed.
#[derive(Debug)]
pub enum SignError {
    Failed,
}

impl HostKeys {
    /// The host's keys, from the admin's email, the Ed25519 secret key, and
    /// the public key's two encodings (for Holochain and as holoport id).
    pub fn from_parts(email: String, secret_key: [u8; 32], pubkey_base36: String, holoport_id: String) -> (r: HostKeys)
        ensures
            r.parts() == (email, secret_key@, pubkey_base36, holoport_id),
    {
        HostKeys { email, secret_key, pubkey_base36, holoport_id }
    }

    /// The Ed25519 secret key.
    pub closed spec fn secret_key(&self) -> Seq<u8> {
        self.secret_key@
    }

    /// The email, secret key, and public key encodings.
    pub closed spec fn parts(&self) -> (String, Seq<u8>, String, String) {
        (self.email, self.secret_key@, self.pubkey_base36, self.holoport_id)
    }

    /// Signs a payload with the host's key; returns the signature in base64
    /// (standard alphabet, no padding).
    pub fn sign(&self, payload: &[u8]) -> (r: Result<String, SignError>)
        ensures
            r matches Ok(s) && s@ == base64_standard_no_pad(ed25519_signature(self.secret_key(), payload@)),
    {
        let signature = sign_ed25519(&self.secret_key, payload);
        Ok(encode_standard_no_pad(&signature))
    }
}

} // verus!
