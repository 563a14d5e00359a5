use ed25519_dalek::Signer;
use hpos_hc_connect::host_keys::HostKeys;

#[test]
fn payloads_are_signed_with_the_host_key() {
    let secret = [11u8; 32];
    let keys = HostKeys::from_parts("a@b.c".to_string(), secret, "pk36".to_string(), "hp".to_string());
    let payload = b"{\"email\":\"a@b.c\"}";
    let signed = keys.sign(payload).unwrap();

    let expected_sig = ed25519_dalek::SigningKey::from_bytes(&secret).sign(payload).to_bytes();
    let expected = base64::encode_config(expected_sig, base64::STANDARD_NO_PAD);
    assert_eq!(signed, expected);
    // 64 signature bytes in unpadded base64
    assert_eq!(signed.len(), 86);
    assert!(!signed.ends_with('='));
    assert_ne!(signed.as_bytes(), &payload[..]);
    assert_eq!(keys.email, "a@b.c");
    assert_eq!(keys.holoport_id, "hp");
}

#[test]
fn signatures_depend_on_key_and_payload() {
    let k1 = HostKeys::from_parts(String::new(), [1u8; 32], String::new(), String::new());
    let k2 = HostKeys::from_parts(String::new(), [2u8; 32], String::new(), String::new());
    let s1 = k1.sign(b"x").unwrap();
    assert_eq!(s1, k1.sign(b"x").unwrap());
    assert_ne!(s1, k2.sign(b"x").unwrap());
    assert_ne!(s1, k1.sign(b"y").unwrap());
}
