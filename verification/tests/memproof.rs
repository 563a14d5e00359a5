use hpos_hc_connect::memproof::{
    add_core_app, add_holofuel, choose_mem_proof, create_vec_for_happ, decode_mem_proof,
    decode_mem_proof_text, mem_proof_url, read_only_mem_proof,
    uses_read_only_mem_proof, MemProofChoice, MemProofError, RegistrationError,
};

#[test]
fn read_only_proof_is_a_single_zero_byte() {
    assert_eq!(read_only_mem_proof(), vec![0u8]);
    assert!(uses_read_only_mem_proof("true"));
    assert!(!uses_read_only_mem_proof("false"));
    assert!(!uses_read_only_mem_proof("TRUE"));
}

#[test]
fn core_app_gets_proofs_for_both_roles() {
    let v = add_core_app(vec![7, 8]);
    assert_eq!(v.len(), 2);
    assert_eq!(v[0].role_name, "core-app");
    assert_eq!(v[0].proof, vec![7, 8]);
    assert_eq!(v[1].role_name, "holofuel");
    assert_eq!(v[1].proof, vec![7, 8]);
    let h = add_holofuel(vec![1]);
    assert_eq!(h.len(), 1);
    assert_eq!(h[0].role_name, "holofuel");
}

#[test]
fn proofs_by_happ_id() {
    let core = create_vec_for_happ("core-app:0_2", vec![1]);
    assert_eq!(core.len(), 2);
    assert_eq!(core[0].role_name, "core-app");
    assert_eq!(core[1].role_name, "holofuel");
    assert_eq!(core[1].proof, vec![1]);
    // proofs are made for the core app only
    assert!(create_vec_for_happ("holofuel:0_1", vec![1]).is_empty());
    assert!(create_vec_for_happ("chat:1", vec![1]).is_empty());
}

#[test]
fn stored_proofs_are_decoded() {
    assert_eq!(decode_mem_proof_text("aGVsbG8=").unwrap(), b"hello".to_vec());
    assert_eq!(decode_mem_proof(b"AAEC").unwrap(), vec![0u8, 1, 2]);
    assert!(matches!(decode_mem_proof_text("not base64!"), Err(MemProofError::BadBase64)));
    assert!(matches!(decode_mem_proof(&[0xff, 0xfe]), Err(MemProofError::NotUtf8)));
    assert_eq!(decode_mem_proof(b"").unwrap(), Vec::<u8>::new());
}

#[test]
fn the_membrane_proof_is_chosen() {
    assert!(matches!(choose_mem_proof("true", Some(vec![5])), MemProofChoice::ReadOnly(p) if p == vec![0]));
    assert!(matches!(choose_mem_proof("false", Some(vec![5])), MemProofChoice::Stored(p) if p == vec![5]));
    assert!(matches!(choose_mem_proof("false", None), MemProofChoice::Download));
    assert!(matches!(choose_mem_proof("", None), MemProofChoice::Download));
}

#[test]
fn membrane_proof_server_details() {
    assert_eq!(mem_proof_url("https://membrane-proof.dev.holotest.net"), "https://membrane-proof.dev.holotest.net/membrane-proof");
    let e = RegistrationError { error: "bad code".to_string(), is_displayed_to_user: true, info: "see docs".to_string() };
    assert_eq!(e.message(), "Error: bad code, More Info: see docs");
}
