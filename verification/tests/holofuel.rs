use hpos_hc_connect::holofuel::{
    actionable_count, agent_is_expected, bytes_eq, expect_pubkey, fee_collector_pubkey,
    nickname_to_set, pending_counts, reserve_registration,
    profile_nickname, reserve_needs_registration, signing_key_bytes, Actionable, Pending,
    ReserveSalePrice, ReserveSettingFile, Transaction, TransactionDirection, TransactionStatus,
    TransactionType,
};
use std::time::Duration;

fn tx(id: &str) -> Transaction {
    Transaction {
        id: id.to_string(),
        amount: "1".to_string(),
        fee: "0".to_string(),
        transaction_type: TransactionType::Request,
        counterparty: "agent".to_string(),
        direction: TransactionDirection::Incoming,
        status: TransactionStatus::Pending,
        note: None,
        url: None,
    }
}

#[test]
fn pending_transactions_are_counted() {
    let p = Pending {
        invoice_pending: vec![tx("a"), tx("b")],
        promise_pending: vec![tx("c")],
        invoice_declined: vec![],
        promise_declined: vec![tx("d")],
        accepted: vec![tx("e"), tx("f"), tx("g")],
    };
    let c = pending_counts(&p);
    assert_eq!((c.pending, c.declined, c.accepted), (3, 1, 3));
    let a = Actionable { invoice_actionable: vec![tx("x")], promise_actionable: vec![tx("y"), tx("z")] };
    assert_eq!(actionable_count(&a), 3);
}

#[test]
fn nicknames() {
    assert_eq!(profile_nickname(true, false), "Holo Fee Collector");
    assert_eq!(profile_nickname(false, true), "HOT Reserve");
    assert_eq!(profile_nickname(true, true), "HOT Reserve");
    assert_eq!(profile_nickname(false, false), "Holo Account");
    assert_eq!(nickname_to_set(&Some("me".to_string()), true, false), None);
    assert_eq!(nickname_to_set(&None, false, false), Some("Holo Account".to_string()));
}

#[test]
fn expected_agent_and_keys() {
    assert!(agent_is_expected(&None, &vec![1, 2]));
    assert!(agent_is_expected(&Some(vec![1, 2]), &vec![1, 2]));
    assert!(!agent_is_expected(&Some(vec![1, 3]), &vec![1, 2]));
    assert!(bytes_eq(&vec![], &vec![]));
    assert!(!bytes_eq(&vec![1], &vec![1, 1]));
    assert!(reserve_needs_registration(0));
    assert!(!reserve_needs_registration(2));
    assert_eq!(signing_key_bytes(&vec![7; 32]), Some([7u8; 32]));
    assert_eq!(signing_key_bytes(&vec![7; 31]), None);
}

#[test]
fn reserve_settings_take_the_agent_key() {
    let file = ReserveSettingFile {
        external_reserve_currency: "USD".to_string(),
        external_account_number: "123".to_string(),
        default_promise_expiry: Duration::from_secs(60),
        min_external_currency_tx_size: "1".to_string(),
        max_external_currency_tx_size: "100".to_string(),
        note: Some("n".to_string()),
    };
    let s = file.into_reserve_settings([5; 32]);
    assert_eq!(s.external_signing_key, [5; 32]);
    assert_eq!(s.external_reserve_currency, "USD");
    assert_eq!(s.external_account_number, "123");
    assert_eq!(s.default_promise_expiry, Duration::from_secs(60));
    assert_eq!(s.max_external_currency_tx_size, "100");
    assert_eq!(s.note, Some("n".to_string()));
    let price = ReserveSalePrice::one_to_one();
    assert_eq!(price.latest_unit_price, "1");
    assert!(price.inputs_used.is_empty());
}

fn agent_key(seed: u8) -> (Vec<u8>, String) {
    let core = vec![seed; 32];
    let mut raw = vec![0x84, 0x20, 0x24];
    raw.extend_from_slice(&core);
    raw.extend(holo_hash::encode::holo_dht_location_bytes(&core));
    let key = holo_hash::AgentPubKey::from_raw_39(raw.clone()).unwrap();
    (raw, holo_hash::AgentPubKeyB64::from(key).to_string())
}

#[test]
fn configured_agent_keys_are_read() {
    let (raw, text) = agent_key(7);
    assert!(text.starts_with("uhCAk"));
    assert_eq!(fee_collector_pubkey(&text), Some(raw.clone()));
    assert_eq!(fee_collector_pubkey("uhCAkbroken"), None);
    assert_eq!(expect_pubkey(Some(&text)), Some(raw.clone()));
    assert_eq!(expect_pubkey(Some("nope")), None);
    assert_eq!(expect_pubkey(None), None);
    assert!(agent_is_expected(&expect_pubkey(Some(&text)), &raw));
    let (other, _) = agent_key(8);
    assert!(!agent_is_expected(&expect_pubkey(Some(&text)), &other));
}

#[test]
fn a_reserve_is_registered_only_once() {
    let file = || ReserveSettingFile {
        external_reserve_currency: "USD".to_string(),
        external_account_number: "42".to_string(),
        default_promise_expiry: Duration::from_secs(3600),
        min_external_currency_tx_size: "1".to_string(),
        max_external_currency_tx_size: "9".to_string(),
        note: None,
    };
    let key: Vec<u8> = (0..39).collect();
    let (settings, price) = reserve_registration(file(), &key, 0).unwrap();
    let expected: Vec<u8> = (3..35).collect();
    assert_eq!(settings.external_signing_key.to_vec(), expected);
    assert_eq!(settings.external_account_number, "42");
    assert_eq!(price.latest_unit_price, "1");
    assert!(price.inputs_used.is_empty());
    assert!(reserve_registration(file(), &key, 1).is_none());
}
