use hpos_hc_connect::core_app_cli::{
    enable_happ_payload, first_agent_jurisdiction, happs_by_publisher, invoice_to_pay,
    max_time_before_invoice, set_happ_preferences_input, HappPreferencesInputError, Opt as CoreAppOpt,
    PresentedHappBundle,
};
use hpos_hc_connect::hha_types::FUEL_UNITS_PER_HOLOFUEL;

/// A valid action hash: its 39 raw bytes and its base64 text.
fn action_hash(seed: u8) -> (Vec<u8>, String) {
    let core = vec![seed; 32];
    let mut raw = vec![0x84, 0x29, 0x24];
    raw.extend_from_slice(&core);
    raw.extend(holo_hash::encode::holo_dht_location_bytes(&core));
    let hash = holo_hash::ActionHash::from_raw_39(raw.clone()).unwrap();
    (raw, holo_hash::ActionHashB64::from(hash).to_string())
}
use hpos_hc_connect::hha_types::TimeSpan;
use hpos_hc_connect::holofuel::{
    Pending, Transaction, TransactionDirection, TransactionStatus, TransactionType,
};
use hpos_hc_connect::holofuel_cli::Opt as HolofuelOpt;
use hpos_hc_connect::role_names::CoreAppRoleName;

fn tx(id: &str) -> Transaction {
    Transaction {
        id: id.to_string(),
        amount: "1".to_string(),
        fee: "0".to_string(),
        transaction_type: TransactionType::Request,
        counterparty: "agent".to_string(),
        direction: TransactionDirection::Outgoing,
        status: TransactionStatus::Actionable,
        note: None,
        url: None,
    }
}

#[test]
fn holofuel_commands_call_their_zome_functions() {
    let f = HolofuelOpt::Ledger.zome_function();
    assert!(f.role == CoreAppRoleName::Holofuel);
    assert_eq!((f.zome, f.function), ("transactor", "get_ledger"));
    let f = HolofuelOpt::Profile.zome_function();
    assert_eq!((f.zome, f.function), ("profile", "get_my_profile"));
    let f = HolofuelOpt::ReserveSalePrice.zome_function();
    assert_eq!((f.zome, f.function), ("reserves", "get_my_sale_price"));
    let f = HolofuelOpt::GetAgentSummary { pub_key: "k".to_string() }.zome_function();
    assert_eq!((f.zome, f.function), ("transactor", "get_agent_summary"));
}

#[test]
fn core_app_commands_call_their_zome_functions() {
    let calls = CoreAppOpt::PayInvoice.zome_functions();
    let names: Vec<&str> = calls.iter().map(|c| c.function).collect();
    assert_eq!(names, vec!["get_pending_transactions", "accept_transaction", "complete_transactions"]);
    let calls = CoreAppOpt::EnableHappForHost { happ_id: "h".to_string(), host_id: "x".to_string() }
        .zome_functions();
    assert_eq!(calls.len(), 2);
    assert!(calls[0].role == CoreAppRoleName::HHA);
    assert_eq!((calls[0].zome, calls[0].function), ("hha", "enable_happ"));
    assert_eq!(calls[1].function, "get_hosts");
}

#[test]
fn happs_of_a_publisher() {
    let h = |id: &str, p: &str| PresentedHappBundle {
        id: id.to_string(),
        provider_pubkey: p.to_string(),
        bundle_url: String::new(),
        name: String::new(),
    };
    let happs = vec![h("a", "p1"), h("b", "p2"), h("c", "p1")];
    assert_eq!(happs_by_publisher(&happs, "p1"), vec![0, 2]);
    assert!(happs_by_publisher(&happs, "p3").is_empty());
}

#[test]
fn the_first_pending_invoice_is_paid() {
    let mut p = Pending {
        invoice_pending: vec![],
        promise_pending: vec![tx("p")],
        invoice_declined: vec![],
        promise_declined: vec![],
        accepted: vec![],
    };
    assert!(invoice_to_pay(&p).is_none());
    p.invoice_pending = vec![tx("first"), tx("second")];
    assert_eq!(invoice_to_pay(&p).unwrap().id, "first");
}

#[test]
fn happ_preferences_input() {
    let t = max_time_before_invoice("10", "2500000000");
    assert_eq!(t, TimeSpan { secs: 12, nanos: 500_000_000 });
    assert_eq!(max_time_before_invoice("0", "5"), TimeSpan { secs: 0, nanos: 5 });
    let (raw, text) = action_hash(4);
    let input = set_happ_preferences_input(&text, "1", "2.5", "0x10", "4", t).unwrap();
    assert_eq!(input.happ_id, raw);
    assert_eq!(input.price_compute.units, FUEL_UNITS_PER_HOLOFUEL);
    assert_eq!(input.price_storage.units, 5 * FUEL_UNITS_PER_HOLOFUEL / 2);
    assert_eq!(input.price_bandwidth.units, 16);
    assert_eq!(input.max_fuel_before_invoice.units, 4 * FUEL_UNITS_PER_HOLOFUEL);
    assert_eq!(input.max_time_before_invoice, t);
    assert!(matches!(
        set_happ_preferences_input("uhCkkNotAHash", "1", "1", "1", "1", t),
        Err(HappPreferencesInputError::BadHappId)
    ));
    // the first refused price text is named, in the order fuel before invoice,
    // compute, storage, bandwidth (arguments: compute, storage, bandwidth, fuel)
    assert!(matches!(
        set_happ_preferences_input(&text, "x", "abc", "1", "1", t),
        Err(HappPreferencesInputError::BadFuel { text }) if text == "x"
    ));
    assert!(matches!(
        set_happ_preferences_input(&text, "x", "1", "2", "y", t),
        Err(HappPreferencesInputError::BadFuel { text }) if text == "y"
    ));
    assert!(matches!(
        set_happ_preferences_input(&text, "1", "abc", "z", "1", t),
        Err(HappPreferencesInputError::BadFuel { text }) if text == "abc"
    ));
    assert!(matches!(
        set_happ_preferences_input(&text, "1", "1", "1", "1 HF", t),
        Err(HappPreferencesInputError::BadFuel { text }) if text == "1 HF"
    ));
}

#[test]
fn enable_happ_payloads() {
    let (raw, text) = action_hash(5);
    let p = enable_happ_payload(&text, "host-1".to_string()).unwrap();
    assert_eq!(p.happ_id, raw);
    assert_eq!(p.holoport_id, "host-1");
    assert!(enable_happ_payload("xyz", "host-1".to_string()).is_none());
    // an agent key is no action hash
    let core = vec![1u8; 32];
    let mut agent = vec![0x84, 0x20, 0x24];
    agent.extend_from_slice(&core);
    agent.extend(holo_hash::encode::holo_dht_location_bytes(&core));
    let agent_text = holo_hash::AgentPubKeyB64::from(holo_hash::AgentPubKey::from_raw_39(agent).unwrap()).to_string();
    assert!(enable_happ_payload(&agent_text, "h".to_string()).is_none());
}

#[test]
fn first_jurisdiction() {
    let v = vec![(vec![1u8], Some("DE".to_string())), (vec![2u8], None)];
    assert_eq!(first_agent_jurisdiction(&v), &Some("DE".to_string()));
}
