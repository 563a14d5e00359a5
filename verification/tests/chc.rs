use hpos_hc_connect::admin::{AdminResponse, ExternalApiWireError};
use hpos_hc_connect::chc::{
    authored_records, cell_is_empty, graft_plan, chc_sync_failed, checked_dumped_cell_is_empty,
    collect_decoded_hashes, dumped_cell_is_empty, find_chc_head_moved_error_since_hashes,
    head_moved_hash_texts, head_moved_hashes_in, records_answer, total_restored, AuthoredRecords, EncryptedEntry,
    HeadMovedError, RecordsAnswer,
};

/// A valid action hash: its 39 raw bytes and its base64 text.
fn action_hash(seed: u8) -> (Vec<u8>, String) {
    let core = vec![seed; 32];
    let mut raw = vec![0x84, 0x29, 0x24];
    raw.extend_from_slice(&core);
    raw.extend(holo_hash::encode::holo_dht_location_bytes(&core));
    let hash = holo_hash::ActionHash::from_raw_39(raw.clone()).unwrap();
    (raw, holo_hash::ActionHashB64::from(hash).to_string())
}

fn internal(msg: &str) -> Result<AdminResponse, ExternalApiWireError> {
    Err(ExternalApiWireError::InternalError(msg.to_string()))
}

#[test]
fn head_moved_hash_is_found() {
    let err = "ChcHeadMoved(\"sync\", InvalidChain(12, ActionHash(uhCkkAbC-_9)))";
    let hashes = head_moved_hash_texts(&internal(err));
    assert_eq!(hashes, vec!["uhCkkAbC-_9".to_string()]);
}

#[test]
fn head_moved_hashes_are_read_with_holo_hash() {
    let (raw1, text1) = action_hash(1);
    let (raw2, text2) = action_hash(2);
    assert!(text1.starts_with("uhCkk"));
    let err = format!(
        "ChcHeadMoved(\"a\", InvalidChain(1, ActionHash({}))) ChcHeadMoved(\"b\", InvalidChain(2, ActionHash({})))",
        text1, text2
    );
    let hashes = find_chc_head_moved_error_since_hashes(&internal(&err)).unwrap();
    assert_eq!(hashes, vec![raw1, raw2]);
}

#[test]
fn a_bad_head_moved_hash_is_an_error() {
    let (_, good) = action_hash(3);
    let err = format!(
        "ChcHeadMoved(\"a\", InvalidChain(1, ActionHash({}))) ChcHeadMoved(\"b\", InvalidChain(2, ActionHash(uhCkkAbC)))",
        good
    );
    match find_chc_head_moved_error_since_hashes(&internal(&err)) {
        Err(HeadMovedError::BadActionHash { hash }) => assert_eq!(hash, "uhCkkAbC"),
        Ok(_) => panic!("expected an error"),
    }
    assert_eq!(find_chc_head_moved_error_since_hashes(&Ok(AdminResponse::AppEnabled)).unwrap(), Vec::<Vec<u8>>::new());
}

#[test]
fn decoded_hashes_are_collected_up_to_the_first_failure() {
    let texts = vec!["a".to_string(), "b".to_string(), "c".to_string()];
    let all = collect_decoded_hashes(&texts, vec![Some(vec![1]), Some(vec![2]), Some(vec![3])]).unwrap();
    assert_eq!(all, vec![vec![1], vec![2], vec![3]]);
    match collect_decoded_hashes(&texts, vec![Some(vec![1]), None, None]) {
        Err(HeadMovedError::BadActionHash { hash }) => assert_eq!(hash, "b"),
        Ok(_) => panic!("expected an error"),
    }
    assert!(collect_decoded_hashes(&vec![], vec![]).unwrap().is_empty());
}

#[test]
fn every_head_moved_hash_is_found_in_order() {
    let err = "x ChcHeadMoved(\"a\", InvalidChain(1, ActionHash(first))) y \
               ChcHeadMoved(\"b b\", InvalidChain(2000, ActionHash(second2)))";
    let hashes = head_moved_hash_texts(&internal(err));
    assert_eq!(hashes, vec!["first".to_string(), "second2".to_string()]);
}

#[test]
fn no_hash_without_head_moved_error() {
    assert!(head_moved_hash_texts(&internal("something else")).is_empty());
    // a malformed index
    assert!(head_moved_hash_texts(&internal(
        "ChcHeadMoved(\"a\", InvalidChain(x, ActionHash(h)))"
    ))
    .is_empty());
    // another kind of error
    let other = Err(ExternalApiWireError::Deserialization(
        "ChcHeadMoved(\"a\", InvalidChain(1, ActionHash(h)))".to_string(),
    ));
    assert!(head_moved_hash_texts(&other).is_empty());
    assert!(head_moved_hash_texts(&Ok(AdminResponse::AppEnabled)).is_empty());
}

#[test]
fn authored_records_are_read() {
    assert_eq!(authored_records("Records authored: 42, ops"), AuthoredRecords::Count(42));
    assert_eq!(authored_records("Records authored: x; Records authored: 7"), AuthoredRecords::Count(7));
    assert_eq!(authored_records("nothing here"), AuthoredRecords::NotReported);
    assert_eq!(authored_records("Records authored: 99999999999"), AuthoredRecords::TooLarge);
    assert_eq!(authored_records("Records authored: 0"), AuthoredRecords::Count(0));
}

#[test]
fn empty_cells_are_recognised() {
    assert!(cell_is_empty("Records authored: 0"));
    assert!(cell_is_empty("no count"));
    assert!(!cell_is_empty("Records authored: 3"));
}

#[test]
fn state_dumps_are_judged() {
    let dump = |summary: &str| {
        Some(AdminResponse::StateDumped(format!("[{{\"peer_dump\": 1}}, \"{}\"]", summary)))
    };
    assert!(dumped_cell_is_empty(&dump("Records authored: 0")));
    assert!(!dumped_cell_is_empty(&dump("Records authored: 5")));
    assert!(dumped_cell_is_empty(&dump("no numbers")));
    // a failed request does not count the cell, another answer does
    assert!(!dumped_cell_is_empty(&None));
    assert!(dumped_cell_is_empty(&Some(AdminResponse::AppEnabled)));

    assert_eq!(checked_dumped_cell_is_empty(&dump("Records authored: 5")), Some(false));
    assert_eq!(checked_dumped_cell_is_empty(&dump("Records authored: 99999999999")), None);
    assert_eq!(
        checked_dumped_cell_is_empty(&Some(AdminResponse::StateDumped("not json".to_string()))),
        None
    );
    assert_eq!(checked_dumped_cell_is_empty(&None), Some(false));
}

#[test]
fn coordinator_answers() {
    assert_eq!(records_answer(200), RecordsAnswer::Records);
    assert_eq!(records_answer(498), RecordsAnswer::NoRecordsSince);
    assert_eq!(records_answer(500), RecordsAnswer::Failed { status: 500 });
}

#[test]
fn sync_failure_and_totals() {
    assert!(chc_sync_failed(0, false));
    assert!(!chc_sync_failed(0, true));
    assert!(!chc_sync_failed(3, false));
    assert_eq!(total_restored(&vec![1, 2, 3]), Some(6));
    assert_eq!(total_restored(&vec![]), Some(0));
    assert_eq!(total_restored(&vec![usize::MAX, 1]), None);
}

#[test]
fn encrypted_entry_from_bytes() {
    let e: EncryptedEntry = vec![1u8, 2, 3].into();
    assert_eq!(e.0, vec![1, 2, 3]);
}

#[test]
fn hashes_are_found_in_the_rendered_text() {
    let rendered = r#""ChcHeadMoved(\"ctx\", InvalidChain(7, ActionHash(uhCkk-x_1)))""#;
    assert_eq!(head_moved_hashes_in(rendered), vec!["uhCkk-x_1".to_string()]);
    // without the escaping that rendering adds, the pattern does not match
    assert!(head_moved_hashes_in("ChcHeadMoved(\"ctx\", InvalidChain(7, ActionHash(h)))").is_empty());
    // the first group may not be empty, the hash may not hold other characters
    assert!(head_moved_hashes_in(r#"ChcHeadMoved(\"\", InvalidChain(7, ActionHash(h)))"#).is_empty());
    assert!(head_moved_hashes_in(r#"ChcHeadMoved(\"c\", InvalidChain(7, ActionHash(h.h)))"#).is_empty());
}

#[test]
fn rows_are_grafted_only_when_there_are_any() {
    assert_eq!(graft_plan(3), Some(3));
    assert_eq!(graft_plan(0), None);
}
