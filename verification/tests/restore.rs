use hpos_hc_connect::admin::AdminResponse;
use hpos_hc_connect::cells::{AppInfo, CellId, CellInfo, CellInfoMap, ProvisionedCell, RoleCells};
use hpos_hc_connect::chc::{empty_cells, records_path_segments};
use hpos_hc_connect::restore::{AppInfoAnswer, RestoreAction, RestoreError, RestoreOutcome, RestorePlan};

fn id(d: u8) -> CellId {
    CellId { dna_hash: vec![d], agent_pub_key: vec![d + 100] }
}

fn app(cells: &[u8]) -> AppInfo {
    AppInfo {
        installed_app_id: "core-app:1".to_string(),
        cell_info: CellInfoMap {
            roles: cells
                .iter()
                .map(|d| RoleCells {
                    role_name: format!("role{}", d),
                    cells: vec![CellInfo::Provisioned(ProvisionedCell { cell_id: id(*d), name: "cell".to_string() })],
                })
                .collect(),
        },
        agent_pub_key: vec![],
    }
}

fn dump(summary: &str) -> Option<AdminResponse> {
    Some(AdminResponse::StateDumped(format!("[{{\"peer_dump\": 1}}, \"{}\"]", summary)))
}

fn cell_of(action: &RestoreAction) -> Option<(&'static str, u8)> {
    match action {
        RestoreAction::Restore { cell } => Some(("restore", cell.dna_hash[0])),
        RestoreAction::DumpState { cell } => Some(("dump", cell.dna_hash[0])),
        _ => None,
    }
}

fn step(plan: &mut RestorePlan, outcome: RestoreOutcome) -> RestoreAction {
    assert!(plan.accepts(&outcome));
    plan.advance(outcome)
}

#[test]
fn a_full_restoration_run() {
    let (mut plan, first) = RestorePlan::new(false);
    assert!(matches!(first, RestoreAction::GetAppInfo));

    let a = step(&mut plan, RestoreOutcome::AppInfo(AppInfoAnswer::Found(app(&[1, 2]))));
    assert_eq!(cell_of(&a), Some(("restore", 1)));
    let a = step(&mut plan, RestoreOutcome::Restored(2));
    assert_eq!(cell_of(&a), Some(("restore", 2)));
    let a = step(&mut plan, RestoreOutcome::Restored(0));
    assert!(matches!(a, RestoreAction::GetAppInfo));
    assert_eq!(plan.total(), 2);

    let a = step(&mut plan, RestoreOutcome::AppInfo(AppInfoAnswer::Found(app(&[1, 2]))));
    assert_eq!(cell_of(&a), Some(("dump", 1)));
    let a = step(&mut plan, RestoreOutcome::Dumped(dump("Records authored: 0")));
    assert_eq!(cell_of(&a), Some(("dump", 2)));
    let a = step(&mut plan, RestoreOutcome::Dumped(dump("Records authored: 4")));
    // only the first cell is empty: it is restored once more
    assert_eq!(cell_of(&a), Some(("restore", 1)));
    // a failure there is let pass
    let a = step(&mut plan, RestoreOutcome::RestoreFailed);
    assert!(matches!(a, RestoreAction::GetAppInfo));

    let a = step(&mut plan, RestoreOutcome::AppInfo(AppInfoAnswer::Found(app(&[1, 2]))));
    assert!(matches!(a, RestoreAction::Done));
    assert!(!plan.accepts(&RestoreOutcome::Restored(1)));
}

#[test]
fn nothing_restored_without_a_hash_fails() {
    let (mut plan, _) = RestorePlan::new(false);
    let a = step(&mut plan, RestoreOutcome::AppInfo(AppInfoAnswer::Found(app(&[3]))));
    assert_eq!(cell_of(&a), Some(("restore", 3)));
    let a = step(&mut plan, RestoreOutcome::Restored(0));
    assert!(matches!(a, RestoreAction::Failed(RestoreError::SyncFailed { total: 0 })));

    // a missing app has no cells to restore
    let (mut plan, _) = RestorePlan::new(false);
    let a = step(&mut plan, RestoreOutcome::AppInfo(AppInfoAnswer::Missing));
    assert!(matches!(a, RestoreAction::Failed(RestoreError::SyncFailed { total: 0 })));
}

#[test]
fn nothing_restored_with_a_hash_goes_on() {
    let (mut plan, _) = RestorePlan::new(true);
    let a = step(&mut plan, RestoreOutcome::AppInfo(AppInfoAnswer::Missing));
    assert!(matches!(a, RestoreAction::GetAppInfo));
    // the app is still missing: no cell is dumped, and the last question fails
    let a = step(&mut plan, RestoreOutcome::AppInfo(AppInfoAnswer::Missing));
    assert!(matches!(a, RestoreAction::GetAppInfo));
    let a = step(&mut plan, RestoreOutcome::AppInfo(AppInfoAnswer::Missing));
    assert!(matches!(a, RestoreAction::Failed(RestoreError::AppMissing)));
}

#[test]
fn failed_questions_for_the_app() {
    let (mut plan, _) = RestorePlan::new(true);
    let a = step(&mut plan, RestoreOutcome::AppInfo(AppInfoAnswer::Failed("closed".to_string())));
    assert!(matches!(a, RestoreAction::Failed(RestoreError::OutOfSyncCheckFailed(ref m)) if m == "closed"));

    let (mut plan, _) = RestorePlan::new(true);
    step(&mut plan, RestoreOutcome::AppInfo(AppInfoAnswer::Missing));
    // the question before the dumps may not fail
    assert!(!plan.accepts(&RestoreOutcome::AppInfo(AppInfoAnswer::Failed("x".to_string()))));
    step(&mut plan, RestoreOutcome::AppInfo(AppInfoAnswer::Missing));
    let a = step(&mut plan, RestoreOutcome::AppInfo(AppInfoAnswer::Failed("gone".to_string())));
    assert!(matches!(a, RestoreAction::Failed(RestoreError::AppInfoFailed(ref m)) if m == "gone"));
}

#[test]
fn a_failed_first_restoration_and_unreadable_dumps_are_refused() {
    let (mut plan, _) = RestorePlan::new(false);
    step(&mut plan, RestoreOutcome::AppInfo(AppInfoAnswer::Found(app(&[1]))));
    assert!(!plan.accepts(&RestoreOutcome::RestoreFailed));
    step(&mut plan, RestoreOutcome::Restored(1));
    step(&mut plan, RestoreOutcome::AppInfo(AppInfoAnswer::Found(app(&[1]))));
    assert!(!plan.accepts(&RestoreOutcome::Dumped(Some(AdminResponse::StateDumped("not json".to_string())))));
    // a failed dump request does not count the cell empty
    let a = step(&mut plan, RestoreOutcome::Dumped(None));
    assert!(matches!(a, RestoreAction::GetAppInfo));
}

#[test]
fn empty_cells_are_kept_in_order() {
    let cells = vec![id(1), id(2), id(3), id(4)];
    let answers = vec![
        dump("Records authored: 0"),
        dump("Records authored: 7"),
        None,
        Some(AdminResponse::AppEnabled),
    ];
    let empty: Vec<u8> = empty_cells(&cells, &answers).iter().map(|c| c.dna_hash[0]).collect();
    assert_eq!(empty, vec![1, 4]);
}

#[test]
fn records_requests_name_the_cell() {
    let raw = |prefix: [u8; 3], seed: u8| {
        let core = vec![seed; 32];
        let mut raw = prefix.to_vec();
        raw.extend_from_slice(&core);
        raw.extend(holo_hash::encode::holo_dht_location_bytes(&core));
        raw
    };
    let dna = raw([0x84, 0x2d, 0x24], 7);
    let agent = raw([0x84, 0x20, 0x24], 9);
    let cell = CellId { dna_hash: dna.clone(), agent_pub_key: agent.clone() };
    let segments = records_path_segments(&cell);
    assert_eq!(
        segments,
        vec![
            holo_hash::DnaHash::from_raw_39(dna).unwrap().to_string(),
            holo_hash::AgentPubKey::from_raw_39(agent).unwrap().to_string(),
            "get_record_data".to_string(),
        ]
    );
    assert!(segments[0].starts_with('u'));
}
