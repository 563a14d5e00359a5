use hpos_hc_connect::cells::{
    AppInfo, CellId, CellInfo, CellInfoMap, ClonedCell, ProvisionedCell, RoleCells, StemCell,
};
use hpos_hc_connect::install::{ActionOutcome, InstallAction, InstallPlan, InstallStage};

fn ids(v: &[&str]) -> Vec<String> {
    v.iter().map(|s| s.to_string()).collect()
}

fn cell_id(d: u8, a: u8) -> CellId {
    CellId { dna_hash: vec![d; 4], agent_pub_key: vec![a; 4] }
}

fn app(id: &str, roles: Vec<RoleCells>) -> AppInfo {
    AppInfo {
        installed_app_id: id.to_string(),
        cell_info: CellInfoMap { roles },
        agent_pub_key: vec![9; 4],
    }
}

#[test]
fn fresh_install_then_cleanup() {
    let happs = ids(&["core-app:1", "myapp:2"]);
    let active = ids(&["myapp:2", "old-app:1", "uhCkkXYZ::servicelogger"]);
    let (mut plan, first) = InstallPlan::new(happs, active);
    assert!(matches!(first, InstallAction::PrepareMemProofs { happ: 0 }));
    assert_eq!(plan.current_stage(), InstallStage::AwaitMemProofs(0));

    let a = plan.advance(ActionOutcome::Succeeded);
    match a {
        InstallAction::InstallAndActivate { happ, existing_cells } => {
            assert_eq!(happ, 0);
            assert!(existing_cells.is_empty());
        }
        _ => panic!("expected an installation"),
    }
    assert!(matches!(plan.advance(ActionOutcome::Succeeded), InstallAction::InstallUi { happ: 0 }));
    // myapp:2 is already enabled: only its UI is installed
    assert!(matches!(plan.advance(ActionOutcome::Succeeded), InstallAction::InstallUi { happ: 1 }));
    // old-app:1 is neither configured nor hosted
    assert!(matches!(plan.advance(ActionOutcome::Succeeded), InstallAction::Uninstall { app: 1 }));
    assert!(matches!(plan.advance(ActionOutcome::Succeeded), InstallAction::Done));
    assert_eq!(plan.current_stage(), InstallStage::Finished);
    assert!(!plan.accepts(&ActionOutcome::Succeeded));
}

#[test]
fn nothing_configured_and_nothing_enabled() {
    let (plan, first) = InstallPlan::new(vec![], vec![]);
    assert!(matches!(first, InstallAction::Done));
    assert_eq!(plan.current_stage(), InstallStage::Finished);
}

#[test]
fn already_installed_app_is_enabled() {
    let (mut plan, _) = InstallPlan::new(ids(&["chat:1"]), vec![]);
    plan.advance(ActionOutcome::Succeeded);
    let a = plan.advance(ActionOutcome::Failed("AppAlreadyInstalled(\"chat:1\")".to_string()));
    assert!(matches!(a, InstallAction::Activate { happ: 0 }));
    assert!(matches!(plan.advance(ActionOutcome::Succeeded), InstallAction::InstallUi { happ: 0 }));
    assert!(matches!(plan.advance(ActionOutcome::Succeeded), InstallAction::Done));
}

#[test]
fn other_install_failure_is_reported() {
    let (mut plan, _) = InstallPlan::new(ids(&["chat:1"]), vec![]);
    plan.advance(ActionOutcome::Succeeded);
    let a = plan.advance(ActionOutcome::Failed("network down".to_string()));
    match a {
        InstallAction::Failed(m) => assert_eq!(m, "network down"),
        _ => panic!("expected a failure"),
    }
    assert_eq!(plan.current_stage(), InstallStage::Finished);
}

#[test]
fn failure_of_a_ui_install_is_reported() {
    let (mut plan, first) = InstallPlan::new(ids(&["chat:1"]), ids(&["chat:1"]));
    assert!(matches!(first, InstallAction::InstallUi { happ: 0 }));
    match plan.advance(ActionOutcome::Failed("no ui".to_string())) {
        InstallAction::Failed(m) => assert_eq!(m, "no ui"),
        _ => panic!("expected a failure"),
    }
}

#[test]
fn cell_already_exists_of_non_core_happ_fails() {
    let (mut plan, _) = InstallPlan::new(ids(&["chat:1"]), vec![]);
    plan.advance(ActionOutcome::Succeeded);
    let a = plan.advance(ActionOutcome::Failed("CellAlreadyExists".to_string()));
    assert!(matches!(a, InstallAction::Failed(_)));
}

#[test]
fn core_happ_is_reinstalled_on_existing_cells() {
    let (mut plan, _) = InstallPlan::new(ids(&["core-app:2", "chat:1"]), vec![]);
    plan.advance(ActionOutcome::Succeeded);
    let a = plan.advance(ActionOutcome::Failed("ConductorApiError(CellAlreadyExists)".to_string()));
    assert!(matches!(a, InstallAction::ListInstalledApps));
    assert!(plan.awaits_listing());
    assert!(!plan.accepts(&ActionOutcome::Succeeded));

    let installed = vec![
        app("chat:0", vec![]),
        app(
            "core-app:1",
            vec![
                RoleCells {
                    role_name: "core-app".to_string(),
                    cells: vec![
                        CellInfo::Cloned(ClonedCell {
                            cell_id: cell_id(5, 5),
                            clone_id: "c.0".to_string(),
                            name: "c".to_string(),
                            enabled: true,
                        }),
                        CellInfo::Provisioned(ProvisionedCell { cell_id: cell_id(1, 2), name: "p".to_string() }),
                    ],
                },
                RoleCells {
                    role_name: "empty".to_string(),
                    cells: vec![CellInfo::Stem(StemCell { original_dna_hash: vec![0], name: None })],
                },
                RoleCells {
                    role_name: "holofuel".to_string(),
                    cells: vec![CellInfo::Provisioned(ProvisionedCell { cell_id: cell_id(3, 4), name: "h".to_string() })],
                },
            ],
        ),
    ];
    assert!(plan.accepts(&ActionOutcome::AppsListed(vec![])));
    match plan.advance(ActionOutcome::AppsListed(installed)) {
        InstallAction::InstallAndActivate { happ, existing_cells } => {
            assert_eq!(happ, 0);
            assert_eq!(existing_cells.len(), 2);
            assert_eq!(existing_cells[0].role_name, "core-app");
            assert_eq!(existing_cells[0].cell_id.dna_hash, vec![1; 4]);
            assert_eq!(existing_cells[0].cell_id.agent_pub_key, vec![2; 4]);
            assert_eq!(existing_cells[1].role_name, "holofuel");
            assert_eq!(existing_cells[1].cell_id.dna_hash, vec![3; 4]);
        }
        _ => panic!("expected a reinstallation"),
    }
    // after the reinstallation the happ gets its UI and the run goes on
    assert!(matches!(plan.advance(ActionOutcome::Succeeded), InstallAction::InstallUi { happ: 0 }));
    assert!(matches!(plan.advance(ActionOutcome::Succeeded), InstallAction::PrepareMemProofs { happ: 1 }));
    assert!(matches!(plan.advance(ActionOutcome::Succeeded), InstallAction::InstallAndActivate { happ: 1, .. }));
    assert!(matches!(plan.advance(ActionOutcome::Succeeded), InstallAction::InstallUi { happ: 1 }));
    assert!(matches!(plan.advance(ActionOutcome::Succeeded), InstallAction::Done));
}

#[test]
fn failed_reinstallation_is_reported() {
    let (mut plan, _) = InstallPlan::new(ids(&["servicelogger:1"]), vec![]);
    plan.advance(ActionOutcome::Succeeded);
    plan.advance(ActionOutcome::Failed("CellAlreadyExists".to_string()));
    plan.advance(ActionOutcome::AppsListed(vec![]));
    match plan.advance(ActionOutcome::Failed("still broken".to_string())) {
        InstallAction::Failed(m) => assert_eq!(m, "still broken"),
        _ => panic!("expected a failure"),
    }
}

#[test]
fn failed_listing_is_reported() {
    let (mut plan, _) = InstallPlan::new(ids(&["holofuel:3"]), vec![]);
    plan.advance(ActionOutcome::Succeeded);
    plan.advance(ActionOutcome::Failed("CellAlreadyExists".to_string()));
    match plan.advance(ActionOutcome::Failed("listing failed".to_string())) {
        InstallAction::Failed(m) => assert_eq!(m, "listing failed"),
        _ => panic!("expected a failure"),
    }
}

#[test]
fn every_unkept_app_is_uninstalled_in_order() {
    let (mut plan, first) = InstallPlan::new(vec![], ids(&["a", "uhCkk1", "b", "c"]));
    assert!(matches!(first, InstallAction::Uninstall { app: 0 }));
    assert!(matches!(plan.advance(ActionOutcome::Succeeded), InstallAction::Uninstall { app: 2 }));
    assert!(matches!(plan.advance(ActionOutcome::Succeeded), InstallAction::Uninstall { app: 3 }));
    assert!(matches!(plan.advance(ActionOutcome::Succeeded), InstallAction::Done));
}
