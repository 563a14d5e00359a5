use hpos_hc_connect::admin::{
    attach_app_interface_request, attached_port, check_response, clone_deleted,
    disable_app_request, enable_app_request, generated_agent_key, install_agent_key,
    install_app_payload, install_error_is_tolerated, issue_app_auth_token_request, issued_token, list_enabled_apps_request,
    listed_app_ids, listed_apps, random_agent_key, request_timeout_secs, uninstall_app_request, AdminError,
    AdminRequest, AdminResponse, AppStatusFilter, ExternalApiWireError,
};
use hpos_hc_connect::cells::{
    all_cell_ids, cell_id_from_cell_info, existing_cells, AppInfo, CellId, CellInfo, CellInfoMap,
    CellLookupError, ClonedCell, ProvisionedCell, RoleCells, StemCell,
};

fn id(d: u8) -> CellId {
    CellId { dna_hash: vec![d], agent_pub_key: vec![d + 100] }
}

fn clone(d: u8, name: &str) -> CellInfo {
    CellInfo::Cloned(ClonedCell { cell_id: id(d), clone_id: format!("r.{}", d), name: name.to_string(), enabled: true })
}

fn prov(d: u8) -> CellInfo {
    CellInfo::Provisioned(ProvisionedCell { cell_id: id(d), name: "p".to_string() })
}

fn stem() -> CellInfo {
    CellInfo::Stem(StemCell { original_dna_hash: vec![0], name: None })
}

fn map() -> CellInfoMap {
    CellInfoMap {
        roles: vec![
            RoleCells { role_name: "core-app".to_string(), cells: vec![prov(1), clone(2, "a"), clone(3, "b")] },
            RoleCells { role_name: "stemmed".to_string(), cells: vec![stem(), prov(4)] },
            RoleCells { role_name: "holofuel".to_string(), cells: vec![prov(5)] },
        ],
    }
}

#[test]
fn cells_by_role() {
    let m = map();
    assert_eq!(m.cell("core-app").unwrap().dna_hash, vec![1]);
    assert_eq!(m.cell("holofuel").unwrap().agent_pub_key, vec![105]);
    assert!(matches!(m.cell("nope"), Err(CellLookupError::UnknownRole(n)) if n == "nope"));
    assert!(matches!(m.cell("stemmed"), Err(CellLookupError::NotProvisioned(n)) if n == "stemmed"));
}

#[test]
fn clone_cells_by_role_and_name() {
    let m = map();
    let clones = m.clone_cells("core-app").unwrap();
    assert_eq!(clones.len(), 2);
    assert_eq!(clones[0].name, "a");
    assert_eq!(clones[1].cell_id.dna_hash, vec![3]);
    assert!(m.clone_cells("holofuel").unwrap().is_empty());
    assert_eq!(m.clone_cell("core-app", "b").unwrap().dna_hash, vec![3]);
    assert!(matches!(
        m.clone_cell("core-app", "c"),
        Err(CellLookupError::UnknownClone { role_name, clone_name }) if role_name == "core-app" && clone_name == "c"
    ));
    assert!(matches!(m.clone_cell("x", "a"), Err(CellLookupError::UnknownRole(_))));
}

#[test]
fn cell_ids_of_an_app() {
    assert_eq!(cell_id_from_cell_info(&prov(7)).unwrap().dna_hash, vec![7]);
    assert_eq!(cell_id_from_cell_info(&clone(8, "x")).unwrap().dna_hash, vec![8]);
    assert!(cell_id_from_cell_info(&stem()).is_none());
    let app = AppInfo { installed_app_id: "core-app:1".to_string(), cell_info: map(), agent_pub_key: vec![] };
    let ids: Vec<Vec<u8>> = all_cell_ids(&app).into_iter().map(|c| c.dna_hash).collect();
    assert_eq!(ids, vec![vec![1], vec![2], vec![3], vec![4], vec![5]]);
}

#[test]
fn existing_cells_of_the_first_matching_app() {
    let apps = vec![
        AppInfo { installed_app_id: "other".to_string(), cell_info: CellInfoMap { roles: vec![] }, agent_pub_key: vec![] },
        AppInfo { installed_app_id: "core-app:1".to_string(), cell_info: map(), agent_pub_key: vec![] },
    ];
    let cells = existing_cells(&apps, "core-app");
    let got: Vec<(String, Vec<u8>)> = cells.into_iter().map(|c| (c.role_name, c.cell_id.dna_hash)).collect();
    assert_eq!(
        got,
        vec![("core-app".to_string(), vec![1]), ("stemmed".to_string(), vec![4]), ("holofuel".to_string(), vec![5])]
    );
    assert!(existing_cells(&apps, "servicelogger").is_empty());
}

#[test]
fn admin_requests() {
    assert!(matches!(attach_app_interface_request(Some(42233)), AdminRequest::AttachAppInterface { port: Some(42233) }));
    assert!(matches!(
        issue_app_auth_token_request("app".to_string()),
        AdminRequest::IssueAppAuthenticationToken { installed_app_id, expiry_seconds: 30, single_use: true } if installed_app_id == "app"
    ));
    assert!(matches!(
        list_enabled_apps_request(),
        AdminRequest::ListApps { status_filter: Some(AppStatusFilter::Enabled) }
    ));
    assert!(matches!(enable_app_request("a"), AdminRequest::EnableApp { installed_app_id } if installed_app_id == "a"));
    assert!(matches!(disable_app_request("a"), AdminRequest::DisableApp { installed_app_id } if installed_app_id == "a"));
    assert!(matches!(uninstall_app_request("a"), AdminRequest::UninstallApp { installed_app_id } if installed_app_id == "a"));
    assert_eq!(request_timeout_secs(None), 60);
    assert_eq!(request_timeout_secs(Some(5)), 5);
}

#[test]
fn admin_answers() {
    assert!(matches!(
        check_response(AdminResponse::Error(ExternalApiWireError::InternalError("x".to_string()))),
        Err(AdminError::Conductor(ExternalApiWireError::InternalError(m))) if m == "x"
    ));
    assert!(matches!(check_response(AdminResponse::AppEnabled), Ok(AdminResponse::AppEnabled)));
    assert!(matches!(attached_port(&AdminResponse::AppInterfaceAttached { port: 9 }), Ok(9)));
    assert!(matches!(
        attached_port(&AdminResponse::Other),
        Err(AdminError::UnexpectedResponse(m)) if m == "Failed to attach app interface"
    ));
    assert!(matches!(
        issued_token(AdminResponse::AppAuthenticationTokenIssued { token: vec![1, 2], expires_at: None }),
        Ok(t) if t == vec![1, 2]
    ));
    assert!(matches!(
        issued_token(AdminResponse::AppEnabled),
        Err(AdminError::UnexpectedResponse(m)) if m == "Error while issuing authentication token"
    ));
    let listing = AdminResponse::AppsListed(vec![AppInfo {
        installed_app_id: "a:1".to_string(),
        cell_info: CellInfoMap { roles: vec![] },
        agent_pub_key: vec![],
    }]);
    assert_eq!(listed_app_ids(&listing).ok().unwrap(), vec!["a:1".to_string()]);
    assert!(listed_app_ids(&AdminResponse::Other).is_err());
    assert_eq!(listed_apps(listing).len(), 1);
    assert_eq!(generated_agent_key(AdminResponse::AgentPubKeyGenerated(vec![3])), vec![3]);
    assert!(clone_deleted(&AdminResponse::CloneCellDeleted));
    assert!(!clone_deleted(&AdminResponse::AppEnabled));
    assert!(install_error_is_tolerated("Conductor(AppAlreadyInstalled(\"x\"))"));
    assert!(!install_error_is_tolerated("CellAlreadyExists"));
    assert_eq!(install_agent_key(Some(vec![1]), vec![2]), vec![1]);
    assert_eq!(install_agent_key(None, vec![2]), vec![2]);
}

#[test]
fn installation_payloads() {
    let proofs = hpos_hc_connect::memproof::add_holofuel(vec![4]);
    let p = install_app_payload(Some(vec![1]), vec![2], "hf:1".to_string(), proofs, Some("seed".to_string()));
    assert_eq!(p.agent_key, vec![1]);
    assert_eq!(p.installed_app_id, Some("hf:1".to_string()));
    assert_eq!(p.membrane_proofs.len(), 1);
    assert_eq!(p.membrane_proofs[0].proof, vec![4]);
    assert_eq!(p.network_seed, Some("seed".to_string()));
    assert!(!p.ignore_genesis_failure);
    let q = install_app_payload(None, vec![2], "x".to_string(), vec![], None);
    assert_eq!(q.agent_key, vec![2]);
    assert_eq!(q.network_seed, None);
}

#[test]
fn random_agent_keys() {
    assert!(matches!(random_agent_key(AdminResponse::AgentPubKeyGenerated(vec![1, 2])), Ok(k) if k == vec![1, 2]));
    assert!(matches!(random_agent_key(AdminResponse::AppEnabled), Err(AdminError::UnexpectedResponse(m)) if m == "unexpected response"));
}
