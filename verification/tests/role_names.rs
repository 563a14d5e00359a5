use hpos_hc_connect::role_names::{CoreAppRoleName, RoleName};

#[test]
fn core_app_role_name_to_role_name() {
    let hha: RoleName = CoreAppRoleName::HHA.into();
    let hf: RoleName = CoreAppRoleName::Holofuel.into();

    assert_eq!(hha, "core-app");
    assert_eq!(hf, "holofuel");
}

#[test]
fn role_id_matches_conversion() {
    for role in [CoreAppRoleName::HHA, CoreAppRoleName::Holofuel] {
        let converted: String = role.into();
        assert_eq!(converted, role.id());
    }
    assert_ne!(CoreAppRoleName::HHA.id(), CoreAppRoleName::Holofuel.id());
}
