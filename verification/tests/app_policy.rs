use hpos_hc_connect::app_policy::{app_kept, keep_app_active, AuthError};

#[test]
fn verify_keep_app_active() {
    let happs_to_keep = vec!["elemental-chat:2".to_string(), "hha:1".to_string()];
    let app_1 = "elemental-chat:1";
    let app_2 = "elemental-chat:2";
    let app_3 = "uhCkkcF0X1dpwHFeIPI6-7rzM6ma9IgyiqD-othxgENSkL1So1Slt::servicelogger";
    let app_4 = "other-app";

    assert_eq!(keep_app_active(app_1, happs_to_keep.clone()), false);
    assert_eq!(keep_app_active(app_2, happs_to_keep.clone()), true); // because it is in config
    assert_eq!(keep_app_active(app_3, happs_to_keep.clone()), true); // because it is hosted
    assert_eq!(keep_app_active(app_4, happs_to_keep.clone()), false);
}

#[test]
fn kept_apps_agree_with_borrowed_form() {
    let keep = vec!["hha:1".to_string()];
    for id in ["hha:1", "hha:2", "uhCkk-x", "x-uhCkk", "uhCk", ""] {
        assert_eq!(app_kept(id, &keep), keep_app_active(id, keep.clone()));
    }
}

#[test]
fn hosted_marker_anywhere_keeps_the_app() {
    assert!(keep_app_active("prefix-uhCkk-suffix", vec![]));
    assert!(!keep_app_active("uhCk", vec![]));
    assert!(!keep_app_active("", vec![]));
    assert!(keep_app_active("", vec!["".to_string()]));
}

#[test]
fn auth_error_messages() {
    assert_eq!(
        AuthError::ConfigVersionError.message(),
        "Error: Invalid config version used. please upgrade to hpos-config v2"
    );
    assert_eq!(
        AuthError::RegistrationError("bad code".to_string()).message(),
        "Registration Error: bad code"
    );
}
