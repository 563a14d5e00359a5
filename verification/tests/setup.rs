use hpos_hc_connect::agent::{agent_key_choice, agent_key_core, populate_admin, uses_random_agent_key, AgentKeyChoice, HposConfig};
use hpos_hc_connect::app_policy::AuthError;
use hpos_hc_connect::env_setup::{
    holochain_config, import_seed_passphrase, is_conductor_ready_line, lair_args,
    lair_signature_fallback, AdminInterfaceDriver, KeystoreConfig, LairCommand, ADMIN_PORT,
};
use hpos_hc_connect::jurisdiction::{jurisdiction_needs_update, jurisdiction_update, skips_jurisdiction_update};
use hpos_hc_connect::ui::{download_basename, download_plan, download_succeeded, ui_source, DownloadPlan, UiSource};

#[test]
fn conductor_configuration() {
    let c = holochain_config("unix:///tmp/lair?k=1".to_string(), ADMIN_PORT);
    assert_eq!(ADMIN_PORT, 4444);
    assert_eq!(c.data_root_path, "./databases");
    match &c.keystore {
        KeystoreConfig::LairServer { connection_url } => assert_eq!(connection_url, "unix:///tmp/lair?k=1"),
    }
    let ifaces = c.admin_interfaces.as_ref().unwrap();
    assert_eq!(ifaces.len(), 1);
    match &ifaces[0].driver {
        AdminInterfaceDriver::Websocket { port, allowed_origins } => {
            assert_eq!(*port, 4444);
            assert_eq!(allowed_origins, "*");
        }
    }
    assert!(c.dpki.no_dpki);
    assert!(c.network.mem_bootstrap);
    assert_eq!(c.network.bootstrap_url, "https://dev-test-bootstrap2.holochain.org/");
    assert_eq!(c.db_sync_strategy, "Resilient");
}

#[test]
fn readiness_and_keystore_details() {
    assert!(is_conductor_ready_line("Conductor ready."));
    assert!(!is_conductor_ready_line("Conductor ready"));
    let f = lair_signature_fallback("/bin/signer".to_string(), 9000);
    assert_eq!(f.program, "/bin/signer");
    assert_eq!(f.args, Some(vec!["--signing-port".to_string(), "9000".to_string()]));
    assert_eq!(import_seed_passphrase(), b"passphrase\npass".to_vec());
}

#[test]
fn admin_from_configuration() {
    assert!(matches!(populate_admin(HposConfig::V1, vec![1]), Err(AuthError::ConfigVersionError)));
    let a = populate_admin(
        HposConfig::V2 { registration_code: "code".to_string(), admin_email: "a@b.c".to_string() },
        vec![1, 2],
    )
    .ok()
    .unwrap();
    assert_eq!(a.key, vec![1, 2]);
    assert_eq!(a.email, "a@b.c");
    assert_eq!(a.registration_code, "code");
    assert!(uses_random_agent_key("1"));
    assert!(!uses_random_agent_key("true"));
    let key: Vec<u8> = (0..39).collect();
    assert_eq!(agent_key_core(&key), (3..35).collect::<Vec<u8>>());
}

#[test]
fn jurisdiction_updates() {
    assert!(!jurisdiction_needs_update(&Some("DE".to_string()), "DE"));
    assert!(jurisdiction_needs_update(&Some("DE".to_string()), "FR"));
    assert!(jurisdiction_needs_update(&None, "FR"));
    assert!(jurisdiction_update(&Some("DE".to_string()), "DE".to_string(), vec![1]).is_none());
    let u = jurisdiction_update(&None, "FR".to_string(), vec![1, 2]).unwrap();
    assert_eq!(u.pubkey, vec![1, 2]);
    assert_eq!(u.jurisdiction, "FR");
    assert!(skips_jurisdiction_update(Some("TRUE")));
    assert!(!skips_jurisdiction_update(Some("true")));
    assert!(!skips_jurisdiction_update(None));
}

#[test]
fn ui_sources() {
    assert!(matches!(ui_source(Some("p".to_string()), Some("u".to_string())), UiSource::Path(p) if p == "p"));
    assert!(matches!(ui_source(None, Some("u".to_string())), UiSource::Download(u) if u == "u"));
    assert!(matches!(ui_source(None, None), UiSource::Skip));
    assert_eq!(download_plan("file"), DownloadPlan::UseLocalPath);
    assert_eq!(download_plan("https"), DownloadPlan::FetchOverHttps);
    assert!(download_succeeded(200));
    assert!(download_succeeded(299));
    assert!(!download_succeeded(300));
    assert!(!download_succeeded(404));
}

#[test]
fn keystore_commands() {
    assert_eq!(lair_args("/tmp/l".to_string(), LairCommand::Init), vec!["--lair-root", "/tmp/l", "init", "--piped"]);
    assert_eq!(
        lair_args("/tmp/l".to_string(), LairCommand::ImportSeed { device_bundle: "b64bundle".to_string() }),
        vec!["--lair-root", "/tmp/l", "import-seed", "host", "b64bundle", "--piped"]
    );
    assert_eq!(lair_args("r".to_string(), LairCommand::Server), vec!["--lair-root", "r", "server", "--piped"]);
}

#[test]
fn the_agent_key_is_chosen() {
    let mut key = vec![0x84u8, 0x20, 0x24];
    key.extend(vec![7u8; 36]);
    assert!(matches!(agent_key_choice("1", Some(key.clone())), AgentKeyChoice::UseStored(k) if k == key));
    let mut action = vec![0x84u8, 0x29, 0x24];
    action.extend(vec![7u8; 36]);
    assert!(matches!(agent_key_choice("1", Some(action)), AgentKeyChoice::GenerateAndDeleteMemProof));
    assert!(matches!(agent_key_choice("1", Some(vec![0x84, 0x20, 0x24, 1])), AgentKeyChoice::GenerateAndDeleteMemProof));
    assert!(matches!(agent_key_choice("1", None), AgentKeyChoice::GenerateAndDeleteMemProof));
    assert!(matches!(agent_key_choice("0", Some(key)), AgentKeyChoice::FromConfig));
    assert!(matches!(agent_key_choice("", None), AgentKeyChoice::FromConfig));
}

#[test]
fn download_names_match_path_file_name() {
    for p in [
        "/ui/chat.zip", "/a/b/", "/", "", "/a/..", "/a/.", "/a//b", "./x", "..", ".", "x", "/a/b/../c.zip",
        "/releases/download/v0.1/elemental-chat.zip", "//", "/.../",
    ] {
        let expected = std::path::Path::new(p).file_name().map(|n| n.to_string_lossy().to_string());
        assert_eq!(download_basename(p), expected, "path {:?}", p);
    }
}
