use hpos_hc_connect::hha_types::{
    find_host_preferences_hash, HappInput, HappPreferences, HoloportDetails, HoloportId,
    HostSettings, LoginConfig, PublisherPricingPref, TimeSpan,
};
use hpos_hc_connect::publishing::happs_to_publish;

fn happ(name: &str, url: &str) -> HappInput {
    HappInput {
        hosted_urls: vec![],
        bundle_url: url.to_string(),
        ui_src_url: None,
        special_installed_app_id: None,
        name: name.to_string(),
        logo_url: None,
        dnas: vec![],
        description: String::new(),
        categories: vec![],
        jurisdictions: vec![],
        exclude_jurisdictions: false,
        publisher_pricing_pref: PublisherPricingPref::default(),
        login_config: LoginConfig::default(),
        uid: None,
    }
}

#[test]
fn only_unpublished_happs_are_published() {
    let apps = vec![happ("Chat", "u1"), happ("Cloud Console", "u2"), happ("Old", "u3"), happ("Holofuel", "u4")];
    let published = vec!["u3".to_string()];
    let out = happs_to_publish(apps, &published, "core-app:0_1");
    let names: Vec<&str> = out.iter().map(|h| h.name.as_str()).collect();
    assert_eq!(names, vec!["Chat", "Cloud Console", "Holofuel"]);
    assert_eq!(out[0].special_installed_app_id, None);
    assert_eq!(out[1].special_installed_app_id, Some("core-app:0_1".to_string()));
    assert_eq!(out[2].special_installed_app_id, Some("core-app:0_1".to_string()));
    assert_eq!(out[1].bundle_url, "u2");
}

#[test]
fn nothing_to_publish_twice() {
    let apps = vec![happ("Chat", "u1")];
    assert!(happs_to_publish(apps, &vec!["u1".to_string()], "core").is_empty());
}

#[test]
fn defaults() {
    let p = PublisherPricingPref::default();
    assert_eq!((p.cpu.units, p.storage.units, p.bandwidth.units), (0, 0, 0));
    let l = LoginConfig::default();
    assert!(!l.display_publisher_name);
    assert!(l.registration_info_url.is_none());
    let h = HostSettings::default();
    assert_eq!(h, HostSettings { is_enabled: false, is_host_disabled: false, is_auto_disabled: false });
    let prefs = HappPreferences::default_at(1234);
    assert_eq!(prefs.timestamp, 1234);
    assert_eq!(prefs.max_fuel_before_invoice.units, 1_000_000_000_000_000_000);
    assert_eq!(prefs.price_compute.units, 0);
    assert_eq!(prefs.max_time_before_invoice, TimeSpan { secs: 0, nanos: 0 });
    assert_eq!(prefs.invoice_due_in_days, 7);
    assert!(prefs.jurisdiction_prefs.is_none());
}

#[test]
fn host_preference_hashes() {
    let hosts = vec![
        HoloportDetails { host_pub_key: "k1".to_string(), holoport_id: HoloportId("h1".to_string()), preferences_hash: None },
        HoloportDetails { host_pub_key: "k2".to_string(), holoport_id: HoloportId("h2".to_string()), preferences_hash: Some("p2".to_string()) },
        HoloportDetails { host_pub_key: "k3".to_string(), holoport_id: HoloportId("h2".to_string()), preferences_hash: Some("p3".to_string()) },
    ];
    assert_eq!(find_host_preferences_hash(&hosts, "h1"), Some(None));
    assert_eq!(find_host_preferences_hash(&hosts, "h2"), Some(Some("p2".to_string())));
    assert_eq!(find_host_preferences_hash(&hosts, "h9"), None);
}
