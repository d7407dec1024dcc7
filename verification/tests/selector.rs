use timelapse_cam::access_point::{
    build_connection_config, default_auth_method, select_access_point, AccessPointInfo, AuthMethod,
};

fn ap(name: &str, channel: u8, auth: Option<AuthMethod>) -> AccessPointInfo {
    AccessPointInfo { name: name.to_string(), channel, auth_method: auth }
}

#[test]
fn finds_home_on_channel_6() {
    let scan = vec![
        ap("Cafe", 1, Some(AuthMethod::Open)),
        ap("Home", 6, Some(AuthMethod::Wpa2Personal)),
        ap("Office", 11, Some(AuthMethod::Wpa3Personal)),
    ];
    let target = String::from("Home");
    let found = select_access_point(&scan, &target);
    assert_eq!(found, Some(1));
    let entry = &scan[1];
    assert_eq!(entry.channel, 6);
    assert_eq!(entry.auth_method, Some(AuthMethod::Wpa2Personal));
    let config = build_connection_config(
        &Some(entry.clone()),
        String::from("Home"),
        String::from("secret"),
    );
    assert_eq!(config.channel, Some(6));
    assert_eq!(config.auth_method, AuthMethod::Wpa2Personal);
    assert_eq!(config.target_name, "Home");
    assert_eq!(config.secret, "secret");
}

#[test]
fn picks_the_first_of_two_equal_names() {
    let scan = vec![
        ap("Home", 3, Some(AuthMethod::Wpa2Personal)),
        ap("Home", 9, Some(AuthMethod::Open)),
    ];
    let target = String::from("Home");
    assert_eq!(select_access_point(&scan, &target), Some(0));
}

#[test]
fn not_found_yields_degraded_config() {
    let scan = vec![ap("Cafe", 1, Some(AuthMethod::Open))];
    let target = String::from("Home");
    let found = select_access_point(&scan, &target);
    assert_eq!(found, None);
    let config =
        build_connection_config(&None, String::from("Home"), String::from("secret"));
    assert_eq!(config.channel, None);
    assert_eq!(config.auth_method, AuthMethod::Wpa2Personal);
}

#[test]
fn empty_scan_finds_nothing() {
    let scan: Vec<AccessPointInfo> = Vec::new();
    let target = String::from("Home");
    assert_eq!(select_access_point(&scan, &target), None);
}

#[test]
fn unreported_auth_method_falls_back_to_default() {
    let entry = ap("Home", 6, None);
    let config = build_connection_config(
        &Some(entry),
        String::from("Home"),
        String::from("secret"),
    );
    assert_eq!(config.channel, Some(6));
    assert_eq!(config.auth_method, default_auth_method());
    assert_eq!(config.auth_method, AuthMethod::Wpa2Personal);
}
