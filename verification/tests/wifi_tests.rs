use wifikey::config::WifiProfile;
use wifikey::wifi::{
    ap_auth_method, connect_with_profiles, generate_ap_ssid, get_mac_suffix, ssid_in_reach,
    ApAuth, WifiError,
};

#[test]
fn setup_network_is_named_by_the_hardware_address() {
    let mac = [0x24, 0x6f, 0x28, 0x0a, 0xbc, 0xf9];
    assert_eq!(get_mac_suffix(&mac), "0ABCF9");
    assert_eq!(generate_ap_ssid(&mac), "WifiKey-0ABCF9");
    assert_eq!(generate_ap_ssid(&[0; 6]), "WifiKey-000000");
    assert_eq!(get_mac_suffix(&[0, 0, 0, 0xff, 0x10, 0x9a]), "FF109A");
}

#[test]
fn setup_network_is_open_or_has_a_long_password() {
    assert_eq!(ap_auth_method(None), Ok(ApAuth::Open));
    assert_eq!(ap_auth_method(Some("12345678")), Ok(ApAuth::Wpa2Personal));
    assert_eq!(ap_auth_method(Some("1234567")), Err(WifiError::PasswordTooShort));
    assert_eq!(ap_auth_method(Some("")), Err(WifiError::PasswordTooShort));
}

#[test]
fn the_first_profile_in_reach_is_chosen() {
    let profiles = vec![
        WifiProfile::new("home", "", "s", ""),
        WifiProfile::new("club", "", "s", ""),
        WifiProfile::new("phone", "", "s", ""),
    ];
    let seen = vec!["cafe".to_string(), "phone".to_string(), "club".to_string()];
    assert_eq!(connect_with_profiles(&profiles, &seen), Some(1));
    assert_eq!(connect_with_profiles(&profiles[2..], &seen), Some(0));
    assert_eq!(connect_with_profiles(&profiles[..1], &seen), None);
    assert_eq!(connect_with_profiles(&profiles, &[]), None);
    assert_eq!(connect_with_profiles(&[], &seen), None);
    assert!(ssid_in_reach("club", &seen));
    assert!(!ssid_in_reach("Club", &seen));
}
