use cloud_link::station::{CredentialError, Security, StationCredentials};
use embedded_svc::wifi::{AuthMethod, Configuration};

#[test]
fn credentials_at_the_capacities_are_accepted() {
    let ssid = "s".repeat(32);
    let password = "p".repeat(64);
    let c = StationCredentials::new(&ssid, &password, Security::Wpa2Personal).unwrap();
    assert_eq!(c.ssid, ssid);
    assert_eq!(c.password, password);
    assert_eq!(c.security, Security::Wpa2Personal);
}

#[test]
fn a_name_one_byte_too_long_is_refused() {
    let r = StationCredentials::new(&"s".repeat(33), "secret", Security::Wpa2Personal);
    assert_eq!(r.err(), Some(CredentialError::SsidTooLong));
}

#[test]
fn a_passphrase_one_byte_too_long_is_refused() {
    let r = StationCredentials::new("home", &"p".repeat(65), Security::Wpa2Personal);
    assert_eq!(r.err(), Some(CredentialError::PasswordTooLong));
}

#[test]
fn the_name_is_checked_before_the_passphrase() {
    let r = StationCredentials::new(&"s".repeat(40), &"p".repeat(70), Security::Open);
    assert_eq!(r.err(), Some(CredentialError::SsidTooLong));
}

#[test]
fn lengths_are_counted_in_bytes() {
    // seventeen characters of two bytes each
    let wide = "é".repeat(17);
    let r = StationCredentials::new(&wide, "secret", Security::Wpa2Personal);
    assert_eq!(r.err(), Some(CredentialError::SsidTooLong));
    let fits = "é".repeat(16);
    assert!(StationCredentials::new(&fits, "secret", Security::Wpa2Personal).is_ok());
}

#[test]
fn empty_credentials_are_accepted() {
    assert!(StationCredentials::new("", "", Security::Open).is_ok());
}

#[test]
fn configuration_carries_the_credentials() {
    let c = StationCredentials::new("home-net", "hunter22", Security::Wpa2Personal).unwrap();
    match c.configuration() {
        Configuration::Client(client) => {
            assert_eq!(client.ssid.as_str(), "home-net");
            assert_eq!(client.password.as_str(), "hunter22");
            assert_eq!(client.auth_method, AuthMethod::WPA2Personal);
            assert_eq!(client.bssid, None);
            assert_eq!(client.channel, None);
        }
        _ => panic!("expected a station configuration"),
    }
}

#[test]
fn open_network_configuration_has_no_authentication() {
    let c = StationCredentials::new("cafe", "", Security::Open).unwrap();
    match c.configuration() {
        Configuration::Client(client) => assert_eq!(client.auth_method, AuthMethod::None),
        _ => panic!("expected a station configuration"),
    }
}
