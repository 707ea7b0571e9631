use cloud_link::broker::{
    BrokerError, BrokerOptions, ClientIdentity, KeyKind, TlsSettings, DEFAULT_KEEP_ALIVE_SECS,
};
use rumqttc::{Key, TlsConfiguration, Transport};

#[test]
fn new_options_take_the_defaults() {
    let o = BrokerOptions::new("client1-session-1", "broker.example.net", 8883).unwrap();
    assert_eq!(o.client_id, "client1-session-1");
    assert_eq!(o.host, "broker.example.net");
    assert_eq!(o.port, 8883);
    assert_eq!(o.keep_alive_secs, DEFAULT_KEEP_ALIVE_SECS);
    assert_eq!(o.keep_alive_secs, 60);
    assert!(o.credentials.is_none());
    assert!(o.tls.is_none());
}

#[test]
fn an_empty_client_id_is_refused() {
    assert_eq!(BrokerOptions::new("", "h", 1883).err(), Some(BrokerError::EmptyClientId));
}

#[test]
fn a_client_id_with_a_leading_space_is_refused() {
    assert_eq!(
        BrokerOptions::new(" dev", "h", 1883).err(),
        Some(BrokerError::ClientIdStartsWithSpace)
    );
}

#[test]
fn keep_alive_below_five_seconds_is_refused() {
    let mut o = BrokerOptions::new("dev", "h", 1883).unwrap();
    assert_eq!(o.set_keep_alive(4), Err(BrokerError::KeepAliveTooShort));
    assert_eq!(o.keep_alive_secs, 60);
    assert_eq!(o.set_keep_alive(5), Ok(()));
    assert_eq!(o.keep_alive_secs, 5);
    assert_eq!(o.set_keep_alive(120), Ok(()));
    assert_eq!(o.keep_alive_secs, 120);
}

#[test]
fn mqtt_options_carry_the_settings() {
    let mut o = BrokerOptions::new("client1-session-1", "broker.example.net", 8883).unwrap();
    o.set_keep_alive(120).unwrap();
    o.set_credentials("client1-authnID", "");
    let m = o.mqtt_options();
    assert_eq!(m.client_id(), "client1-session-1");
    assert_eq!(m.broker_address(), ("broker.example.net".to_string(), 8883));
    assert_eq!(m.keep_alive(), std::time::Duration::from_secs(120));
    assert_eq!(m.credentials(), Some(("client1-authnID".to_string(), String::new())));
    assert!(matches!(m.transport(), Transport::Tcp));
}

#[test]
fn mqtt_options_carry_the_client_certificate() {
    let mut o = BrokerOptions::new("dev", "broker.example.net", 8883).unwrap();
    o.set_tls(TlsSettings {
        ca: b"ca".to_vec(),
        identity: Some(ClientIdentity {
            certificate: b"cert".to_vec(),
            private_key: b"key".to_vec(),
            key_kind: KeyKind::Ecc,
        }),
    });
    match o.mqtt_options().transport() {
        Transport::Tls(TlsConfiguration::Simple { ca, alpn, client_auth }) => {
            assert_eq!(ca, b"ca".to_vec());
            assert!(alpn.is_none());
            match client_auth {
                Some((cert, Key::ECC(key))) => {
                    assert_eq!(cert, b"cert".to_vec());
                    assert_eq!(key, b"key".to_vec());
                }
                _ => panic!("expected an ECC client identity"),
            }
        }
        _ => panic!("expected a TLS transport"),
    }
}
