//! Options of an MQTT session with a broker, checked so that the MQTT
//! client's own option builder accepts them without a panic.

use vstd::prelude::*;
use vstd::string::StrSliceExecFns;
use rumqttc::v5::MqttOptions;
use rumqttc::{Key, Transport};

verus! {

/// The keep-alive interval that the MQTT client starts with, in seconds.
pub const DEFAULT_KEEP_ALIVE_SECS: u64 = 60;

/// The shortest keep-alive interval the MQTT client accepts, in seconds.
pub const MIN_KEEP_ALIVE_SECS: u64 = 5;

#[verifier::external_type_specification]
#[verifier::external_body]
pub struct ExMqttOptions(MqttOptions);

#[verifier::external_type_specification]
#[verifier::external_body]
pub struct ExTransport(Transport);

#[verifier::external_type_specification]
#[verifier::external_body]
pub struct ExKey(Key);

/// Why broker options were refused.
#[derive(Clone, Copy, Debug, PartialEq, Eq, Structural)]
pub enum BrokerError {
    EmptyClientId,
    ClientIdStartsWithSpace,
    KeepAliveTooShort,
}

/// The algorithm of a client's private key.
#[derive(Clone, Copy, Debug, PartialEq, Eq, Structural)]
pub enum KeyKind {
    Rsa,
    Ecc,
}

/// A client certificate and its private key, both PEM.
pub struct ClientIdentity {
    pub certificate: Vec<u8>,
    pub private_key: Vec<u8>,
    pub key_kind: KeyKind,
}

/// TLS transport: the authorities the broker is checked against, and the
/// identity the client proves, if any.
pub struct TlsSettings {
    pub ca: Vec<u8>,
    pub identity: Option<ClientIdentity>,
}

/// Everything the session needs to reach and log into a broker.
pub struct BrokerOptions {
    pub client_id: String,
    pub host: String,
    pub port: u16,
    pub keep_alive_secs: u64,
    pub credentials: Option<(String, String)>,
    pub tls: Option<TlsSettings>,
}

/// Whether the MQTT client accepts `id` as a client identifier.
pub open spec fn client_id_ok(id: Seq<char>) -> bool {
    id.len() > 0 && id[0] != ' '
}

/// What rumqttc's `MqttOptions::new` builds for a client identifier, host and
/// port.
pub uninterp spec fn mqtt_options_of(client_id: Seq<char>, host: Seq<char>, port: u16) -> MqttOptions;

/// What rumqttc's `MqttOptions::set_keep_alive` leaves of `options` for an
/// interval of `secs` seconds.
pub uninterp spec fn with_keep_alive_of(options: MqttOptions, secs: u64) -> MqttOptions;

/// What rumqttc's `MqttOptions::set_credentials` leaves of `options`.
pub uninterp spec fn with_credentials_of(
    options: MqttOptions,
    username: Seq<char>,
    password: Seq<char>,
) -> MqttOptions;

/// What rumqttc's `MqttOptions::set_transport` leaves of `options`.
pub uninterp spec fn with_transport_of(options: MqttOptions, transport: Transport) -> MqttOptions;

/// The rumqttc `Key` variant for key bytes of the given algorithm.
pub uninterp spec fn key_of(key: Seq<u8>, kind: KeyKind) -> Key;

/// What rumqttc's `Transport::tls` builds for a CA, an optional client
/// certificate and key, and no ALPN protocols.
pub uninterp spec fn tls_transport_of(ca: Seq<u8>, client_auth: Option<(Seq<u8>, Key)>) -> Transport;

/// A client certificate and key as plain bytes and their rumqttc key.
pub open spec fn client_auth_view(client_auth: Option<(Vec<u8>, Key)>) -> Option<(Seq<u8>, Key)> {
    match client_auth {
        Some(a) => Some((a.0@, a.1)),
        None => None,
    }
}

/// The TLS transport that `tls` stands for.
pub open spec fn transport_for(tls: TlsSettings) -> Transport {
    tls_transport_of(
        tls.ca@,
        match tls.identity {
            Some(id) => Some((id.certificate@, key_of(id.private_key@, id.key_kind))),
            None => None,
        },
    )
}

impl BrokerOptions {
    pub open spec fn wf(&self) -> bool {
        client_id_ok(self.client_id@) && self.keep_alive_secs >= MIN_KEEP_ALIVE_SECS
    }

    /// The MQTT client's options for these settings: the broker's address,
    /// the client identifier and the keep-alive, then the login where set,
    /// then the TLS transport where set.
    pub open spec fn options_spec(&self) -> MqttOptions {
        let base = with_keep_alive_of(
            mqtt_options_of(self.client_id@, self.host@, self.port),
            self.keep_alive_secs,
        );
        let logged_in = match self.credentials {
            Some(c) => with_credentials_of(base, c.0@, c.1@),
            None => base,
        };
        match self.tls {
            Some(tls) => with_transport_of(logged_in, transport_for(tls)),
            None => logged_in,
        }
    }

    /// Options for a plain TCP session with `host` on `port`, identified as
    /// `client_id`, with the default keep-alive and no credentials.
    pub fn new(client_id: &str, host: &str, port: u16) -> (r: Result<BrokerOptions, BrokerError>)
        ensures
            client_id@.len() == 0 ==> r == Err::<BrokerOptions, _>(BrokerError::EmptyClientId),
            client_id@.len() > 0 && client_id@[0] == ' ' ==> r == Err::<BrokerOptions, _>(
                BrokerError::ClientIdStartsWithSpace,
            ),
            client_id_ok(client_id@) <==> r is Ok,
            r matches Ok(o) ==> o.wf() && o.client_id@ == client_id@ && o.host@ == host@ && o.port
                == port && o.keep_alive_secs == DEFAULT_KEEP_ALIVE_SECS && o.credentials is None
                && o.tls is None,
    {
        if client_id.is_empty() {
            Err(BrokerError::EmptyClientId)
        } else if client_id.get_char(0) == ' ' {
            Err(BrokerError::ClientIdStartsWithSpace)
        } else {
            Ok(
                BrokerOptions {
                    client_id: client_id.to_owned(),
                    host: host.to_owned(),
                    port,
                    keep_alive_secs: DEFAULT_KEEP_ALIVE_SECS,
                    credentials: None,
                    tls: None,
                },
            )
        }
    }

    /// Sets the keep-alive interval; one shorter than the minimum is refused
    /// and leaves the options as they were.
    pub fn set_keep_alive(&mut self, secs: u64) -> (r: Result<(), BrokerError>)
        ensures
            secs < MIN_KEEP_ALIVE_SECS <==> r == Err::<(), _>(BrokerError::KeepAliveTooShort),
            r is Ok <==> secs >= MIN_KEEP_ALIVE_SECS,
            final(self).keep_alive_secs == (if r is Ok { secs } else { old(self).keep_alive_secs }),
            final(self).client_id == old(self).client_id,
            final(self).host == old(self).host,
            final(self).port == old(self).port,
            final(self).credentials == old(self).credentials,
            final(self).tls == old(self).tls,
    {
        if secs < MIN_KEEP_ALIVE_SECS {
            Err(BrokerError::KeepAliveTooShort)
        } else {
            self.keep_alive_secs = secs;
            Ok(())
        }
    }

    /// Sets the user name and password the session logs in with.
    pub fn set_credentials(&mut self, username: &str, password: &str)
        ensures
            final(self).credentials matches Some(c) && c.0@ == username@ && c.1@ == password@,
            final(self).keep_alive_secs == old(self).keep_alive_secs,
            final(self).client_id == old(self).client_id,
            final(self).host == old(self).host,
            final(self).port == old(self).port,
            final(self).tls == old(self).tls,
    {
        self.credentials = Some((username.to_owned(), password.to_owned()));
    }

    /// Switches the session to TLS with the given settings.
    pub fn set_tls(&mut self, tls: TlsSettings)
        ensures
            final(self).tls == Some(tls),
            final(self).keep_alive_secs == old(self).keep_alive_secs,
            final(self).client_id == old(self).client_id,
            final(self).host == old(self).host,
            final(self).port == old(self).port,
            final(self).credentials == old(self).credentials,
    {
        self.tls = Some(tls);
    }

    /// The MQTT client's options for this session.
    pub fn mqtt_options(&self) -> (r: MqttOptions)
        requires
            self.wf(),
        ensures
            r == self.options_spec(),
    {
        let mut options = new_mqtt_options(self.client_id.as_str(), self.host.as_str(), self.port);
        set_mqtt_keep_alive(&mut options, self.keep_alive_secs);
        match &self.credentials {
            Some((username, password)) => {
                set_mqtt_credentials(&mut options, username.as_str(), password.as_str());
            },
            None => {},
        }
        match &self.tls {
            Some(tls) => {
                let client_auth = match &tls.identity {
                    Some(id) => {
                        let certificate = id.certificate.clone();
                        let key = id.private_key.clone();
                        assert(certificate@ =~= id.certificate@);
                        assert(key@ =~= id.private_key@);
                        Some((certificate, private_key(key, id.key_kind)))
                    },
                    None => None,
                };
                let ca = tls.ca.clone();
                assert(ca@ =~= tls.ca@);
                let transport = tls_transport(ca, client_auth);
                set_mqtt_transport(&mut options, transport);
            },
            None => {},
        }
        options
    }
}

/// Relies on rumqttc's `MqttOptions::new`, which panics on an empty client
/// identifier or one that starts with a space.
#[verifier::external_body]
fn new_mqtt_options(client_id: &str, host: &str, port: u16) -> (r: MqttOptions)
    requires
        client_id_ok(client_id@),
    ensures
        r == mqtt_options_of(client_id@, host@, port),
{
    MqttOptions::new(client_id, host, port)
}

/// Relies on rumqttc's `MqttOptions::set_keep_alive`, which panics on an
/// interval under five seconds.
#[verifier::external_body]
fn set_mqtt_keep_alive(options: &mut MqttOptions, secs: u64)
    requires
        secs >= MIN_KEEP_ALIVE_SECS,
    ensures
        *final(options) == with_keep_alive_of(*old(options), secs),
{
    options.set_keep_alive(std::time::Duration::from_secs(secs));
}

/// Relies on rumqttc's `MqttOptions::set_credentials`.
#[verifier::external_body]
fn set_mqtt_credentials(options: &mut MqttOptions, username: &str, password: &str)
    ensures
        *final(options) == with_credentials_of(*old(options), username@, password@),
{
    options.set_credentials(username, password);
}

/// Relies on rumqttc's `MqttOptions::set_transport`.
#[verifier::external_body]
fn set_mqtt_transport(options: &mut MqttOptions, transport: Transport)
    ensures
        *final(options) == with_transport_of(*old(options), transport),
{
    options.set_transport(transport);
}

/// Relies on rumqttc's `Key` variants: the key bytes tagged with their
/// algorithm.
#[verifier::external_body]
fn private_key(key: Vec<u8>, kind: KeyKind) -> (r: Key)
    ensures
        r == key_of(key@, kind),
{
    match kind {
        KeyKind::Rsa => Key::RSA(key),
        KeyKind::Ecc => Key::ECC(key),
    }
}

/// Relies on rumqttc's `Transport::tls`: TLS checked against `ca`, with the
/// client certificate and key where given, and no ALPN protocols.
#[verifier::external_body]
fn tls_transport(ca: Vec<u8>, client_auth: Option<(Vec<u8>, Key)>) -> (r: Transport)
    ensures
        r == tls_transport_of(ca@, client_auth_view(client_auth)),
{
    Transport::tls(ca, client_auth, None)
}

} // verus!
