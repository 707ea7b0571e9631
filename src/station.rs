//! Station-mode credentials: the network name and passphrase that the radio
//! joins with, checked against the fixed capacities of the radio's
//! configuration record.

use vstd::prelude::*;
use vstd::string::StringSliceAdditionalSpecFns;
use embedded_svc::wifi::{AuthMethod, ClientConfiguration, Configuration};

verus! {

/// The most bytes a network name may hold.
pub const SSID_MAX_BYTES: usize = 32;

/// The most bytes a passphrase may hold.
pub const PASSWORD_MAX_BYTES: usize = 64;

#[verifier::external_type_specification]
#[verifier::external_body]
pub struct ExConfiguration(Configuration);

/// Why credentials were refused.
#[derive(Clone, Copy, Debug, PartialEq, Eq, Structural)]
pub enum CredentialError {
    SsidTooLong,
    PasswordTooLong,
}

/// How the access point authenticates the station.
#[derive(Clone, Copy, Debug, PartialEq, Eq, Structural)]
pub enum Security {
    Open,
    Wpa2Personal,
}

/// What embedded_svc's `Configuration::Client` holds for a network name, a
/// passphrase and a security mode (`Open` as `AuthMethod::None`,
/// `Wpa2Personal` as `AuthMethod::WPA2Personal`), with no fixed access point
/// and no fixed channel.
pub uninterp spec fn station_configuration_of(
    ssid: Seq<char>,
    password: Seq<char>,
    security: Security,
) -> Configuration;

/// Credentials whose name and passphrase fit the radio's configuration.
pub struct StationCredentials {
    pub ssid: String,
    pub password: String,
    pub security: Security,
}

/// The UTF-8 length of `s`, in bytes.
pub open spec fn byte_len(s: Seq<char>) -> nat {
    vstd::utf8::encode_utf8(s).len()
}

/// Whether `ssid` and `password` fit the radio's configuration record.
pub open spec fn fits(ssid: Seq<char>, password: Seq<char>) -> bool {
    byte_len(ssid) <= SSID_MAX_BYTES && byte_len(password) <= PASSWORD_MAX_BYTES
}

impl StationCredentials {
    pub open spec fn wf(&self) -> bool {
        fits(self.ssid@, self.password@)
    }

    /// Checks `ssid` and `password` against the radio's capacities; the name
    /// is checked first.
    pub fn new(ssid: &str, password: &str, security: Security) -> (r: Result<
        StationCredentials,
        CredentialError,
    >)
        ensures
            byte_len(ssid@) > SSID_MAX_BYTES ==> r == Err::<StationCredentials, _>(
                CredentialError::SsidTooLong,
            ),
            byte_len(ssid@) <= SSID_MAX_BYTES && byte_len(password@) > PASSWORD_MAX_BYTES ==> r
                == Err::<StationCredentials, _>(CredentialError::PasswordTooLong),
            fits(ssid@, password@) <==> r is Ok,
            r matches Ok(c) ==> c.wf() && c.ssid@ == ssid@ && c.password@ == password@
                && c.security == security,
    {
        if ssid.as_bytes().len() > SSID_MAX_BYTES {
            Err(CredentialError::SsidTooLong)
        } else if password.as_bytes().len() > PASSWORD_MAX_BYTES {
            Err(CredentialError::PasswordTooLong)
        } else {
            Ok(StationCredentials { ssid: ssid.to_owned(), password: password.to_owned(), security })
        }
    }

    /// The radio's station configuration for these credentials, with no
    /// fixed access point and no fixed channel.
    pub fn configuration(&self) -> (r: Configuration)
        requires
            self.wf(),
        ensures
            r == station_configuration_of(self.ssid@, self.password@, self.security),
    {
        client_configuration(self.ssid.as_str(), self.password.as_str(), self.security)
    }
}

/// Relies on embedded_svc's `Configuration::Client` record and on heapless's
/// `From<&str>` for its `String<32>` and `String<64>` fields, which panics on
/// text longer than the capacity in bytes.
#[verifier::external_body]
fn client_configuration(ssid: &str, password: &str, security: Security) -> (r: Configuration)
    requires
        byte_len(ssid@) <= SSID_MAX_BYTES,
        byte_len(password@) <= PASSWORD_MAX_BYTES,
    ensures
        r == station_configuration_of(ssid@, password@, security),
{
    let auth_method = match security {
        Security::Open => AuthMethod::None,
        Security::Wpa2Personal => AuthMethod::WPA2Personal,
    };
    Configuration::Client(ClientConfiguration {
        ssid: ssid.into(),
        bssid: None,
        auth_method,
        password: password.into(),
        channel: None,
    })
}

} // verus!
