//! Bring-up of a station that joins a Wi-Fi network and then opens an MQTT
//! session with a cloud broker: certificate framing, station credentials, the
//! association handshake, and broker options.

pub mod broker;
pub mod certificate;
pub mod handshake;
pub mod station;
