//! How devices connect: the transports' hosts, ports and switches.

use vstd::prelude::*;

verus! {

/// One transport as a device sees it.
pub struct ProtocolConnectivity {
    pub enabled: bool,
    pub host: String,
    pub port: u16,
    pub ssl_enabled: Option<bool>,
}

/// The transports a device can use.
pub struct DeviceConnectivityInfo {
    pub mqtt: ProtocolConnectivity,
    pub http: ProtocolConnectivity,
    pub coap: ProtocolConnectivity,
}

/// A transport's switch and port in the server's configuration.
pub struct TransportSetting {
    pub enabled: bool,
    pub port: u16,
}

/// The connectivity of a device: every transport on the server's host with its
/// configured switch and port; MQTT states that it runs without TLS, the others
/// say nothing of TLS.
pub fn connectivity_info(host: String, mqtt: TransportSetting, http: TransportSetting, coap: TransportSetting) -> (r: DeviceConnectivityInfo)
    ensures
        r.mqtt.host == host && r.http.host == host && r.coap.host == host,
        r.mqtt.enabled == mqtt.enabled && r.mqtt.port == mqtt.port && r.mqtt.ssl_enabled == Some(false),
        r.http.enabled == http.enabled && r.http.port == http.port && r.http.ssl_enabled is None,
        r.coap.enabled == coap.enabled && r.coap.port == coap.port && r.coap.ssl_enabled is None,
{
    DeviceConnectivityInfo {
        mqtt: ProtocolConnectivity { enabled: mqtt.enabled, host: host.clone(), port: mqtt.port, ssl_enabled: Some(false) },
        http: ProtocolConnectivity { enabled: http.enabled, host: host.clone(), port: http.port, ssl_enabled: None },
        coap: ProtocolConnectivity { enabled: coap.enabled, host, port: coap.port, ssl_enabled: None },
    }
}

} // verus!
