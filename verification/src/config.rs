//! The combined client and access-point configuration applied to the radio.

use vstd::prelude::*;

verus! {

/// Name under which the device hosts its own network.
pub const ACCESS_POINT_SSID: &'static str = "aptest";

/// Channel the access point falls back to when the scan found none.
pub const DEFAULT_CHANNEL: u8 = 1;

/// Settings of the client role: the network to join, its credential, and the
/// channel to look on. Without a channel the driver negotiates one itself.
#[derive(Debug, PartialEq, Eq)]
pub struct ClientConfiguration {
    pub ssid: String,
    pub password: String,
    pub channel: Option<u8>,
}

/// Settings of the access-point role. Whatever is not named here is left at
/// the driver's defaults.
#[derive(Debug, PartialEq, Eq)]
pub struct AccessPointConfiguration {
    pub ssid: String,
    pub channel: u8,
}

/// Both roles together, applied to the driver in one call.
#[derive(Debug, PartialEq, Eq)]
pub struct RadioConfiguration {
    pub client: ClientConfiguration,
    pub access_point: AccessPointConfiguration,
}

/// Mathematical model of a [`ClientConfiguration`].
pub struct ClientSettings {
    pub ssid: Seq<char>,
    pub password: Seq<char>,
    pub channel: Option<u8>,
}

/// Mathematical model of an [`AccessPointConfiguration`].
pub struct AccessPointSettings {
    pub ssid: Seq<char>,
    pub channel: u8,
}

/// Mathematical model of a [`RadioConfiguration`].
pub struct RadioSettings {
    pub client: ClientSettings,
    pub access_point: AccessPointSettings,
}

impl View for ClientConfiguration {
    type V = ClientSettings;

    open spec fn view(&self) -> ClientSettings {
        ClientSettings { ssid: self.ssid@, password: self.password@, channel: self.channel }
    }
}

impl View for AccessPointConfiguration {
    type V = AccessPointSettings;

    open spec fn view(&self) -> AccessPointSettings {
        AccessPointSettings { ssid: self.ssid@, channel: self.channel }
    }
}

impl View for RadioConfiguration {
    type V = RadioSettings;

    open spec fn view(&self) -> RadioSettings {
        RadioSettings { client: self.client@, access_point: self.access_point@ }
    }
}

impl Clone for ClientConfiguration {
    fn clone(&self) -> (copy: ClientConfiguration)
        ensures
            copy@ == self@,
    {
        ClientConfiguration {
            ssid: self.ssid.clone(),
            password: self.password.clone(),
            channel: self.channel,
        }
    }
}

impl Clone for AccessPointConfiguration {
    fn clone(&self) -> (copy: AccessPointConfiguration)
        ensures
            copy@ == self@,
    {
        AccessPointConfiguration { ssid: self.ssid.clone(), channel: self.channel }
    }
}

impl Clone for RadioConfiguration {
    fn clone(&self) -> (copy: RadioConfiguration)
        ensures
            copy@ == self@,
    {
        RadioConfiguration { client: self.client.clone(), access_point: self.access_point.clone() }
    }
}

/// The channel the access point uses: the one the scan selected, or the
/// default when it selected none.
pub open spec fn access_point_channel(selected: Option<u8>) -> u8 {
    match selected {
        Some(channel) => channel,
        None => DEFAULT_CHANNEL,
    }
}

/// The configuration that follows from a target network, its credential and
/// the channel selected for it.
pub open spec fn radio_settings(
    target: Seq<char>,
    credential: Seq<char>,
    selected: Option<u8>,
) -> RadioSettings {
    RadioSettings {
        client: ClientSettings { ssid: target, password: credential, channel: selected },
        access_point: AccessPointSettings {
            ssid: ACCESS_POINT_SSID@,
            channel: access_point_channel(selected),
        },
    }
}

/// Builds the dual-mode configuration: the client joins `target` with
/// `credential` on the selected channel if there is one, and the access point
/// is hosted on that same channel, or on the default channel if there is none.
pub fn configure(
    target: &str,
    credential: &str,
    selected: Option<u8>,
) -> (configuration: RadioConfiguration)
    ensures
        configuration@ == radio_settings(target@, credential@, selected),
{
    let channel: u8 = match selected {
        Some(channel) => channel,
        None => DEFAULT_CHANNEL,
    };
    RadioConfiguration {
        client: ClientConfiguration {
            ssid: target.to_owned(),
            password: credential.to_owned(),
            channel: selected,
        },
        access_point: AccessPointConfiguration { ssid: ACCESS_POINT_SSID.to_owned(), channel },
    }
}

} // verus!
