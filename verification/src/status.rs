//! Snapshot of the radio's two roles and the readiness rule.

use vstd::prelude::*;

verus! {

/// State of the client (station) role.
#[derive(Clone, Copy, Debug, PartialEq, Eq, Structural)]
pub enum ClientStatus {
    Idle,
    Connecting,
    ConnectedWithAddress,
    Failed,
}

/// State of the access-point role.
#[derive(Clone, Copy, Debug, PartialEq, Eq, Structural)]
pub enum AccessPointStatus {
    Idle,
    StartedWithAddress,
    Failed,
}

/// The pair of role states read from the driver after configuration.
#[derive(Clone, Copy, Debug, PartialEq, Eq, Structural)]
pub struct RadioStatus {
    pub client: ClientStatus,
    pub access_point: AccessPointStatus,
}

impl ClientStatus {
    /// The words used for this state in messages.
    pub open spec fn spec_label(self) -> Seq<char> {
        match self {
            ClientStatus::Idle => "idle"@,
            ClientStatus::Connecting => "connecting"@,
            ClientStatus::ConnectedWithAddress => "connected with address"@,
            ClientStatus::Failed => "failed"@,
        }
    }

    /// Names the state in a few words.
    pub fn label(self) -> (text: &'static str)
        ensures
            text@ == self.spec_label(),
    {
        match self {
            ClientStatus::Idle => "idle",
            ClientStatus::Connecting => "connecting",
            ClientStatus::ConnectedWithAddress => "connected with address",
            ClientStatus::Failed => "failed",
        }
    }
}

impl AccessPointStatus {
    /// The words used for this state in messages.
    pub open spec fn spec_label(self) -> Seq<char> {
        match self {
            AccessPointStatus::Idle => "idle"@,
            AccessPointStatus::StartedWithAddress => "started with address"@,
            AccessPointStatus::Failed => "failed"@,
        }
    }

    /// Names the state in a few words.
    pub fn label(self) -> (text: &'static str)
        ensures
            text@ == self.spec_label(),
    {
        match self {
            AccessPointStatus::Idle => "idle",
            AccessPointStatus::StartedWithAddress => "started with address",
            AccessPointStatus::Failed => "failed",
        }
    }
}

impl RadioStatus {
    /// The one combination that counts as a live radio.
    pub open spec fn spec_is_ready(self) -> bool {
        self.client == ClientStatus::ConnectedWithAddress && self.access_point
            == AccessPointStatus::StartedWithAddress
    }

    /// True exactly when the client holds an address and the access point
    /// has started with one.
    #[verifier::when_used_as_spec(spec_is_ready)]
    pub fn is_ready(self) -> (ready: bool)
        ensures
            ready == self.spec_is_ready(),
    {
        match (self.client, self.access_point) {
            (ClientStatus::ConnectedWithAddress, AccessPointStatus::StartedWithAddress) => true,
            _ => false,
        }
    }
}

} // verus!
