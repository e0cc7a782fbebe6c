//! What can end a start-up attempt.

use crate::status::RadioStatus;
use vstd::prelude::*;
use vstd::string::*;

verus! {

/// The ways in which bringing the device online fails. None of them is
/// retried: the first one ends the attempt.
#[derive(Clone, Copy, Debug, PartialEq, Eq, Structural)]
pub enum BringUpError {
    /// A platform service or the radio driver could not be constructed.
    PlatformInit,
    /// The radio could not enumerate the visible networks.
    Scan,
    /// The radio rejected the combined configuration.
    Configuration,
    /// The roles were not both ready right after configuration.
    StatusMismatch(RadioStatus),
    /// The responder could not start listening.
    ServerStart,
}

impl BringUpError {
    /// The text of the error.
    pub open spec fn spec_message(self) -> Seq<char> {
        match self {
            BringUpError::PlatformInit => "Platform services could not be initialised"@,
            BringUpError::Scan => "Wifi scan failed"@,
            BringUpError::Configuration => "Wifi configuration was rejected"@,
            BringUpError::StatusMismatch(status) => "Unexpected wifi status: client "@
                + status.client.spec_label() + ", access point "@
                + status.access_point.spec_label(),
            BringUpError::ServerStart => "HTTP server could not be started"@,
        }
    }

    /// Describes the error for an operator.
    pub fn message(&self) -> (text: String)
        ensures
            text@ == self.spec_message(),
    {
        match self {
            BringUpError::PlatformInit => "Platform services could not be initialised".to_owned(),
            BringUpError::Scan => "Wifi scan failed".to_owned(),
            BringUpError::Configuration => "Wifi configuration was rejected".to_owned(),
            BringUpError::StatusMismatch(status) => {
                let mut text: String = "Unexpected wifi status: client ".to_owned();
                text.append(status.client.label());
                text.append(", access point ");
                text.append(status.access_point.label());
                text
            },
            BringUpError::ServerStart => "HTTP server could not be started".to_owned(),
        }
    }
}

} // verus!
