//! Why a scan did not take place or did not finish.

use vstd::prelude::*;

verus! {

/// What is wrong with the target of a scan.
#[derive(Clone, Copy, Debug, PartialEq, Eq, Structural)]
pub enum TargetFault {
    /// The text is no IP address.
    Unparsable,
    /// The address is an IPv6 address.
    Ipv6,
}

/// One end of the port range.
#[derive(Clone, Copy, Debug, PartialEq, Eq, Structural)]
pub enum PortField {
    Start,
    End,
}

/// Why a scan did not take place or did not finish.
#[derive(Clone, Copy, Debug, PartialEq, Eq, Structural)]
pub enum ScanError {
    /// The target is not an IPv4 address.
    InvalidTarget(TargetFault),
    /// The text given for one end of the port range is no port number.
    InvalidPort(PortField),
    /// The port range starts above its end.
    InvalidRange,
    /// The host has no interface that is up, is not the loopback interface
    /// and has an IPv4 address.
    NoInterfaceAvailable,
    /// The raw channel could not be opened.
    SocketError,
    /// A probe could not be written to the channel.
    TransmitError,
}

impl ScanError {
    /// The text that goes with the error.
    pub open spec fn message_spec(self) -> Seq<char> {
        match self {
            ScanError::InvalidTarget(TargetFault::Unparsable) => "Invalid IP address"@,
            ScanError::InvalidTarget(TargetFault::Ipv6) => "IPv6 not supported"@,
            ScanError::InvalidPort(PortField::Start) => "Invalid Start Port."@,
            ScanError::InvalidPort(PortField::End) => "Invalid End Port."@,
            ScanError::InvalidRange => "Start port cannot be greater than end port"@,
            ScanError::NoInterfaceAvailable => "No valid IPv4 interface found."@,
            ScanError::SocketError => "Socket error"@,
            ScanError::TransmitError => "Transmit error"@,
        }
    }

    /// The text that goes with the error.
    pub fn message(&self) -> (text: &'static str)
        ensures
            text@ == self.message_spec(),
    {
        match self {
            ScanError::InvalidTarget(TargetFault::Unparsable) => "Invalid IP address",
            ScanError::InvalidTarget(TargetFault::Ipv6) => "IPv6 not supported",
            ScanError::InvalidPort(PortField::Start) => "Invalid Start Port.",
            ScanError::InvalidPort(PortField::End) => "Invalid End Port.",
            ScanError::InvalidRange => "Start port cannot be greater than end port",
            ScanError::NoInterfaceAvailable => "No valid IPv4 interface found.",
            ScanError::SocketError => "Socket error",
            ScanError::TransmitError => "Transmit error",
        }
    }
}

} // verus!
