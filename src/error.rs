//! The errors of device communication.
use vstd::prelude::*;

verus! {

/// `std::io::Error`, carried in `TpLinkError::Network`.
#[verifier::external_type_specification]
#[verifier::external_body]
pub struct ExIoError(std::io::Error);

/// What can go wrong when talking to a device.
#[derive(Debug)]
pub enum TpLinkError {
    /// A socket, connect or other I/O failure.
    Network(std::io::Error),
    /// A response that is not valid JSON.
    Json(serde_json::Error),
    /// A command's response read zero bytes.
    NoResponse,
    /// An address string that is not an IPv4 or IPv6 address.
    InvalidIpAddress(String),
    /// A colour expression that could not be parsed.
    InvalidColor(String),
    /// A failure reported by or about the device, an out-of-range argument
    /// included.
    DeviceCommunication { message: String },
    /// An operation that the device's category does not support.
    UnsupportedDevice { device_type: String },
}

} // verus!
