//! Local-network control of TP-Link smart plugs, dimmers, lights and power
//! strips: the payload cipher, the discovery model and the command dialect.
pub mod client;
pub mod commands;
pub mod discovery;
pub mod error;
pub mod json;
pub mod protocol;
pub mod types;

pub use client::TpLinkClient;
pub use commands::{Arg, Command};
pub use discovery::{DiscoveryAction, DiscoveryEvent, DiscoverySession};
pub use error::TpLinkError;
pub use protocol::{decrypt, decrypt_with_header, encrypt, encrypt_with_header};
pub use types::{
    DeviceData, GetSysInfo, TPLinkDiscoveryData, TPLinkSmartLightData, TPLinkSmartPowerStripData,
};
