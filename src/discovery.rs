//! Discovery by UDP broadcast: the request, the handling of each reply, and
//! the decisions of the collecting loop. The socket work is the caller's: it
//! sends `discovery_request()`, then feeds each outcome of a receive to a
//! `DiscoverySession` until the session says to finish.
use vstd::prelude::*;
use vstd::string::StringSliceAdditionalSpecFns;
use crate::protocol::{decrypt, decrypt_seq, encrypt, encrypt_seq, lemma_decrypt_prefix};
use crate::types::{
    DeviceData, GetSysInfo, TPLinkDiscoveryData, TPLinkSmartLightData, TPLinkSmartPowerStripData,
};

verus! {

/// UDP port that devices listen and answer on.
pub const DISCOVERY_PORT: u16 = 9999;

/// How long the loop waits for each datagram, in milliseconds.
pub const RECEIVE_TIMEOUT_MS: u64 = 2500;

/// Size of the receive buffer for one datagram.
pub const DATAGRAM_BUFFER_LEN: usize = 2048;

/// The plaintext of the broadcast request: `get_sysinfo` with no arguments.
pub const DISCOVERY_REQUEST: &'static str = "{\"system\":{\"get_sysinfo\":{}}}";

/// Model identifiers of dimmers, which report the plug shape.
pub open spec fn is_dimmer_model_spec(model: Seq<char>) -> bool {
    model == "ES20M(US)"@ || model == "KS230(US)"@
}

/// The record that a parsed reply from `source` becomes, if any: the reported
/// address is replaced by the source of the datagram, and an empty or
/// unrecognised document gives no record.
pub open spec fn classify_spec(info: GetSysInfo, source: String) -> Option<DeviceData> {
    match info {
        GetSysInfo::TPLinkDiscoveryData(d) => {
            let d = TPLinkDiscoveryData { ip: Some(source), ..d };
            if is_dimmer_model_spec(d.model@) {
                Some(DeviceData::SmartDimmer(d))
            } else {
                Some(DeviceData::SmartPlug(d))
            }
        },
        GetSysInfo::TPLinkSmartLightData(d) => Some(
            DeviceData::SmartLight(TPLinkSmartLightData { ip: Some(source), ..d }),
        ),
        GetSysInfo::TPLinkSmartPowerStripData(d) => Some(
            DeviceData::SmartPowerStrip(TPLinkSmartPowerStripData { ip: Some(source), ..d }),
        ),
        GetSysInfo::Empty => None,
        GetSysInfo::CatchAll(_) => None,
    }
}

/// The records that one reply adds to the list: none for a reply that did not
/// parse.
pub open spec fn reply_records(source: String, sysinfo: Option<GetSysInfo>) -> Seq<DeviceData> {
    match sysinfo {
        Some(info) => match classify_spec(info, source) {
            Some(d) => seq![d],
            None => Seq::empty(),
        },
        None => Seq::empty(),
    }
}

/// Whether `model` names a dimmer.
pub fn is_dimmer_model(model: &String) -> (r: bool)
    ensures
        r == is_dimmer_model_spec(model@),
{
    let es20m = String::from_str("ES20M(US)");
    let ks230 = String::from_str("KS230(US)");
    *model == es20m || *model == ks230
}

/// Turns a parsed reply from `source` into a device record, or `None` for an
/// empty or unrecognised document.
pub fn classify(info: GetSysInfo, source: String) -> (r: Option<DeviceData>)
    ensures
        r == classify_spec(info, source),
{
    match info {
        GetSysInfo::TPLinkDiscoveryData(d) => {
            let d = TPLinkDiscoveryData { ip: Some(source), ..d };
            if is_dimmer_model(&d.model) {
                Some(DeviceData::SmartDimmer(d))
            } else {
                Some(DeviceData::SmartPlug(d))
            }
        },
        GetSysInfo::TPLinkSmartLightData(d) => Some(
            DeviceData::SmartLight(TPLinkSmartLightData { ip: Some(source), ..d }),
        ),
        GetSysInfo::TPLinkSmartPowerStripData(d) => Some(
            DeviceData::SmartPowerStrip(TPLinkSmartPowerStripData { ip: Some(source), ..d }),
        ),
        GetSysInfo::Empty => None,
        GetSysInfo::CatchAll(_) => None,
    }
}

/// A plug-shaped reply is a dimmer when its model is `ES20M(US)`, and a plug
/// when its model is none of the known dimmer models; either way it carries
/// the source address.
pub proof fn lemma_dimmer_classification(d: TPLinkDiscoveryData, source: String)
    ensures
        d.model@ == "ES20M(US)"@ ==> classify_spec(GetSysInfo::TPLinkDiscoveryData(d), source)
            == Some(DeviceData::SmartDimmer(TPLinkDiscoveryData { ip: Some(source), ..d })),
        !is_dimmer_model_spec(d.model@) ==> classify_spec(
            GetSysInfo::TPLinkDiscoveryData(d),
            source,
        ) == Some(DeviceData::SmartPlug(TPLinkDiscoveryData { ip: Some(source), ..d })),
{
}

/// The enciphered broadcast request, ready to send.
pub fn discovery_request() -> (r: Vec<u8>)
    ensures
        r@ == encrypt_seq(DISCOVERY_REQUEST.spec_bytes()),
{
    encrypt(DISCOVERY_REQUEST.as_bytes())
}

/// The plaintext of a datagram of `num_bytes` bytes that arrived in `buf`.
pub fn reply_payload(buf: &[u8], num_bytes: usize) -> (r: Vec<u8>)
    requires
        num_bytes <= buf@.len(),
    ensures
        r@ == decrypt_seq(buf@).take(num_bytes as int),
{
    let (received, _) = buf.split_at(num_bytes);
    proof {
        lemma_decrypt_prefix(buf@, num_bytes as int);
    }
    decrypt(received)
}

/// Length of the leading run of ASCII bytes of `data`, the part of a garbled
/// reply that can be shown as text.
pub fn ascii_prefix_len(data: &[u8]) -> (r: usize)
    ensures
        r <= data@.len(),
        forall|i: int| 0 <= i < r ==> data@[i] < 0x80,
        r < data@.len() ==> data@[r as int] >= 0x80,
{
    let mut i: usize = 0;
    while i < data.len() && data[i] < 0x80
        invariant
            i <= data@.len(),
            forall|j: int| 0 <= j < i ==> data@[j] < 0x80,
        decreases data@.len() - i,
    {
        i = i + 1;
    }
    i
}

/// The outcome of one wait for a datagram.
pub enum DiscoveryEvent {
    /// A datagram arrived from `source`; `sysinfo` is its parsed reply, or
    /// `None` when its payload was not a reply document.
    Reply { source: String, sysinfo: Option<GetSysInfo> },
    /// The socket reported an error.
    ReceiveFailed,
    /// No datagram came within the timeout.
    TimedOut,
}

/// What the loop does next.
#[derive(Debug, Clone, Copy, PartialEq, Eq)]
pub enum DiscoveryAction {
    /// Wait for another datagram.
    Receive,
    /// Stop and return the collected records.
    Finish,
}

/// The records collected so far, in order of arrival.
pub struct DiscoverySession {
    pub devices: Vec<DeviceData>,
}

impl DiscoverySession {
    /// A session that has collected nothing.
    pub fn new() -> (r: DiscoverySession)
        ensures
            r.devices@ == Seq::<DeviceData>::empty(),
    {
        DiscoverySession { devices: Vec::new() }
    }

    /// Takes one outcome of a receive. A reply, parsed or not, adds its record
    /// if it has one and the loop goes on; a socket error or a quiet period
    /// ends it, with the records kept.
    pub fn handle(&mut self, event: DiscoveryEvent) -> (r: DiscoveryAction)
        ensures
            match event {
                DiscoveryEvent::Reply { source, sysinfo } => {
                    &&& r == DiscoveryAction::Receive
                    &&& final(self).devices@ == old(self).devices@ + reply_records(source, sysinfo)
                },
                _ => {
                    &&& r == DiscoveryAction::Finish
                    &&& final(self).devices@ == old(self).devices@
                },
            },
    {
        match event {
            DiscoveryEvent::Reply { source, sysinfo } => {
                match sysinfo {
                    Some(info) => match classify(info, source) {
                        Some(d) => {
                            self.devices.push(d);
                        },
                        None => {
                            proof {
                                assert(old(self).devices@ + Seq::<DeviceData>::empty()
                                    == old(self).devices@);
                            }
                        },
                    },
                    None => {
                        proof {
                            assert(old(self).devices@ + Seq::<DeviceData>::empty()
                                == old(self).devices@);
                        }
                    },
                }
                DiscoveryAction::Receive
            },
            DiscoveryEvent::ReceiveFailed => DiscoveryAction::Finish,
            DiscoveryEvent::TimedOut => DiscoveryAction::Finish,
        }
    }

    /// The collected records.
    pub fn into_devices(self) -> (r: Vec<DeviceData>)
        ensures
            r@ == self.devices@,
    {
        self.devices
    }
}

} // verus!
