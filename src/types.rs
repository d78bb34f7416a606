//! The sysinfo shapes that devices report on discovery, and the device
//! records that discovery hands out.
use vstd::prelude::*;

verus! {

/// Sysinfo of a smart plug or a smart dimmer, which report the same shape.
#[derive(Debug, PartialEq)]
pub struct TPLinkDiscoveryData {
    /// Display name.
    pub alias: String,
    /// Model identifier, such as `HS105(US)`.
    pub model: String,
    /// Whether the relay is closed (1) or open (0).
    pub relay_state: u8,
    /// Address of the device, as the network saw it.
    pub ip: Option<String>,
}

/// Sysinfo of a smart light.
#[derive(Debug, PartialEq)]
pub struct TPLinkSmartLightData {
    /// Display name.
    pub alias: String,
    /// Model identifier.
    pub model: String,
    /// The light's state document, kept as the device sent it.
    pub light_state: serde_json::Value,
    /// Address of the device, as the network saw it.
    pub ip: Option<String>,
}

/// Sysinfo of a power strip.
#[derive(Debug, PartialEq)]
pub struct TPLinkSmartPowerStripData {
    /// Display name.
    pub alias: String,
    /// Model identifier.
    pub model: String,
    /// Number of sockets on the strip.
    pub child_num: u8,
    /// Address of the device, as the network saw it.
    pub ip: Option<String>,
}

/// A parsed `get_sysinfo` reply. The known shapes are tried in the order of
/// the variants; a document of none of them is kept whole in `CatchAll`.
#[derive(Debug, PartialEq)]
pub enum GetSysInfo {
    TPLinkDiscoveryData(TPLinkDiscoveryData),
    TPLinkSmartLightData(TPLinkSmartLightData),
    TPLinkSmartPowerStripData(TPLinkSmartPowerStripData),
    Empty,
    CatchAll(serde_json::Value),
}

/// How a reply document reads in each known shape: the record where it has
/// that shape, and whether it is the empty document.
pub struct ShapeMatches {
    pub plug_or_dimmer: Option<TPLinkDiscoveryData>,
    pub light: Option<TPLinkSmartLightData>,
    pub power_strip: Option<TPLinkSmartPowerStripData>,
    pub empty: bool,
}

/// The sysinfo of a reply document `raw`: its first shape in the order plug or
/// dimmer, light, power strip, empty; and `raw` itself when it has none.
pub fn select_sysinfo(matches: ShapeMatches, raw: serde_json::Value) -> (r: GetSysInfo)
    ensures
        matches.plug_or_dimmer matches Some(d) ==> r == GetSysInfo::TPLinkDiscoveryData(d),
        matches.plug_or_dimmer is None ==> (matches.light matches Some(d) ==> r
            == GetSysInfo::TPLinkSmartLightData(d)),
        matches.plug_or_dimmer is None && matches.light is None ==> (
        matches.power_strip matches Some(d) ==> r == GetSysInfo::TPLinkSmartPowerStripData(d)),
        matches.plug_or_dimmer is None && matches.light is None && matches.power_strip is None
            ==> r == if matches.empty {
            GetSysInfo::Empty
        } else {
            GetSysInfo::CatchAll(raw)
        },
{
    match matches.plug_or_dimmer {
        Some(d) => GetSysInfo::TPLinkDiscoveryData(d),
        None => match matches.light {
            Some(d) => GetSysInfo::TPLinkSmartLightData(d),
            None => match matches.power_strip {
                Some(d) => GetSysInfo::TPLinkSmartPowerStripData(d),
                None => if matches.empty {
                    GetSysInfo::Empty
                } else {
                    GetSysInfo::CatchAll(raw)
                },
            },
        },
    }
}

/// A discovered device, by category.
#[derive(Debug, PartialEq)]
pub enum DeviceData {
    SmartPlug(TPLinkDiscoveryData),
    SmartLight(TPLinkSmartLightData),
    SmartDimmer(TPLinkDiscoveryData),
    SmartPowerStrip(TPLinkSmartPowerStripData),
}

} // verus!
