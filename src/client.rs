//! The client: the command of each device operation, and the reading of a
//! device's framed response. The connection itself is the caller's: it
//! validates the address, sends `encrypt_with_header` of the command's JSON on
//! `COMMAND_PORT`, reads once into a `RESPONSE_BUFFER_LEN` buffer and hands
//! the buffer to `read_response`.
use vstd::prelude::*;
use crate::commands::{
    arg, device_command, socket_command, switch_value, Arg, ArgValue, Command, CommandView,
    DIMMER_SERVICE, LIGHT_SERVICE, SYSTEM_SERVICE,
};
use crate::error::TpLinkError;
use crate::json::{is_json, parse_json};
use crate::protocol::{decrypt_with_header, decrypt_with_header_seq};

verus! {

/// TCP port of the command service.
pub const COMMAND_PORT: u16 = 9999;

/// Size of the one read of a response; a longer response is cut short.
pub const RESPONSE_BUFFER_LEN: usize = 1024;

/// Brightness is a percentage.
pub const MAX_BRIGHTNESS: u8 = 100;

/// The error of a brightness above `MAX_BRIGHTNESS`.
pub open spec fn is_brightness_error(e: TpLinkError) -> bool {
    e matches TpLinkError::DeviceCommunication { message } && message@
        == "Brightness must be between 0 and 100"@
}

/// The relay command of the system service: `state` 1 for on, 0 for off.
pub open spec fn relay_command(on: bool) -> CommandView {
    device_command(SYSTEM_SERVICE@, "set_relay_state"@, seq![("state"@, ArgValue::Number(switch_value(on)))])
}

/// A `transition_light_state` command of the light service.
pub open spec fn light_command(args: Seq<(Seq<char>, ArgValue)>) -> CommandView {
    device_command(LIGHT_SERVICE@, "transition_light_state"@, args)
}

/// The stateless client of the device protocol.
#[derive(Debug)]
pub struct TpLinkClient {}

impl TpLinkClient {
    /// A new client.
    pub fn new() -> (r: TpLinkClient) {
        TpLinkClient {}
    }

    /// Turns a plug on.
    pub fn turn_plug_on(&self) -> (r: Command)
        ensures
            r@ == relay_command(true),
    {
        relay_state(true)
    }

    /// Turns a plug off.
    pub fn turn_plug_off(&self) -> (r: Command)
        ensures
            r@ == relay_command(false),
    {
        relay_state(false)
    }

    /// Renames a plug.
    pub fn set_plug_alias(&self, alias: &str) -> (r: Command)
        ensures
            r@ == device_command(
                SYSTEM_SERVICE@,
                "set_dev_alias"@,
                seq![("alias"@, ArgValue::Text(alias@))],
            ),
    {
        let mut args = Vec::new();
        args.push(arg("alias", Arg::Text(alias.to_owned())));
        let r = Command::new(SYSTEM_SERVICE, "set_dev_alias", args);
        proof {
            assert(r@.args =~= seq![("alias"@, ArgValue::Text(alias@))]);
        }
        r
    }

    /// Reboots a plug after one second.
    pub fn reboot_plug(&self) -> (r: Command)
        ensures
            r@ == device_command(SYSTEM_SERVICE@, "reboot"@, seq![("delay"@, ArgValue::Number(1))]),
    {
        let mut args = Vec::new();
        args.push(arg("delay", Arg::Number(1)));
        let r = Command::new(SYSTEM_SERVICE, "reboot", args);
        proof {
            assert(r@.args =~= seq![("delay"@, ArgValue::Number(1))]);
        }
        r
    }

    /// Sets a dimmer's brightness, a percentage, over a one-second transition.
    pub fn set_dimmer_brightness(&self, brightness: u8) -> (r: Result<Command, TpLinkError>)
        ensures
            match r {
                Ok(c) => brightness <= MAX_BRIGHTNESS && c@ == device_command(
                    DIMMER_SERVICE@,
                    "set_dimmer_transition"@,
                    seq![
                        ("brightness"@, ArgValue::Number(brightness as u64)),
                        ("duration"@, ArgValue::Number(1)),
                    ],
                ),
                Err(e) => brightness > MAX_BRIGHTNESS && is_brightness_error(e),
            },
    {
        if brightness > MAX_BRIGHTNESS {
            return Err(brightness_error());
        }
        let mut args = Vec::new();
        args.push(arg("brightness", Arg::Number(brightness as u64)));
        args.push(arg("duration", Arg::Number(1)));
        let r = Command::new(DIMMER_SERVICE, "set_dimmer_transition", args);
        proof {
            assert(r@.args =~= seq![
                ("brightness"@, ArgValue::Number(brightness as u64)),
                ("duration"@, ArgValue::Number(1)),
            ]);
        }
        Ok(r)
    }

    /// Sets the minutes of inactivity after which a dimmer turns off.
    pub fn set_dimmer_inactivity_timeout(&self, timeout_minutes: u8) -> (r: Command)
        ensures
            r@ == device_command(
                DIMMER_SERVICE@,
                "set_cold_time"@,
                seq![("cold_time"@, ArgValue::Number(timeout_minutes as u64))],
            ),
    {
        let mut args = Vec::new();
        args.push(arg("cold_time", Arg::Number(timeout_minutes as u64)));
        let r = Command::new(DIMMER_SERVICE, "set_cold_time", args);
        proof {
            assert(r@.args =~= seq![("cold_time"@, ArgValue::Number(timeout_minutes as u64))]);
        }
        r
    }

    /// Turns a light on or off at once.
    pub fn turn_light_on_off(&self, on: bool) -> (r: Command)
        ensures
            r@ == light_command(
                seq![
                    ("on_off"@, ArgValue::Number(switch_value(on))),
                    ("transition_period"@, ArgValue::Number(0)),
                ],
            ),
    {
        let state: u64 = if on { 1 } else { 0 };
        let mut args = Vec::new();
        args.push(arg("on_off", Arg::Number(state)));
        args.push(arg("transition_period", Arg::Number(0)));
        let r = Command::new(LIGHT_SERVICE, "transition_light_state", args);
        proof {
            assert(r@.args =~= seq![
                ("on_off"@, ArgValue::Number(switch_value(on))),
                ("transition_period"@, ArgValue::Number(0)),
            ]);
        }
        r
    }

    /// Sets a light's brightness, a percentage, at once.
    pub fn set_light_brightness(&self, brightness: u8) -> (r: Result<Command, TpLinkError>)
        ensures
            match r {
                Ok(c) => brightness <= MAX_BRIGHTNESS && c@ == light_command(
                    seq![
                        ("brightness"@, ArgValue::Number(brightness as u64)),
                        ("transition_period"@, ArgValue::Number(0)),
                    ],
                ),
                Err(e) => brightness > MAX_BRIGHTNESS && is_brightness_error(e),
            },
    {
        if brightness > MAX_BRIGHTNESS {
            return Err(brightness_error());
        }
        let mut args = Vec::new();
        args.push(arg("brightness", Arg::Number(brightness as u64)));
        args.push(arg("transition_period", Arg::Number(0)));
        let r = Command::new(LIGHT_SERVICE, "transition_light_state", args);
        proof {
            assert(r@.args =~= seq![
                ("brightness"@, ArgValue::Number(brightness as u64)),
                ("transition_period"@, ArgValue::Number(0)),
            ]);
        }
        Ok(r)
    }

    /// Sets a light's colour in HSV mode: the hue in degrees, the saturation
    /// and the value as percentages, and a colour temperature of 0.
    pub fn set_light_color(&self, hue: u8, saturation: u8, value: u8) -> (r: Command)
        ensures
            r@ == light_command(
                seq![
                    ("hue"@, ArgValue::Number(hue as u64)),
                    ("saturation"@, ArgValue::Number(saturation as u64)),
                    ("brightness"@, ArgValue::Number(value as u64)),
                    ("color_temp"@, ArgValue::Number(0)),
                    ("transition_period"@, ArgValue::Number(0)),
                ],
            ),
    {
        let mut args = Vec::new();
        args.push(arg("hue", Arg::Number(hue as u64)));
        args.push(arg("saturation", Arg::Number(saturation as u64)));
        args.push(arg("brightness", Arg::Number(value as u64)));
        args.push(arg("color_temp", Arg::Number(0)));
        args.push(arg("transition_period", Arg::Number(0)));
        let r = Command::new(LIGHT_SERVICE, "transition_light_state", args);
        proof {
            assert(r@.args =~= seq![
                ("hue"@, ArgValue::Number(hue as u64)),
                ("saturation"@, ArgValue::Number(saturation as u64)),
                ("brightness"@, ArgValue::Number(value as u64)),
                ("color_temp"@, ArgValue::Number(0)),
                ("transition_period"@, ArgValue::Number(0)),
            ]);
        }
        r
    }

    /// Turns off the socket `socket_id` of a power strip.
    pub fn turn_power_strip_socket_off(&self, socket_id: &str) -> (r: Command)
        ensures
            r@ == socket_command(
                socket_id@,
                SYSTEM_SERVICE@,
                "set_relay_state"@,
                seq![("state"@, ArgValue::Number(0))],
            ),
    {
        relay_state(false).for_socket(socket_id)
    }

    /// Turns on the socket `socket_id` of a power strip.
    pub fn turn_power_strip_socket_on(&self, socket_id: &str) -> (r: Command)
        ensures
            r@ == socket_command(
                socket_id@,
                SYSTEM_SERVICE@,
                "set_relay_state"@,
                seq![("state"@, ArgValue::Number(1))],
            ),
    {
        relay_state(true).for_socket(socket_id)
    }

    /// Asks for the energy usage of the socket `socket_id` of a power strip.
    pub fn get_power_strip_energy_usage(&self, socket_id: &str) -> (r: Command)
        ensures
            r@ == socket_command(socket_id@, SYSTEM_SERVICE@, "get_energy_usage"@, Seq::empty()),
    {
        let r = Command::new(SYSTEM_SERVICE, "get_energy_usage", Vec::new()).for_socket(socket_id);
        proof {
            assert(r@.args =~= Seq::empty());
        }
        r
    }

    /// Asks for the emeter readings of the socket `socket_id` of a power strip.
    pub fn get_power_strip_emeter_data(&self, socket_id: &str) -> (r: Command)
        ensures
            r@ == socket_command(socket_id@, SYSTEM_SERVICE@, "get_emeter_data"@, Seq::empty()),
    {
        let r = Command::new(SYSTEM_SERVICE, "get_emeter_data", Vec::new()).for_socket(socket_id);
        proof {
            assert(r@.args =~= Seq::empty());
        }
        r
    }

    /// Reads the response that one read of `bytes_read` bytes left in `buf`:
    /// no bytes is no response; otherwise the framed message is decoded, cut
    /// to the length of its header, and parsed as JSON.
    pub fn read_response(&self, buf: &[u8], bytes_read: usize) -> (r: Result<
        serde_json::Value,
        TpLinkError,
    >)
        requires
            buf@.len() >= 4,
        ensures
            bytes_read == 0 ==> r is Err && r->Err_0 is NoResponse,
            bytes_read > 0 ==> (r is Ok <==> is_json(decrypt_with_header_seq(buf@))),
            bytes_read > 0 && r is Err ==> r->Err_0 is Json,
    {
        if bytes_read == 0 {
            return Err(TpLinkError::NoResponse);
        }
        let msg = decrypt_with_header(buf);
        match parse_json(msg.as_slice()) {
            Ok(v) => Ok(v),
            Err(e) => Err(TpLinkError::Json(e)),
        }
    }
}

impl Default for TpLinkClient {
    fn default() -> (r: TpLinkClient) {
        TpLinkClient::new()
    }
}

/// The relay command of the system service.
fn relay_state(on: bool) -> (r: Command)
    ensures
        r@ == relay_command(on),
{
    let state: u64 = if on { 1 } else { 0 };
    let mut args = Vec::new();
    args.push(arg("state", Arg::Number(state)));
    let r = Command::new(SYSTEM_SERVICE, "set_relay_state", args);
    proof {
        assert(r@.args =~= seq![("state"@, ArgValue::Number(switch_value(on)))]);
    }
    r
}

/// The error of a brightness out of range.
fn brightness_error() -> (r: TpLinkError)
    ensures
        is_brightness_error(r),
{
    let message = "Brightness must be between 0 and 100".to_owned();
    TpLinkError::DeviceCommunication { message }
}

} // verus!
