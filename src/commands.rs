//! The command dialect: a request names a service, a method of it and the
//! method's arguments, and may address child sockets of a power strip.
use vstd::prelude::*;

verus! {

/// Service of relay, alias, reboot and energy methods.
pub const SYSTEM_SERVICE: &'static str = "system";

/// Service of dimmer methods.
pub const DIMMER_SERVICE: &'static str = "smartlife.iot.dimmer";

/// Service of smart light methods.
pub const LIGHT_SERVICE: &'static str = "smartlife.iot.smartbulb.lightingservice";

/// The value of one argument.
#[derive(Debug, PartialEq, Eq)]
pub enum Arg {
    Number(u64),
    Text(String),
}

/// What an argument value stands for.
pub enum ArgValue {
    Number(u64),
    Text(Seq<char>),
}

impl View for Arg {
    type V = ArgValue;

    open spec fn view(&self) -> ArgValue {
        match self {
            Arg::Number(n) => ArgValue::Number(*n),
            Arg::Text(s) => ArgValue::Text(s@),
        }
    }
}

/// One request: `{"context": {"child_ids": [..]}, service: {method: {args..}}}`,
/// where the context is there only when `child_ids` is.
#[derive(Debug, PartialEq, Eq)]
pub struct Command {
    pub child_ids: Option<Vec<String>>,
    pub service: String,
    pub method: String,
    pub args: Vec<(String, Arg)>,
}

/// What a command stands for.
pub struct CommandView {
    pub child_ids: Option<Seq<Seq<char>>>,
    pub service: Seq<char>,
    pub method: Seq<char>,
    pub args: Seq<(Seq<char>, ArgValue)>,
}

impl View for Command {
    type V = CommandView;

    open spec fn view(&self) -> CommandView {
        CommandView {
            child_ids: match self.child_ids {
                Some(ids) => Some(ids@.map_values(|s: String| s@)),
                None => None,
            },
            service: self.service@,
            method: self.method@,
            args: self.args@.map_values(|a: (String, Arg)| (a.0@, a.1@)),
        }
    }
}

/// A command to the device itself, not to a child socket.
pub open spec fn device_command(
    service: Seq<char>,
    method: Seq<char>,
    args: Seq<(Seq<char>, ArgValue)>,
) -> CommandView {
    CommandView { child_ids: None, service, method, args }
}

/// A command to the child socket `socket_id` of a power strip.
pub open spec fn socket_command(
    socket_id: Seq<char>,
    service: Seq<char>,
    method: Seq<char>,
    args: Seq<(Seq<char>, ArgValue)>,
) -> CommandView {
    CommandView { child_ids: Some(seq![socket_id]), service, method, args }
}

/// 1 for on, 0 for off, as the protocol writes a switch state.
pub open spec fn switch_value(on: bool) -> u64 {
    if on {
        1
    } else {
        0
    }
}

/// An argument named `name`.
pub fn arg(name: &str, value: Arg) -> (r: (String, Arg))
    ensures
        r.0@ == name@,
        r.1 == value,
{
    (name.to_owned(), value)
}

impl Command {
    /// A command of `method` of `service` to the device itself.
    pub fn new(service: &str, method: &str, args: Vec<(String, Arg)>) -> (r: Command)
        ensures
            r.child_ids is None,
            r.service@ == service@,
            r.method@ == method@,
            r.args == args,
            r@ == device_command(service@, method@, args@.map_values(|a: (String, Arg)| (a.0@, a.1@))),
    {
        Command { child_ids: None, service: service.to_owned(), method: method.to_owned(), args }
    }

    /// The same command, addressed to the child socket `socket_id`.
    pub fn for_socket(self, socket_id: &str) -> (r: Command)
        ensures
            r@ == socket_command(socket_id@, self@.service, self@.method, self@.args),
    {
        let mut ids: Vec<String> = Vec::new();
        ids.push(socket_id.to_owned());
        let r = Command { child_ids: Some(ids), service: self.service, method: self.method, args: self.args };
        proof {
            assert(r@.child_ids->Some_0 =~= seq![socket_id@]);
        }
        r
    }
}

} // verus!
