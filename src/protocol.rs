//! The JSON text of the protocol: commands, events, the handshake request,
//! and the reading of inbound event frames.

use vstd::prelude::*;
use vstd::string::*;
use vstd::utf8::*;
use crate::activity::{activity_json, opt_member, Activity};
use crate::codec::{Message, OpCode};
use crate::json::{
    decimal, decimal_text, json_quoted, json_valid, member, null_text, object, quote, ObjectWriter,
};

verus! {

broadcast use {encode_utf8_decode_utf8, encode_utf8_valid_utf8};

/// The protocol version sent in the handshake.
pub const PROTOCOL_VERSION: u64 = 1;

/// How many local endpoints are tried, with suffixes `0` up to this count
/// minus one, in ascending order.
pub const ENDPOINT_COUNT: u64 = 10;

/// The name of the local endpoint with the given suffix.
pub open spec fn endpoint_name_of(suffix: nat) -> Seq<char> {
    "discord-ipc-"@ + decimal(suffix)
}

/// The name of the local endpoint with the given suffix.
pub fn endpoint_name(suffix: u64) -> (r: String)
    ensures
        r@ == endpoint_name_of(suffix as nat),
{
    let mut r = String::from_str("discord-ipc-");
    let d = decimal_text(suffix);
    r.append(d.as_str());
    r
}

/// The JSON text of member `key` of the top-level object in `text`, as
/// `serde_json` writes that value back out.
pub uninterp spec fn json_member(text: Seq<char>, key: Seq<char>) -> Option<Seq<char>>;

/// Relies on `serde_json::from_str` into a `serde_json::Value`, then
/// `Value::get` and `Value::to_string`: the text of one member of an object.
#[verifier::external_body]
fn member_text(text: &str, key: &str) -> (r: Option<String>)
    ensures
        r is Some <==> json_member(text@, key@) is Some,
        r is Some ==> json_member(text@, key@)->Some_0 == r->Some_0@,
        !json_valid(text@) ==> r is None,
{
    let v = serde_json::from_str::<serde_json::Value>(text).ok()?;
    v.get(key).map(|m| m.to_string())
}

/// Whether two texts hold the same characters.
pub fn text_eq(a: &str, b: &str) -> (r: bool)
    ensures
        r == (a@ == b@),
{
    let x = a.as_bytes();
    let y = b.as_bytes();
    if x.len() != y.len() {
        return false;
    }
    let mut i: usize = 0;
    while i < x.len()
        invariant
            x@ == encode_utf8(a@),
            y@ == encode_utf8(b@),
            x@.len() == y@.len(),
            0 <= i <= x@.len(),
            forall|k: int| 0 <= k < i ==> x@[k] == y@[k],
        decreases x@.len() - i,
    {
        if x[i] != y[i] {
            proof {
                if a@ == b@ {
                    assert(x@ == y@);
                }
            }
            return false;
        }
        i = i + 1;
    }
    proof {
        assert(x@ =~= y@);
        assert(decode_utf8(encode_utf8(a@)) == a@);
        assert(decode_utf8(encode_utf8(b@)) == b@);
    }
    true
}

/// What a frame asks the peer to do.
#[derive(Clone, Copy, Debug, PartialEq, Eq, Hash, Structural)]
pub enum Command {
    Dispatch,
    SetActivity,
    Subscribe,
    Unsubscribe,
}

/// What the peer reports.
#[derive(Clone, Copy, Debug, PartialEq, Eq, Hash, Structural)]
pub enum Event {
    Ready,
    Error,
    ActivityJoin,
    ActivityJoinRequest,
    ActivitySpectate,
}

pub open spec fn command_name(c: Command) -> Seq<char> {
    match c {
        Command::Dispatch => "DISPATCH"@,
        Command::SetActivity => "SET_ACTIVITY"@,
        Command::Subscribe => "SUBSCRIBE"@,
        Command::Unsubscribe => "UNSUBSCRIBE"@,
    }
}

pub open spec fn event_name(e: Event) -> Seq<char> {
    match e {
        Event::Ready => "READY"@,
        Event::Error => "ERROR"@,
        Event::ActivityJoin => "ACTIVITY_JOIN"@,
        Event::ActivityJoinRequest => "ACTIVITY_JOIN_REQUEST"@,
        Event::ActivitySpectate => "ACTIVITY_SPECTATE"@,
    }
}

/// The event whose quoted name is `t`, if any.
pub open spec fn event_of_quoted(t: Seq<char>) -> Option<Event> {
    if t == json_quoted(event_name(Event::Ready)) {
        Some(Event::Ready)
    } else if t == json_quoted(event_name(Event::Error)) {
        Some(Event::Error)
    } else if t == json_quoted(event_name(Event::ActivityJoin)) {
        Some(Event::ActivityJoin)
    } else if t == json_quoted(event_name(Event::ActivityJoinRequest)) {
        Some(Event::ActivityJoinRequest)
    } else if t == json_quoted(event_name(Event::ActivitySpectate)) {
        Some(Event::ActivitySpectate)
    } else {
        None
    }
}

impl Command {
    /// The wire name of the command.
    pub fn name(self) -> (r: &'static str)
        ensures
            r@ == command_name(self),
    {
        match self {
            Command::Dispatch => "DISPATCH",
            Command::SetActivity => "SET_ACTIVITY",
            Command::Subscribe => "SUBSCRIBE",
            Command::Unsubscribe => "UNSUBSCRIBE",
        }
    }
}

impl Event {
    /// The wire name of the event.
    pub fn name(self) -> (r: &'static str)
        ensures
            r@ == event_name(self),
    {
        match self {
            Event::Ready => "READY",
            Event::Error => "ERROR",
            Event::ActivityJoin => "ACTIVITY_JOIN",
            Event::ActivityJoinRequest => "ACTIVITY_JOIN_REQUEST",
            Event::ActivitySpectate => "ACTIVITY_SPECTATE",
        }
    }

    /// The event whose name, written as a JSON string, is `t`.
    pub fn from_quoted(t: &str) -> (r: Option<Event>)
        ensures
            r == event_of_quoted(t@),
    {
        if text_eq(t, quote(Event::Ready.name()).as_str()) {
            Some(Event::Ready)
        } else if text_eq(t, quote(Event::Error.name()).as_str()) {
            Some(Event::Error)
        } else if text_eq(t, quote(Event::ActivityJoin.name()).as_str()) {
            Some(Event::ActivityJoin)
        } else if text_eq(t, quote(Event::ActivityJoinRequest.name()).as_str()) {
            Some(Event::ActivityJoinRequest)
        } else if text_eq(t, quote(Event::ActivitySpectate.name()).as_str()) {
            Some(Event::ActivitySpectate)
        } else {
            None
        }
    }
}

/// An event as the peer reported it: which one, and the JSON text of its data.
#[derive(Clone, Debug, PartialEq, Eq)]
pub struct EventContext {
    pub event: Event,
    pub data: String,
}

/// `Some(text)` or the JSON word `null`.
pub open spec fn or_null(v: Option<Seq<char>>) -> Seq<char> {
    match v {
        Some(t) => t,
        None => null_text(),
    }
}

/// The JSON text of a command frame's payload.
pub open spec fn command_json(
    cmd: Command,
    args: Option<Seq<char>>,
    nonce: Seq<char>,
    evt: Option<Event>,
) -> Seq<char> {
    object(
        seq![
            member("cmd"@, json_quoted(command_name(cmd))),
            member("args"@, or_null(args)),
            member("nonce"@, json_quoted(nonce)),
            member(
                "evt"@,
                match evt {
                    Some(e) => json_quoted(event_name(e)),
                    None => null_text(),
                },
            ),
        ],
    )
}

/// The JSON text of the arguments of `SET_ACTIVITY`; no activity clears it.
pub open spec fn set_activity_args_json(pid: u32, activity: Option<Activity>) -> Seq<char> {
    object(
        seq![member("pid"@, decimal(pid as nat))] + opt_member(
            "activity"@,
            match activity {
                Some(a) => Some(activity_json(a)),
                None => None,
            },
        ),
    )
}

/// The JSON text of the handshake request.
pub open spec fn handshake_json(client_id: u64) -> Seq<char> {
    object(
        seq![
            member("v"@, decimal(PROTOCOL_VERSION as nat)),
            member("client_id"@, json_quoted(decimal(client_id as nat))),
        ],
    )
}

fn null_str() -> (r: &'static str)
    ensures
        r@ == null_text(),
{
    proof {
        reveal_strlit("null");
    }
    "null"
}

/// The payload of a command frame.
pub fn command_text(cmd: Command, args: Option<String>, nonce: &str, evt: Option<Event>) -> (r: String)
    ensures
        r@ == command_json(
            cmd,
            match args {
                Some(a) => Some(a@),
                None => None,
            },
            nonce@,
            evt,
        ),
{
    let mut w = ObjectWriter::new_object();
    let c = quote(cmd.name());
    w.member("cmd", c.as_str());
    match &args {
        Some(a) => w.member("args", a.as_str()),
        None => w.member("args", null_str()),
    }
    let n = quote(nonce);
    w.member("nonce", n.as_str());
    match evt {
        Some(e) => {
            let q = quote(e.name());
            w.member("evt", q.as_str());
        },
        None => w.member("evt", null_str()),
    }
    let ghost a = match args {
        Some(a) => Some(a@),
        None => None,
    };
    assert(w.members() =~= seq![
        member("cmd"@, json_quoted(command_name(cmd))),
        member("args"@, or_null(a)),
        member("nonce"@, json_quoted(nonce@)),
        member(
            "evt"@,
            match evt {
                Some(e) => json_quoted(event_name(e)),
                None => null_text(),
            },
        ),
    ]);
    w.finish_object()
}

/// The arguments of `SET_ACTIVITY` for process `pid`.
pub fn set_activity_args(pid: u32, activity: Option<Activity>) -> (r: String)
    ensures
        r@ == set_activity_args_json(pid, activity),
{
    let mut w = ObjectWriter::new_object();
    let p = decimal_text(pid as u64);
    w.member("pid", p.as_str());
    match &activity {
        Some(a) => {
            let t = a.to_json();
            w.member("activity", t.as_str());
        },
        None => {},
    }
    let ghost t = match activity {
        Some(a) => Some(activity_json(a)),
        None => None,
    };
    assert(w.members() =~= seq![member("pid"@, decimal(pid as nat))] + opt_member("activity"@, t));
    w.finish_object()
}

/// The handshake request that announces `client_id`.
pub fn handshake_message(client_id: u64) -> (r: Message)
    ensures
        r.opcode == OpCode::Handshake,
        r.payload@ == handshake_json(client_id),
{
    let mut w = ObjectWriter::new_object();
    let v = decimal_text(PROTOCOL_VERSION);
    w.member("v", v.as_str());
    let id = decimal_text(client_id);
    let q = quote(id.as_str());
    w.member("client_id", q.as_str());
    assert(w.members() =~= seq![
        member("v"@, decimal(PROTOCOL_VERSION as nat)),
        member("client_id"@, json_quoted(decimal(client_id as nat))),
    ]);
    Message::new(OpCode::Handshake, w.finish_object())
}

/// The event that an inbound payload reports, with its data (`null` when
/// absent); none when it is not JSON or names no known event.
pub open spec fn inbound_event(text: Seq<char>) -> Option<(Event, Seq<char>)> {
    if !json_valid(text) {
        None
    } else {
        match json_member(text, "evt"@) {
        Some(t) => match event_of_quoted(t) {
            Some(e) => Some((e, or_null(json_member(text, "data"@)))),
            None => None,
        },
        None => None,
        }
    }
}

/// Reads the event that an inbound payload reports.
pub fn parse_event(payload: &str) -> (r: Option<EventContext>)
    ensures
        match inbound_event(payload@) {
            Some((e, d)) => r is Some && r->Some_0.event == e && r->Some_0.data@ == d,
            None => r is None,
        },
        !json_valid(payload@) ==> r is None,
{
    let t = match member_text(payload, "evt") {
        Some(t) => t,
        None => return None,
    };
    let e = match Event::from_quoted(t.as_str()) {
        Some(e) => e,
        None => return None,
    };
    let data = match member_text(payload, "data") {
        Some(d) => d,
        None => String::from_str(null_str()),
    };
    Some(EventContext { event: e, data })
}

/// What the handshake response yields: the `Ready` event with the response's
/// data, when the response is a `Frame` whose payload is JSON with a `data`
/// member.
pub open spec fn handshake_ready(opcode: OpCode, payload: Seq<char>) -> Option<Seq<char>> {
    if opcode == OpCode::Frame && json_valid(payload) {
        json_member(payload, "data"@)
    } else {
        None
    }
}

/// Reads the handshake response into the `Ready` event it announces.
pub fn parse_handshake_response(response: &Message) -> (r: Option<EventContext>)
    ensures
        match handshake_ready(response.opcode, response.payload@) {
            Some(d) => r is Some && r->Some_0.event == Event::Ready && r->Some_0.data@ == d,
            None => r is None,
        },
        !json_valid(response.payload@) ==> r is None,
{
    if response.opcode != OpCode::Frame {
        return None;
    }
    match member_text(response.payload.as_str(), "data") {
        Some(d) => Some(EventContext { event: Event::Ready, data: d }),
        None => None,
    }
}

} // verus!
