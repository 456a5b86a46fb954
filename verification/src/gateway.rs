//! The client's side of Discord's gateway: the payloads it sends, and what it
//! does with each event it receives.
//!
//! Op codes: 0 is a dispatched event (named by its member `t`), 1 asks for a
//! heartbeat, 2 identifies the client, 10 is the hello that carries the
//! heartbeat interval, 11 acknowledges a heartbeat.
use vstd::prelude::*;
use vstd::string::*;
use crate::json::{JsonValue, str_eq};
use crate::data::{
    Guild,
    Msg,
    MsgView,
    guild_views,
    spec_member,
    spec_guild,
    spec_msg,
    spec_elements,
    member,
};

verus! {

/// `url::Url`, carried through as it is.
#[verifier::external_type_specification]
#[verifier::external_body]
pub struct ExUrl(url::Url);

/// `url::ParseError`, carried through as it is.
#[verifier::external_type_specification]
#[verifier::external_body]
pub struct ExParseError(url::ParseError);

/// What `url::Url::parse` makes of `input`: the URL, or the error.
pub uninterp spec fn url_parse(input: Seq<char>) -> Result<url::Url, url::ParseError>;

/// `url::Url::parse`: its result, the URL or the error, depends on `input`
/// alone; the URL's parts are not spelled out here.
#[verifier::external_body]
fn parse_url(input: &str) -> (r: Result<url::Url, url::ParseError>)
    ensures
        r == url_parse(input@),
{
    url::Url::parse(input)
}

/// The address of Discord's gateway, version 9, with JSON encoding.
pub open spec fn spec_gateway_address() -> Seq<char> {
    "wss://gateway.discord.gg/?v=9&encoding=json"@
}

/// The gateway's address, parsed as a URL.
pub fn gateway_url() -> (r: Result<url::Url, url::ParseError>)
    ensures
        r == url_parse(spec_gateway_address()),
{
    parse_url("wss://gateway.discord.gg/?v=9&encoding=json")
}

/// What a gateway event brought to the interface.
#[derive(PartialEq, Eq, Structural, Clone, Copy, Debug)]
pub enum GatewayKind {
    Ready,
    MessageCreate,
}

/// A gateway event as the interface takes it in: the guilds of a `READY`
/// event, or the message of a `MESSAGE_CREATE` event.
#[derive(Debug)]
pub struct GatewayResponse {
    pub kind: GatewayKind,
    pub guilds: Vec<Guild>,
    pub msg: Option<Msg>,
}

impl GatewayResponse {
    /// The response to a `READY` event that lists `guilds`.
    pub fn ready(guilds: Vec<Guild>) -> (r: GatewayResponse)
        ensures
            r.kind == GatewayKind::Ready,
            r.guilds@ == guilds@,
            r.msg is None,
    {
        GatewayResponse { kind: GatewayKind::Ready, guilds, msg: None }
    }

    /// The response to a `MESSAGE_CREATE` event that carries `msg`.
    pub fn msg_create(msg: Msg) -> (r: GatewayResponse)
        ensures
            r.kind == GatewayKind::MessageCreate,
            r.guilds@.len() == 0,
            r.msg == Some(msg),
    {
        GatewayResponse { kind: GatewayKind::MessageCreate, guilds: Vec::new(), msg: Some(msg) }
    }
}

/// The `i64` value of a number; nothing for any other value (`as_i64`).
pub open spec fn spec_as_i64(v: JsonValue) -> Option<i64> {
    match v {
        JsonValue::Number(n) => n,
        _ => None,
    }
}

/// The text of a string; nothing for any other value (`as_str`).
pub open spec fn spec_as_str(v: JsonValue) -> Option<Seq<char>> {
    match v {
        JsonValue::Str(s) => Some(s@),
        _ => None,
    }
}

/// The heartbeat interval, in milliseconds, that the hello event announces:
/// its member `d.heartbeat_interval`.
pub fn heartbeat_interval(hello: &JsonValue) -> (r: Option<i64>)
    ensures
        r == spec_as_i64(spec_member(spec_member(*hello, "d"@), "heartbeat_interval"@)),
{
    match member(hello, "d") {
        Some(d) => match member(d, "heartbeat_interval") {
            Some(JsonValue::Number(n)) => *n,
            _ => None,
        },
        None => None,
    }
}

/// The text of the heartbeat payload (op code 1).
pub open spec fn spec_heartbeat_payload() -> Seq<char> {
    "{\n        \"op\": 1,\n        \"d\": \"null\"\n    }"@
}

/// The text before the token in the identify payload (op code 2).
pub open spec fn identify_prefix() -> Seq<char> {
    "{\n        \"op\": 2,\n        \"d\": {\n            \"token\": \""@
}

/// The text after the token in the identify payload.
pub open spec fn identify_suffix() -> Seq<char> {
    "\",\n            \"properties\": {\n                \"$os\": \"linux\",\n                \"$browser\": \"chrome\",\n                \"$device\": \"pc\"\n            }\n        }\n    }"@
}

/// The heartbeat payload.
pub fn heartbeat_payload() -> (r: String)
    ensures
        r@ == spec_heartbeat_payload(),
{
    String::from_str("{\n        \"op\": 1,\n        \"d\": \"null\"\n    }")
}

/// The identify payload that presents `token`, written into the payload as
/// it is.
pub fn identify_payload(token: &str) -> (r: String)
    ensures
        r@ == identify_prefix() + token@ + identify_suffix(),
{
    let mut r = String::from_str("{\n        \"op\": 2,\n        \"d\": {\n            \"token\": \"");
    r.append(token);
    r.append(
        "\",\n            \"properties\": {\n                \"$os\": \"linux\",\n                \"$browser\": \"chrome\",\n                \"$device\": \"pc\"\n            }\n        }\n    }",
    );
    r
}

/// The response to a `READY` event: the guilds listed in its payload `d`.
pub fn ready_event(event: &JsonValue) -> (r: GatewayResponse)
    ensures
        r.kind == GatewayKind::Ready,
        r.msg is None,
        guild_views(r.guilds@) == spec_elements(
            spec_member(spec_member(*event, "d"@), "guilds"@),
        ).map_values(|g: JsonValue| spec_guild(g)),
{
    let guilds = match member(event, "d") {
        Some(d) => Guild::from_list(d),
        None => Guild::from_list(&JsonValue::Null),
    };
    GatewayResponse::ready(guilds)
}

/// The response to a `MESSAGE_CREATE` event: the message of its payload `d`.
pub fn message_created(event: &JsonValue) -> (r: GatewayResponse)
    ensures
        r.kind == GatewayKind::MessageCreate,
        r.guilds@.len() == 0,
        r.msg matches Some(m) && m@ == spec_msg(spec_member(*event, "d"@)),
{
    let msg = match member(event, "d") {
        Some(d) => Msg::from(d),
        None => Msg::from(&JsonValue::Null),
    };
    GatewayResponse::msg_create(msg)
}

/// What the client does after reading from the gateway.
#[derive(Debug)]
pub struct GatewayActions {
    /// Nothing could be read: report the disconnection and read again.
    pub disconnected: bool,
    /// The gateway asked for a heartbeat: send one now.
    pub heartbeat_requested: bool,
    /// Hand this to the interface.
    pub forward: Option<GatewayResponse>,
    /// The heartbeat interval has run out: send a heartbeat and restart the
    /// timer.
    pub heartbeat_due: bool,
}

/// An event can be taken in: it has an `i64` op code, and a dispatched
/// event (op code 0) names itself by a string `t`.
pub open spec fn well_formed_event(event: JsonValue) -> bool {
    &&& spec_as_i64(spec_member(event, "op"@)) is Some
    &&& spec_as_i64(spec_member(event, "op"@)) == Some(0i64) ==> spec_as_str(
        spec_member(event, "t"@),
    ) is Some
}

/// The event is a dispatched `MESSAGE_CREATE`.
pub open spec fn is_message_create(event: JsonValue) -> bool {
    spec_as_i64(spec_member(event, "op"@)) == Some(0i64) && spec_as_str(spec_member(event, "t"@))
        == Some("MESSAGE_CREATE"@)
}

/// The message that the interface is handed for `event`: that of a
/// dispatched `MESSAGE_CREATE`, and none for any other event.
pub open spec fn spec_forwarded_msg(event: JsonValue) -> Option<MsgView> {
    if is_message_create(event) {
        Some(spec_msg(spec_member(event, "d"@)))
    } else {
        None
    }
}

/// Only a dispatch (op code 0) named `MESSAGE_CREATE` reaches the interface,
/// with the message of its payload `d`; an event of any other name or op
/// code (an edit, `MESSAGE_UPDATE`, among them) hands it nothing.
pub proof fn lemma_only_created_messages_are_forwarded(event: JsonValue)
    ensures
        spec_as_str(spec_member(event, "t"@)) != Some("MESSAGE_CREATE"@) ==> spec_forwarded_msg(
            event,
        ) is None,
        spec_as_i64(spec_member(event, "op"@)) != Some(0i64) ==> spec_forwarded_msg(event) is None,
        spec_as_i64(spec_member(event, "op"@)) == Some(0i64) && spec_as_str(spec_member(event, "t"@))
            == Some("MESSAGE_CREATE"@) ==> spec_forwarded_msg(event) == Some(
            spec_msg(spec_member(event, "d"@)),
        ),
{
}

/// The messages handed to the interface over a run of events, taking the
/// events one at a time in the order they arrive.
pub open spec fn forwarded_run(events: Seq<JsonValue>) -> Seq<MsgView>
    decreases events.len(),
{
    if events.len() == 0 {
        seq![]
    } else {
        let before = forwarded_run(events.drop_last());
        match spec_forwarded_msg(events.last()) {
            Some(m) => before.push(m),
            None => before,
        }
    }
}

/// Over a run of events, the interface is handed the message of each
/// `MESSAGE_CREATE` event, in arrival order, and nothing for any other event.
pub proof fn lemma_forwarded_in_arrival_order(events: Seq<JsonValue>)
    ensures
        forwarded_run(events) == events.filter(|e: JsonValue| is_message_create(e)).map_values(
            |e: JsonValue| spec_msg(spec_member(e, "d"@)),
        ),
    decreases events.len(),
{
    reveal_with_fuel(Seq::filter, 1);
    if events.len() > 0 {
        lemma_forwarded_in_arrival_order(events.drop_last());
        let kept = events.drop_last().filter(|e: JsonValue| is_message_create(e));
        if is_message_create(events.last()) {
            assert(kept.push(events.last()).map_values(
                |e: JsonValue| spec_msg(spec_member(e, "d"@)),
            ) =~= kept.map_values(|e: JsonValue| spec_msg(spec_member(e, "d"@))).push(
                spec_msg(spec_member(events.last(), "d"@)),
            ));
        }
    } else {
        assert(events.filter(|e: JsonValue| is_message_create(e)).len() == 0);
        assert(forwarded_run(events) =~= events.filter(|e: JsonValue| is_message_create(e)).map_values(
            |e: JsonValue| spec_msg(spec_member(e, "d"@)),
        ));
    }
}

/// Decides what to do with what was read from the gateway: `event` is the
/// event, or nothing where it could not be read as JSON; `elapsed_ms` is the
/// time since the last heartbeat and `interval_ms` the heartbeat interval.
pub fn gateway_step(event: Option<&JsonValue>, interval_ms: i64, elapsed_ms: i64) -> (r:
    GatewayActions)
    requires
        event matches Some(e) ==> well_formed_event(*e),
    ensures
        match event {
            None => r.disconnected && !r.heartbeat_requested && r.forward is None
                && !r.heartbeat_due,
            Some(e) => {
                &&& !r.disconnected
                &&& spec_as_str(spec_member(*e, "t"@)) != Some("MESSAGE_CREATE"@) ==> r.forward is None
                &&& spec_as_i64(spec_member(*e, "op"@)) != Some(0i64) ==> r.forward is None
                &&& r.heartbeat_requested == (spec_as_i64(spec_member(*e, "op"@)) == Some(1i64))
                &&& r.heartbeat_due == (interval_ms <= elapsed_ms)
                &&& is_message_create(*e) ==> (r.forward matches Some(f) && f.kind
                    == GatewayKind::MessageCreate && f.guilds@.len() == 0 && (f.msg matches Some(m) && m@ == spec_msg(
                    spec_member(*e, "d"@),
                )))
                &&& !is_message_create(*e) ==> r.forward is None
                &&& match r.forward {
                    Some(f) => f.msg matches Some(m) && spec_forwarded_msg(*e) == Some(m@),
                    None => spec_forwarded_msg(*e) is None,
                }
            },
        },
{
    match event {
        None => GatewayActions {
            disconnected: true,
            heartbeat_requested: false,
            forward: None,
            heartbeat_due: false,
        },
        Some(e) => {
            let op: i64 = match member(e, "op") {
                Some(JsonValue::Number(Some(n))) => *n,
                _ => -1,
            };
            let heartbeat_requested = op == 1;
            let mut forward: Option<GatewayResponse> = None;
            if op == 0 {
                match member(e, "t") {
                    Some(JsonValue::Str(name)) => {
                        if str_eq(name.as_str(), "MESSAGE_CREATE") {
                            forward = Some(message_created(e));
                        }
                    },
                    _ => {},
                }
            }
            GatewayActions {
                disconnected: false,
                heartbeat_requested,
                forward,
                heartbeat_due: interval_ms <= elapsed_ms,
            }
        },
    }
}

} // verus!
