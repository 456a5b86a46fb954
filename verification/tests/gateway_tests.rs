use disrust::gateway::{
    gateway_step, gateway_url, heartbeat_interval, heartbeat_payload, identify_payload,
    message_created, ready_event, GatewayKind, GatewayResponse,
};
use disrust::data::Guild;
use disrust::json::{parse_json, JsonValue};

fn s(text: &str) -> JsonValue {
    JsonValue::Str(text.to_string())
}

fn n(value: i64) -> JsonValue {
    JsonValue::Number(Some(value))
}

fn obj(members: Vec<(&str, JsonValue)>) -> JsonValue {
    JsonValue::Object(members.into_iter().map(|(k, v)| (k.to_string(), v)).collect())
}

fn dispatch(name: &str, d: JsonValue) -> JsonValue {
    obj(vec![("op", n(0)), ("t", s(name)), ("s", n(3)), ("d", d)])
}

fn message_payload() -> JsonValue {
    obj(vec![
        ("channel_id", s("42")),
        ("content", s("hi there")),
        ("author", obj(vec![("id", s("7")), ("username", s("ferris"))])),
    ])
}

#[test]
fn identify_payload_carries_the_token() {
    let expected = "{\n        \"op\": 2,\n        \"d\": {\n            \"token\": \"abc\",\n            \"properties\": {\n                \"$os\": \"linux\",\n                \"$browser\": \"chrome\",\n                \"$device\": \"pc\"\n            }\n        }\n    }";
    assert_eq!(identify_payload("abc"), expected);
    assert!(identify_payload("").contains("\"token\": \"\","));
}

#[test]
fn heartbeat_payload_is_op_one() {
    assert_eq!(heartbeat_payload(), "{\n        \"op\": 1,\n        \"d\": \"null\"\n    }");
    let parsed: serde_json::Value = serde_json::from_str(&heartbeat_payload()).unwrap();
    assert_eq!(parsed["op"].as_i64(), Some(1));
}

#[test]
fn gateway_url_parses() {
    let url = gateway_url().unwrap();
    assert_eq!(url.as_str(), "wss://gateway.discord.gg/?v=9&encoding=json");
    assert_eq!(url.scheme(), "wss");
}

#[test]
fn heartbeat_interval_of_the_hello() {
    let hello = obj(vec![("op", n(10)), ("d", obj(vec![("heartbeat_interval", n(41250))]))]);
    assert_eq!(heartbeat_interval(&hello), Some(41250));
    assert_eq!(heartbeat_interval(&obj(vec![("op", n(10))])), None);
    let float = obj(vec![("d", obj(vec![("heartbeat_interval", JsonValue::Number(None))]))]);
    assert_eq!(heartbeat_interval(&float), None);
}

#[test]
fn ready_event_lists_the_guilds() {
    let ready = dispatch(
        "READY",
        obj(vec![(
            "guilds",
            JsonValue::Array(vec![
                obj(vec![("id", s("1")), ("name", s("one"))]),
                obj(vec![("id", s("2")), ("name", s("two"))]),
            ]),
        )]),
    );
    let response = ready_event(&ready);
    assert_eq!(response.kind, GatewayKind::Ready);
    assert!(response.msg.is_none());
    let names: Vec<&str> = response.guilds.iter().map(|g| g.name.as_str()).collect();
    assert_eq!(names, vec!["one", "two"]);
    assert!(ready_event(&obj(vec![])).guilds.is_empty());
}

#[test]
fn message_created_carries_the_message() {
    let response = message_created(&dispatch("MESSAGE_CREATE", message_payload()));
    assert_eq!(response.kind, GatewayKind::MessageCreate);
    assert!(response.guilds.is_empty());
    let msg = response.msg.unwrap();
    assert_eq!(msg.content, "hi there");
    assert_eq!(msg.user.name, "ferris");
    assert_eq!(msg.channel_id, "42");
}

#[test]
fn step_forwards_created_messages() {
    let event = dispatch("MESSAGE_CREATE", message_payload());
    let actions = gateway_step(Some(&event), 41250, 10);
    assert!(!actions.disconnected);
    assert!(!actions.heartbeat_requested);
    assert!(!actions.heartbeat_due);
    let forwarded = actions.forward.unwrap();
    assert_eq!(forwarded.msg.unwrap().content, "hi there");
}

#[test]
fn step_ignores_other_dispatches() {
    for name in ["TYPING_START", "GUILD_CREATE", "MESSAGE_REACTION_ADD", "message_create"] {
        let actions = gateway_step(Some(&dispatch(name, obj(vec![]))), 41250, 10);
        assert!(actions.forward.is_none());
        assert!(!actions.heartbeat_requested);
    }
}

#[test]
fn step_answers_a_heartbeat_request() {
    let event = obj(vec![("op", n(1)), ("d", JsonValue::Null)]);
    let actions = gateway_step(Some(&event), 41250, 10);
    assert!(actions.heartbeat_requested);
    assert!(actions.forward.is_none());
    assert!(!actions.heartbeat_due);
}

#[test]
fn step_sends_a_heartbeat_when_the_interval_runs_out() {
    let ack = obj(vec![("op", n(11))]);
    assert!(!gateway_step(Some(&ack), 41250, 41249).heartbeat_due);
    assert!(gateway_step(Some(&ack), 41250, 41250).heartbeat_due);
    assert!(gateway_step(Some(&ack), 41250, 90000).heartbeat_due);
}

#[test]
fn step_reports_an_unreadable_event() {
    let actions = gateway_step(None, 41250, 90000);
    assert!(actions.disconnected);
    assert!(!actions.heartbeat_due);
    assert!(!actions.heartbeat_requested);
    assert!(actions.forward.is_none());
}

#[test]
fn responses_are_built_from_parts() {
    let ready = GatewayResponse::ready(vec![Guild {
        id: "1".to_string(),
        name: "one".to_string(),
        channels: Vec::new(),
    }]);
    assert_eq!(ready.kind, GatewayKind::Ready);
    assert_eq!(ready.guilds.len(), 1);
}

#[test]
fn parse_json_reads_values() {
    let v = parse_json(r#"{"op": 0, "t": "MESSAGE_CREATE", "d": {"content": "hey", "n": [1, 2.5, null, true]}}"#).unwrap();
    match v.get("op") {
        Some(JsonValue::Number(Some(0))) => {}
        _ => panic!("op 0 expected"),
    }
    let d = v.get("d").unwrap();
    match d.get("content") {
        Some(JsonValue::Str(text)) => assert_eq!(text, "hey"),
        _ => panic!("content expected"),
    }
    let n = d.get("n").unwrap();
    assert_eq!(n.array_len(), Some(4));
    assert!(matches!(n.at(1), Some(JsonValue::Number(None))));
    assert!(matches!(n.at(2), Some(JsonValue::Null)));
    assert!(matches!(n.at(3), Some(JsonValue::Bool(true))));
    assert!(parse_json("not json").is_none());
    assert!(parse_json("").is_none());
}

#[test]
fn gateway_url_is_the_parsed_address() {
    let expected = url::Url::parse("wss://gateway.discord.gg/?v=9&encoding=json").unwrap();
    assert_eq!(gateway_url().unwrap(), expected);
    assert_eq!(gateway_url().unwrap().host_str(), Some("gateway.discord.gg"));
}

#[test]
fn parsed_events_drive_the_step() {
    let texts = [
        r#"{"op": 11}"#,
        r#"{"op": 0, "t": "MESSAGE_CREATE", "d": {"content": "one", "channel_id": "1", "author": {"username": "a"}}}"#,
        r#"{"op": 1, "d": null}"#,
        r#"{"op": 0, "t": "TYPING_START", "d": {}}"#,
        r#"{"op": 0, "t": "MESSAGE_CREATE", "d": {"content": "two", "channel_id": "1", "author": {"username": "b"}}}"#,
    ];
    let mut forwarded = Vec::new();
    let mut heartbeats = 0;
    for text in texts {
        let event = parse_json(text).unwrap();
        let actions = gateway_step(Some(&event), 41250, 0);
        if actions.heartbeat_requested {
            heartbeats += 1;
        }
        if let Some(response) = actions.forward {
            forwarded.push(response.msg.unwrap().content);
        }
    }
    assert_eq!(forwarded, vec!["one", "two"]);
    assert_eq!(heartbeats, 1);
}
