use discord_presence::activity::{Activity, ActivityButton, Assets};
use discord_presence::codec::{Message, OpCode};
use discord_presence::json::decimal_text;
use discord_presence::protocol::{
    command_text, endpoint_name, handshake_message, parse_event, parse_handshake_response, set_activity_args,
    text_eq, Command, Event,
};

#[test]
fn decimal_numerals() {
    assert_eq!(decimal_text(0), "0");
    assert_eq!(decimal_text(123), "123");
    assert_eq!(decimal_text(u64::MAX), "18446744073709551615");
}

#[test]
fn handshake_payload() {
    let m = handshake_message(123);
    assert_eq!(m.opcode, OpCode::Handshake);
    assert_eq!(m.payload, "{\"v\":1,\"client_id\":\"123\"}");
}

#[test]
fn empty_activity_writes_no_fields() {
    assert_eq!(Activity::new().to_json(), "{}");
}

#[test]
fn activity_writes_present_fields_only() {
    let a = Activity::new()
        .state(Some("Playing \"x\"".to_string()))
        .timestamps(|t| t.start(Some(10)))
        .assets(|a| a.large_image(Some("logo".to_string())))
        .buttons(Some(vec![ActivityButton::new("Go".to_string(), "https://e.x".to_string())]));
    assert_eq!(
        a.to_json(),
        "{\"state\":\"Playing \\\"x\\\"\",\"timestamps\":{\"start\":10},\"assets\":{\"large_image\":\"logo\"},\"buttons\":[{\"label\":\"Go\",\"url\":\"https://e.x\"}]}"
    );
}

#[test]
fn assets_builder_keeps_other_fields() {
    let a = Assets::new().small_text(Some("s".to_string())).large_text(Some("l".to_string()));
    assert_eq!(a.to_json(), "{\"large_text\":\"l\",\"small_text\":\"s\"}");
}

#[test]
fn set_activity_arguments() {
    let a = Activity::new().details(Some("d".to_string()));
    assert_eq!(set_activity_args(42, Some(a)), "{\"pid\":42,\"activity\":{\"details\":\"d\"}}");
    assert_eq!(set_activity_args(7, None), "{\"pid\":7}");
}

#[test]
fn command_payload_layout() {
    let t = command_text(Command::SetActivity, Some("{}".to_string()), "n-1", None);
    assert_eq!(t, "{\"cmd\":\"SET_ACTIVITY\",\"args\":{},\"nonce\":\"n-1\",\"evt\":null}");
    let t = command_text(Command::Subscribe, None, "n", Some(Event::ActivityJoin));
    assert_eq!(t, "{\"cmd\":\"SUBSCRIBE\",\"args\":null,\"nonce\":\"n\",\"evt\":\"ACTIVITY_JOIN\"}");
}

#[test]
fn inbound_event_is_read() {
    let ctx = parse_event("{\"cmd\":\"DISPATCH\",\"evt\":\"ERROR\",\"data\":{\"code\":4000}}").unwrap();
    assert_eq!(ctx.event, Event::Error);
    assert_eq!(ctx.data, "{\"code\":4000}");
    let ctx = parse_event("{\"evt\":\"ACTIVITY_SPECTATE\"}").unwrap();
    assert_eq!(ctx.event, Event::ActivitySpectate);
    assert_eq!(ctx.data, "null");
    assert_eq!(parse_event("{\"evt\":\"NOPE\"}"), None);
    assert_eq!(parse_event("{\"cmd\":\"DISPATCH\"}"), None);
    assert_eq!(parse_event("not json"), None);
}

#[test]
fn handshake_response_needs_frame_and_data() {
    let ok = Message::new(OpCode::Frame, "{\"evt\":\"READY\",\"data\":{\"v\":1}}".to_string());
    let ctx = parse_handshake_response(&ok).unwrap();
    assert_eq!(ctx.event, Event::Ready);
    assert_eq!(ctx.data, "{\"v\":1}");
    let wrong_op = Message::new(OpCode::Close, "{\"data\":{}}".to_string());
    assert_eq!(parse_handshake_response(&wrong_op), None);
    let no_data = Message::new(OpCode::Frame, "{\"evt\":\"READY\"}".to_string());
    assert_eq!(parse_handshake_response(&no_data), None);
}

#[test]
fn text_equality() {
    assert!(text_eq("h\u{e9}", "h\u{e9}"));
    assert!(!text_eq("ab", "ac"));
    assert!(!text_eq("a", "ab"));
}

#[test]
fn endpoint_names_count_up_from_zero() {
    assert_eq!(endpoint_name(0), "discord-ipc-0");
    assert_eq!(endpoint_name(9), "discord-ipc-9");
}

#[test]
fn strings_are_escaped_in_payloads() {
    let t = command_text(Command::SetActivity, None, "a\"b\\c\nd\u{1}e\u{e9}", None);
    assert_eq!(
        t,
        "{\"cmd\":\"SET_ACTIVITY\",\"args\":null,\"nonce\":\"a\\\"b\\\\c\\nd\\u0001e\u{e9}\",\"evt\":null}"
    );
    let v: serde_json::Value = serde_json::from_str(&t).unwrap();
    assert_eq!(v["nonce"], "a\"b\\c\nd\u{1}e\u{e9}");
}
