use std::collections::HashSet;

use discord_presence::client::{Client, ClientError, ConnectOutcome, Step, TransportError};
use discord_presence::codec::{Message, OpCode};
use discord_presence::protocol::{Command, Event, EventContext};

type Handler = Box<dyn Fn(&EventContext) -> String>;

fn ready_response() -> Message {
    Message::new(
        OpCode::Frame,
        "{\"cmd\":\"DISPATCH\",\"evt\":\"READY\",\"data\":{\"user\":{\"id\":\"42\",\"username\":\"alice\"}}}"
            .to_string(),
    )
}

fn connected(id: u64) -> Client<Handler> {
    let mut c: Client<Handler> = Client::new(id);
    c.start();
    c.on_connect(ConnectOutcome::Established(ready_response()));
    c
}

fn drain(c: &mut Client<Handler>) -> Vec<Message> {
    let mut out = Vec::new();
    while let Some(m) = c.next_outbound() {
        out.push(m);
    }
    out
}

fn nonce_of(m: &Message) -> String {
    let v: serde_json::Value = serde_json::from_str(&m.payload).unwrap();
    v["nonce"].as_str().unwrap().to_string()
}

#[test]
fn test_is_started() {
    let mut c: Client<Handler> = Client::new(1);
    assert!(!c.is_started());

    c.start();

    assert!(c.is_started());
}

#[test]
fn test_is_ready() {
    let mut c: Client<Handler> = Client::new(1);
    assert!(!c.is_ready());

    c.start();
    c.on_connect(ConnectOutcome::Established(ready_response()));

    assert!(c.is_ready());
}

#[test]
fn commands_wait_for_start_and_ready() {
    let mut c: Client<Handler> = Client::new(5);
    assert_eq!(c.clear_activity(), Err(ClientError::NotStarted));
    c.start();
    assert_eq!(c.set_activity(|a| a), Err(ClientError::NotStarted));
    assert!(drain(&mut c).is_empty());
    c.on_connect(ConnectOutcome::Established(ready_response()));
    assert_eq!(c.clear_activity(), Ok(()));
    assert_eq!(drain(&mut c).len(), 1);
}

#[test]
fn outbound_is_first_in_first_out() {
    let mut c = connected(9);
    c.execute(Command::SetActivity, None, None, "A").unwrap();
    c.execute(Command::Subscribe, None, Some(Event::ActivityJoin), "B").unwrap();
    c.execute(Command::Unsubscribe, None, None, "C").unwrap();
    let out = drain(&mut c);
    let nonces: Vec<String> = out.iter().map(nonce_of).collect();
    assert_eq!(nonces, vec!["A", "B", "C"]);
    assert!(out.iter().all(|m| m.opcode == OpCode::Frame));
    assert!(drain(&mut c).is_empty());
}

#[test]
fn transport_error_disconnects_and_reconnect_restores_ready() {
    let mut c = connected(9);
    assert_eq!(c.next_step(), Step::Relay);
    c.on_transport_error(TransportError::WouldBlock);
    assert!(c.is_connected() && c.is_ready());
    c.on_transport_error(TransportError::Io);
    assert!(!c.is_connected());
    assert!(!c.is_ready());
    assert_eq!(c.next_step(), Step::Connect);
    c.on_connect(ConnectOutcome::Failed);
    assert!(c.is_started());
    assert_eq!(c.next_step(), Step::Connect);
    let ctx = c.on_connect(ConnectOutcome::Established(ready_response())).unwrap();
    assert_eq!(ctx.event, Event::Ready);
    assert!(c.is_ready());
    assert_eq!(c.next_step(), Step::Relay);
}

#[test]
fn close_frame_disconnects() {
    let mut c = connected(9);
    assert_eq!(c.on_message(&Message::new(OpCode::Close, "{}".to_string())), None);
    assert!(!c.is_connected());
    assert!(!c.is_ready());
}

#[test]
fn first_hard_failure_is_terminal() {
    let mut c: Client<Handler> = Client::new(3);
    c.start();
    assert_eq!(c.next_step(), Step::Connect);
    c.on_connect(ConnectOutcome::WouldBlock);
    assert_eq!(c.next_step(), Step::Connect);
    c.on_connect(ConnectOutcome::Failed);
    assert!(!c.is_started());
    for _ in 0..5 {
        assert_eq!(c.next_step(), Step::Halt);
        c.on_transport_error(TransportError::Io);
    }
    c.start();
    assert_eq!(c.next_step(), Step::Connect);
}

#[test]
fn malformed_handshake_response_is_a_hard_failure() {
    let mut c: Client<Handler> = Client::new(3);
    c.start();
    let r = c.on_connect(ConnectOutcome::Established(Message::new(OpCode::Frame, "{}".to_string())));
    assert_eq!(r, None);
    assert!(!c.is_started());
    assert_eq!(c.next_step(), Step::Halt);
}

#[test]
fn stop_halts_the_loop() {
    let mut c = connected(3);
    c.stop();
    assert_eq!(c.next_step(), Step::Halt);
}

#[test]
fn nonces_are_distinct() {
    let mut c = connected(11);
    for i in 0..1000u64 {
        c.set_activity(|a| a.state(Some(format!("s{}", i)))).unwrap();
    }
    let out = drain(&mut c);
    assert_eq!(out.len(), 1000);
    let set: HashSet<String> = out.iter().map(nonce_of).collect();
    assert_eq!(set.len(), 1000);
    for n in &set {
        let chars: Vec<char> = n.chars().collect();
        assert_eq!(chars.len(), 36);
        for (i, ch) in chars.iter().enumerate() {
            if i == 8 || i == 13 || i == 18 || i == 23 {
                assert_eq!(*ch, '-');
            } else {
                assert!(ch.is_ascii_digit() || ('a'..='f').contains(ch));
            }
        }
        assert_eq!(chars[14], '4');
        assert!("89ab".contains(chars[19]));
    }
}

#[test]
fn set_activity_frame_carries_pid_and_activity() {
    let mut c: Client<Handler> = Client::with_process_id(11, 77);
    c.start();
    c.on_connect(ConnectOutcome::Established(ready_response()));
    c.set_activity(|a| a.details(Some("d".to_string()))).unwrap();
    let out = drain(&mut c);
    let v: serde_json::Value = serde_json::from_str(&out[0].payload).unwrap();
    assert_eq!(v["cmd"], "SET_ACTIVITY");
    assert_eq!(v["args"]["pid"], 77);
    assert_eq!(v["args"]["activity"]["details"], "d");
    assert!(v["args"]["activity"].get("state").is_none());
    assert!(v["evt"].is_null());
}

#[test]
fn every_handler_for_an_event_is_listed_in_order() {
    let mut c: Client<Handler> = Client::new(1);
    c.on_event(Event::Error, Box::new(|_| "first".to_string()));
    c.on_event(Event::Ready, Box::new(|_| "ready".to_string()));
    c.on_event(Event::Error, Box::new(|_| "second".to_string()));
    let plan = c.handlers_for(Event::Error);
    assert_eq!(plan, vec![0, 2]);
    let ctx = EventContext { event: Event::Error, data: "null".to_string() };
    let said: Vec<String> = plan.iter().map(|&i| (c.handler(i))(&ctx)).collect();
    assert_eq!(said, vec!["first", "second"]);
    assert!(c.handlers_for(Event::ActivitySpectate).is_empty());
}

#[test]
fn ready_handler_receives_user_payload() {
    let mut c: Client<Handler> = Client::new(123);
    assert_eq!(c.client_id(), 123);
    c.on_event(Event::Ready, Box::new(|ctx| ctx.data.clone()));
    c.start();
    let hs = c.handshake();
    assert_eq!(hs.payload, "{\"v\":1,\"client_id\":\"123\"}");
    let ctx = c.on_connect(ConnectOutcome::Established(ready_response())).unwrap();
    assert!(c.is_ready());
    let said: Vec<String> = c.handlers_for(ctx.event).iter().map(|&i| (c.handler(i))(&ctx)).collect();
    let user: serde_json::Value = serde_json::from_str(&said[0]).unwrap();
    assert_eq!(user["user"]["id"], "42");
    assert_eq!(user["user"]["username"], "alice");
}

#[test]
fn inbound_ready_on_live_link_marks_ready() {
    let mut c = connected(2);
    c.on_transport_error(TransportError::Closed);
    assert_eq!(c.next_step(), Step::Connect);
    let m = Message::new(OpCode::Frame, "{\"evt\":\"READY\",\"data\":{}}".to_string());
    let ctx = c.on_message(&m).unwrap();
    assert_eq!(ctx.event, Event::Ready);
    assert!(!c.is_ready());
}

#[test]
fn unsent_frame_goes_back_in_front_and_later_ones_stay() {
    let mut c = connected(4);
    c.execute(Command::SetActivity, None, None, "A").unwrap();
    c.execute(Command::SetActivity, None, None, "B").unwrap();
    c.execute(Command::SetActivity, None, None, "C").unwrap();
    let first = c.next_outbound().unwrap();
    assert_eq!(nonce_of(&first), "A");
    c.requeue_front(first);
    let again = c.next_outbound().unwrap();
    assert_eq!(nonce_of(&again), "A");
    c.on_transport_error(TransportError::Io);
    let rest: Vec<String> = drain(&mut c).iter().map(nonce_of).collect();
    assert_eq!(rest, vec!["B", "C"]);
    assert_eq!(c.next_outbound(), None);
}

#[test]
fn invalid_json_handshake_response_is_a_hard_failure() {
    let mut c: Client<Handler> = Client::new(3);
    c.start();
    let bad = Message::new(OpCode::Frame, "{\"data\":".to_string());
    assert_eq!(c.on_connect(ConnectOutcome::Established(bad)), None);
    assert!(!c.is_started());
    assert!(!c.is_ready());
}
