//! The connection lifecycle, end to end over plain frames: handshake,
//! heartbeats, dispatch, and failure.

use rustcord::config::BotConfig;
use rustcord::connection::{
    parse_gateway_url, ConnectionState, GatewayConnection, HandshakeOutcome, ReadOutcome,
};
use rustcord::dispatch::GatewayMessageData;
use rustcord::error::GatewayError;
use rustcord::handshake::{HandshakeAction, HandshakeCoordinator, HandshakePhase};
use rustcord::heartbeat::heartbeat_sequence_from_payload;

fn chars(s: &str) -> Vec<char> {
    s.chars().collect()
}

fn text(v: &[char]) -> String {
    v.iter().collect()
}

fn config() -> BotConfig {
    BotConfig {
        token: String::from("tok"),
        application_id: String::from("77"),
        intents: 512,
    }
}

fn live_connection(now: u64) -> GatewayConnection {
    let mut conn = GatewayConnection::new(&config(), String::from("linux"));
    assert!(conn.socket_opened());
    let hello = chars("{\"op\":10,\"d\":{\"heartbeat_interval\":41250}}");
    match conn.handshake_frame(&hello, now) {
        HandshakeOutcome::SendIdentify(_) => {}
        _ => panic!("hello not accepted"),
    }
    let ready = chars(
        "{\"op\":0,\"t\":\"READY\",\"s\":1,\"d\":{\"v\":9,\"session_id\":\"abc\",\
         \"user\":{\"id\":\"42\",\"username\":\"ada\",\"discriminator\":\"0001\"},\
         \"application\":{\"id\":\"77\"},\"guilds\":[{\"id\":\"5\"}]}}",
    );
    match conn.handshake_frame(&ready, now) {
        HandshakeOutcome::Live(r) => {
            assert_eq!(r.session_id, "abc");
            assert_eq!(r.version, 9);
            assert_eq!(r.user.username, "ada");
            assert_eq!(r.guilds.len(), 1);
        }
        _ => panic!("ready not accepted"),
    }
    assert_eq!(conn.state(), ConnectionState::Connected);
    conn
}

#[test]
fn handshake_accepts_hello_identify_ready() {
    let conn = live_connection(1000);
    assert_eq!(conn.heartbeat_interval(), 41250);
    assert_eq!(conn.current_sequence(), None);
}

#[test]
fn handshake_identify_frame_is_exact() {
    let mut conn = GatewayConnection::new(&config(), String::from("linux"));
    assert!(conn.socket_opened());
    let hello = chars("{\"op\":10,\"d\":{\"heartbeat_interval\":41250}}");
    match conn.handshake_frame(&hello, 0) {
        HandshakeOutcome::SendIdentify(frame) => {
            assert_eq!(
                text(&frame),
                "{\"op\":2,\"d\":{\"token\":\"tok\",\"intents\":512,\"properties\":\
                 {\"$os\":\"linux\",\"$browser\":\"rustcord\",\"$device\":\"rustcord\"}}}"
            );
        }
        _ => panic!("hello not accepted"),
    }
}

#[test]
fn handshake_escapes_token() {
    let cfg = BotConfig {
        token: String::from("a\"b\\c"),
        application_id: String::from("77"),
        intents: 0,
    };
    let mut hs = HandshakeCoordinator::new(&cfg, String::from("linux"));
    let hello = rustcord::codec::decode(&chars("{\"op\":10,\"d\":{\"heartbeat_interval\":1}}"))
        .expect("hello frame decodes");
    match hs.on_envelope(&hello) {
        HandshakeAction::SendIdentify(frame) => {
            let t = text(&frame);
            assert!(t.contains("\"token\":\"a\\\"b\\\\c\""));
        }
        _ => panic!("hello not accepted"),
    }
}

#[test]
fn handshake_rejects_ready_before_hello() {
    let mut conn = GatewayConnection::new(&config(), String::from("linux"));
    assert!(conn.socket_opened());
    let ready_first = chars("{\"op\":0,\"t\":\"READY\",\"d\":{\"v\":9,\"session_id\":\"abc\"}}");
    match conn.handshake_frame(&ready_first, 0) {
        HandshakeOutcome::Fatal(e) => assert_eq!(e, GatewayError::ProtocolViolation),
        _ => panic!("out-of-order frame accepted"),
    }
    assert_eq!(conn.state(), ConnectionState::Closed);
}

#[test]
fn handshake_rejects_dispatch_instead_of_hello() {
    let mut conn = GatewayConnection::new(&config(), String::from("linux"));
    assert!(conn.socket_opened());
    let dispatch = chars("{\"op\":0,\"s\":3,\"t\":\"MESSAGE_CREATE\",\"d\":{}}");
    match conn.handshake_frame(&dispatch, 0) {
        HandshakeOutcome::Fatal(e) => assert_eq!(e, GatewayError::ProtocolViolation),
        _ => panic!("dispatch frame accepted as hello"),
    }
    assert_eq!(conn.state(), ConnectionState::Closed);
}

#[test]
fn handshake_coordinator_never_completes_after_failure() {
    let cfg = config();
    let mut hs = HandshakeCoordinator::new(&cfg, String::from("linux"));
    let bad = rustcord::codec::decode(&chars("{\"op\":1,\"d\":null}")).expect("frame decodes");
    match hs.on_envelope(&bad) {
        HandshakeAction::Failed(e) => assert_eq!(e, GatewayError::ProtocolViolation),
        _ => panic!("wrong opcode accepted"),
    }
    assert_eq!(hs.phase(), HandshakePhase::Failed);
    let hello = rustcord::codec::decode(&chars("{\"op\":10,\"d\":{\"heartbeat_interval\":1}}"))
        .expect("frame decodes");
    match hs.on_envelope(&hello) {
        HandshakeAction::Failed(_) => {}
        _ => panic!("failed exchange moved again"),
    }
    assert_eq!(hs.phase(), HandshakePhase::Failed);
}

#[test]
fn first_heartbeat_waits_a_full_interval() {
    let start = 1000;
    let mut conn = live_connection(start);
    assert!(!conn.heartbeat_due(start));
    assert!(!conn.heartbeat_due(start + 41249));
    assert!(conn.heartbeat_due(start + 41250));
    assert_eq!(conn.heartbeat_frame(start + 41249), None);
    let frame = conn.heartbeat_frame(start + 41250).expect("heartbeat owed");
    assert_eq!(text(&frame), "{\"op\":1,\"d\":null}");
}

#[test]
fn no_heartbeat_before_handshake_completes() {
    let mut conn = GatewayConnection::new(&config(), String::from("linux"));
    assert!(!conn.heartbeat_due(u64::MAX));
    assert_eq!(conn.heartbeat_frame(u64::MAX), None);
    assert!(conn.socket_opened());
    assert!(!conn.heartbeat_due(u64::MAX));
    assert_eq!(conn.heartbeat_frame(u64::MAX), None);
}

#[test]
fn heartbeat_carries_latest_sequence() {
    let mut conn = live_connection(0);
    let frame = chars("{\"op\":0,\"s\":17,\"t\":\"SOME_FUTURE_EVENT\",\"d\":{}}");
    match conn.read_event(&frame) {
        ReadOutcome::Event(_) => {}
        _ => panic!("event not delivered"),
    }
    let beat = conn.heartbeat_frame(41250).expect("heartbeat owed");
    assert_eq!(text(&beat), "{\"op\":1,\"d\":17}");
    // the timer reset on the send: nothing is owed right after
    assert!(!conn.heartbeat_due(41251));
    assert!(conn.heartbeat_due(2 * 41250));
}

#[test]
fn timer_does_not_reset_on_dispatches() {
    let mut conn = live_connection(0);
    for s in 1..5 {
        let frame = format!("{{\"op\":0,\"s\":{},\"t\":\"SOME_FUTURE_EVENT\",\"d\":{{}}}}", s);
        match conn.read_event(&chars(&frame)) {
            ReadOutcome::Event(_) => {}
            _ => panic!("event not delivered"),
        }
    }
    // four dispatches later the first beat is still owed at the same moment
    assert!(!conn.heartbeat_due(41249));
    assert!(conn.heartbeat_due(41250));
}

#[test]
fn message_create_updates_sequence_and_delivers() {
    let mut conn = live_connection(0);
    let frame = chars(
        "{\"op\":0,\"s\":17,\"t\":\"MESSAGE_CREATE\",\"d\":{\"id\":\"111\",\
         \"author\":{\"id\":\"42\",\"username\":\"ada\",\"discriminator\":\"0001\"},\
         \"channel_id\":\"9\",\"content\":\"hi\",\"timestamp\":5,\"tts\":false,\
         \"mention_everyone\":false,\"mention_roles\":[],\"type\":0}}",
    );
    match conn.read_event(&frame) {
        ReadOutcome::Event(ev) => {
            assert_eq!(ev.sequence_number, Some(17));
            assert_eq!(ev.dispatch_type.as_deref(), Some("MESSAGE_CREATE"));
            match ev.data {
                GatewayMessageData::MessageCreate(m) => {
                    assert_eq!(m.content, "hi");
                    assert_eq!(m.author.username, "ada");
                    assert_eq!(m.channel_id, "9");
                }
                _ => panic!("not classified as a message"),
            }
        }
        _ => panic!("event not delivered"),
    }
    assert_eq!(conn.current_sequence(), Some(17));
}

#[test]
fn unknown_event_is_unrecognized_not_an_error() {
    let mut conn = live_connection(0);
    let unknown = chars("{\"op\":0,\"s\":5,\"t\":\"SOME_FUTURE_EVENT\",\"d\":{\"x\":1}}");
    match conn.read_event(&unknown) {
        ReadOutcome::Event(ev) => match ev.data {
            GatewayMessageData::Unrecognized(raw) => {
                assert_eq!(text(&raw), "{\"x\":1}");
            }
            _ => panic!("unknown name not carried through"),
        },
        _ => panic!("unknown event treated as failure"),
    }
    assert_eq!(conn.current_sequence(), Some(5));
    // a later known event still lands on the right position
    let ack = chars("{\"op\":11,\"s\":6,\"d\":null}");
    match conn.read_event(&ack) {
        ReadOutcome::Event(ev) => match ev.data {
            GatewayMessageData::HeartbeatAck(_) => {}
            _ => panic!("not classified as an acknowledgement"),
        },
        _ => panic!("event not delivered"),
    }
    assert_eq!(conn.current_sequence(), Some(6));
}

#[test]
fn bad_payload_of_known_event_is_per_event_failure() {
    let mut conn = live_connection(0);
    let frame = chars("{\"op\":0,\"s\":2,\"t\":\"MESSAGE_CREATE\",\"d\":{\"id\":\"1\"}}");
    match conn.read_event(&frame) {
        ReadOutcome::Event(ev) => match ev.data {
            GatewayMessageData::DecodeFailure(raw) => {
                assert_eq!(text(&raw), "{\"id\":\"1\"}");
            }
            _ => panic!("short payload decoded"),
        },
        _ => panic!("per-event failure killed the read"),
    }
    // the connection survives it
    assert_eq!(conn.state(), ConnectionState::Connected);
    assert_eq!(conn.current_sequence(), Some(2));
}

#[test]
fn malformed_frame_is_skipped_in_steady_state() {
    let mut conn = live_connection(0);
    match conn.read_event(&chars("not json")) {
        ReadOutcome::Malformed => {}
        _ => panic!("malformed frame not reported as such"),
    }
    assert_eq!(conn.state(), ConnectionState::Connected);
}

#[test]
fn transport_error_is_terminal_and_quiet() {
    let mut conn = live_connection(0);
    let e = conn.on_transport_error();
    assert_eq!(e, GatewayError::TransportError);
    assert_eq!(conn.state(), ConnectionState::Closed);
    // the next read is terminal again, and nothing hangs or panics
    match conn.read_event(&chars("{\"op\":11,\"d\":null}")) {
        ReadOutcome::Terminal(e2) => assert_eq!(e2, GatewayError::TransportError),
        _ => panic!("closed connection delivered an event"),
    }
    // the heartbeat actor writes nothing further
    assert!(!conn.heartbeat_due(u64::MAX));
    assert_eq!(conn.heartbeat_frame(u64::MAX), None);
}

#[test]
fn explicit_close_tears_the_timer_down() {
    let mut conn = live_connection(0);
    conn.close();
    assert_eq!(conn.state(), ConnectionState::Closed);
    assert_eq!(conn.heartbeat_frame(u64::MAX), None);
}

#[test]
fn heartbeat_payload_reads_back() {
    assert_eq!(heartbeat_sequence_from_payload(&chars("null")), Some(None));
    assert_eq!(heartbeat_sequence_from_payload(&chars("17")), Some(Some(17)));
    assert_eq!(heartbeat_sequence_from_payload(&chars("-3")), Some(Some(-3)));
    assert_eq!(heartbeat_sequence_from_payload(&chars("x")), None);
}

#[test]
fn gateway_url_is_checked_before_connecting() {
    let u = parse_gateway_url("wss://gateway.example.com/?v=9").expect("good URL accepted");
    assert_eq!(u.scheme(), "wss");
    match parse_gateway_url("::not a url::") {
        Err(e) => assert_eq!(e, GatewayError::TransportError),
        Ok(_) => panic!("garbage accepted as a URL"),
    }
}

#[test]
fn handshake_rejects_malformed_hello_payload() {
    let mut conn = GatewayConnection::new(&config(), String::from("linux"));
    assert!(conn.socket_opened());
    let hello_without_interval = chars("{\"op\":10,\"d\":{}}");
    match conn.handshake_frame(&hello_without_interval, 0) {
        HandshakeOutcome::Fatal(e) => assert_eq!(e, GatewayError::ProtocolViolation),
        _ => panic!("hello without an interval accepted"),
    }
    assert_eq!(conn.state(), ConnectionState::Closed);
}

#[test]
fn other_opcodes_pass_through_unrecognized() {
    let mut conn = live_connection(0);
    let reconnect_request = chars("{\"op\":7,\"d\":null}");
    match conn.read_event(&reconnect_request) {
        ReadOutcome::Event(ev) => {
            assert_eq!(ev.opcode, 7);
            match ev.data {
                GatewayMessageData::Unrecognized(raw) => assert_eq!(text(&raw), "null"),
                _ => panic!("unhandled opcode not carried through"),
            }
        }
        _ => panic!("unhandled opcode treated as failure"),
    }
}

#[test]
fn error_descriptions() {
    assert_eq!(GatewayError::TransportError.describe(), "transport failure");
    assert_eq!(GatewayError::ProtocolViolation.describe(), "protocol violation");
}

#[test]
fn escaped_event_names_match_the_table() {
    let mut conn = live_connection(0);
    let frame = chars("{\"op\":0,\"s\":2,\"t\":\"MESSAGE_CREAT\\u0045\",\"d\":{}}");
    match conn.read_event(&frame) {
        ReadOutcome::Event(ev) => {
            assert_eq!(ev.dispatch_type.as_deref(), Some("MESSAGE_CREATE"));
            match ev.data {
                GatewayMessageData::DecodeFailure(_) => {}
                _ => panic!("escaped spelling missed the name table"),
            }
        }
        _ => panic!("event not delivered"),
    }
}
