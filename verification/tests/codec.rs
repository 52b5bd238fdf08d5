//! The envelope codec and the scanner under it, on concrete wire text.

use rustcord::codec::{decode, encode, SendableGatewayMessage};
use rustcord::error::GatewayError;
use rustcord::heartbeat::Heartbeat;
use rustcord::tracker::SequenceTracker;

fn chars(s: &str) -> Vec<char> {
    s.chars().collect()
}

fn text(v: &[char]) -> String {
    v.iter().collect()
}

#[test]
fn decode_reads_all_four_fields() {
    let env = decode(&chars("{\"op\":0,\"s\":17,\"t\":\"MESSAGE_CREATE\",\"d\":{\"a\":[1,2]}}"))
        .expect("well-formed frame");
    assert_eq!(env.opcode, 0);
    assert_eq!(env.sequence, Some(17));
    assert_eq!(env.event_name.as_deref(), Some("MESSAGE_CREATE"));
    assert_eq!(text(&env.payload), "{\"a\":[1,2]}");
}

#[test]
fn decode_accepts_any_field_order_and_whitespace() {
    let env = decode(&chars(" { \"d\" : null , \"t\" : null , \"s\" : null , \"op\" : 11 } "))
        .expect("well-formed frame");
    assert_eq!(env.opcode, 11);
    assert_eq!(env.sequence, None);
    assert_eq!(env.event_name, None);
    assert_eq!(text(&env.payload), "null");
}

#[test]
fn decode_defaults_missing_payload_to_null() {
    let env = decode(&chars("{\"op\":11}")).expect("well-formed frame");
    assert_eq!(env.opcode, 11);
    assert_eq!(text(&env.payload), "null");
}

#[test]
fn decode_ignores_unknown_fields() {
    let env = decode(&chars("{\"trace\":[\"gw\"],\"op\":10,\"d\":{}}")).expect("frame decodes");
    assert_eq!(env.opcode, 10);
}

#[test]
fn decode_takes_first_of_duplicate_keys() {
    let env = decode(&chars("{\"op\":1,\"op\":2,\"d\":null}")).expect("frame decodes");
    assert_eq!(env.opcode, 1);
}

#[test]
fn decode_rejects_missing_opcode() {
    match decode(&chars("{\"s\":1,\"d\":{}}")) {
        Err(e) => assert_eq!(e, GatewayError::ProtocolViolation),
        Ok(_) => panic!("frame without opcode accepted"),
    }
}

#[test]
fn decode_rejects_broken_json() {
    assert!(decode(&chars("{\"op\":1")).is_err());
    assert!(decode(&chars("")).is_err());
    assert!(decode(&chars("[1,2]")).is_err());
    assert!(decode(&chars("{\"op\":1} trailing")).is_err());
    assert!(decode(&chars("{\"op\":\"1\"}")).is_err());
    assert!(decode(&chars("{\"op\":1,\"s\":\"x\"}")).is_err());
    assert!(decode(&chars("{\"op\":1,\"t\":3}")).is_err());
}

#[test]
fn decode_handles_strings_with_escapes_and_nesting() {
    let env = decode(&chars(
        "{\"op\":0,\"t\":\"X\",\"d\":{\"text\":\"a\\\"}{[\\\\\",\"deep\":[{\"k\":[1,{\"m\":2}]}]}}",
    ))
    .expect("frame decodes");
    assert_eq!(text(&env.payload), "{\"text\":\"a\\\"}{[\\\\\",\"deep\":[{\"k\":[1,{\"m\":2}]}]}");
}

#[test]
fn decode_sequence_bounds() {
    let max = format!("{{\"op\":0,\"s\":{},\"d\":null}}", i64::MAX);
    assert_eq!(decode(&chars(&max)).unwrap().sequence, Some(i64::MAX));
    let min = format!("{{\"op\":0,\"s\":{},\"d\":null}}", i64::MIN);
    assert_eq!(decode(&chars(&min)).unwrap().sequence, Some(i64::MIN));
    let over = "{\"op\":0,\"s\":9223372036854775808,\"d\":null}";
    assert!(decode(&chars(over)).is_err());
}

#[test]
fn encode_wraps_the_two_field_shape() {
    let frame = encode(5, &chars("{\"k\":1}"));
    assert_eq!(text(&frame), "{\"op\":5,\"d\":{\"k\":1}}");
    let neg = encode(-7, &chars("null"));
    assert_eq!(text(&neg), "{\"op\":-7,\"d\":null}");
}

#[test]
fn heartbeat_round_trip() {
    let mut tracker = SequenceTracker::new();
    tracker.observe(41);
    let beat = Heartbeat::from_atom(&tracker);
    let frame = beat.encode_frame();
    assert_eq!(text(&frame), "{\"op\":1,\"d\":41}");
    let back = decode(&frame).expect("own frame decodes");
    assert_eq!(back.opcode, 1);
    assert_eq!(back.sequence, None);
    assert_eq!(back.event_name, None);
    assert_eq!(text(&back.payload), "41");
}

#[test]
fn heartbeat_round_trip_before_any_dispatch() {
    let tracker = SequenceTracker::new();
    let beat = Heartbeat::from_atom(&tracker);
    let frame = beat.encode_frame();
    let back = decode(&frame).expect("own frame decodes");
    assert_eq!(back.opcode, 1);
    assert_eq!(text(&back.payload), "null");
}

#[test]
fn tracker_keeps_the_maximum_in_any_order() {
    let runs: [&[i64]; 4] = [&[3, 1, 4, 1, 5], &[5, 4, 3, 1, 1], &[1, 5, 1, 4, 3], &[5, 5, 5, 5,
        5]];
    for run in runs {
        let mut t = SequenceTracker::new();
        assert_eq!(t.current(), None);
        for &n in run {
            t.observe(n);
        }
        assert_eq!(t.current(), Some(5));
    }
}

#[test]
fn tracker_never_moves_backwards() {
    let mut t = SequenceTracker::new();
    t.observe(10);
    t.observe(3);
    assert_eq!(t.current(), Some(10));
    t.observe(11);
    assert_eq!(t.current(), Some(11));
    t.observe(-5);
    assert_eq!(t.current(), Some(11));
}

#[test]
fn decode_unescapes_the_event_name() {
    let env = decode(&chars("{\"op\":0,\"t\":\"READ\\u0059\",\"d\":null}")).expect("frame decodes");
    assert_eq!(env.event_name.as_deref(), Some("READY"));
}

#[test]
fn decode_rejects_bad_escapes_in_event_name() {
    assert!(decode(&chars("{\"op\":0,\"t\":\"x\\q\",\"d\":null}")).is_err());
    assert!(decode(&chars("{\"op\":0,\"t\":\"x\\uD83D\",\"d\":null}")).is_err());
}
