//! The wire protocol: parsing, serialization, and their round trip.

use keytimer::err::MessageError;
use keytimer::message::{EventTyp, TimerMessage};

#[test]
fn parse_data_line() {
    match TimerMessage::parse("1 A 65 keydown") {
        Ok(TimerMessage::Data { key, key_code, typ }) => {
            assert_eq!(key, "A");
            assert_eq!(key_code, 65);
            assert!(matches!(typ, EventTyp::KeyDown));
        }
        other => panic!("expected a data message, got {:?}", other.is_ok()),
    }
}

#[test]
fn parse_data_keyup() {
    match TimerMessage::parse("1 Escape 27 keyup") {
        Ok(TimerMessage::Data { key, key_code, typ }) => {
            assert_eq!(key, "Escape");
            assert_eq!(key_code, 27);
            assert!(matches!(typ, EventTyp::KeyUp));
        }
        _ => panic!("expected a data message"),
    }
}

#[test]
fn parse_data_ignores_trailing_fields() {
    match TimerMessage::parse("1 A 65 keydown extra fields") {
        Ok(TimerMessage::Data { key, key_code, typ }) => {
            assert_eq!(key, "A");
            assert_eq!(key_code, 65);
            assert!(matches!(typ, EventTyp::KeyDown));
        }
        _ => panic!("expected a data message"),
    }
}

#[test]
fn parse_pong_line() {
    match TimerMessage::parse("0 4") {
        Ok(TimerMessage::Pong { i }) => assert_eq!(i, 4),
        _ => panic!("expected a pong"),
    }
}

#[test]
fn parse_pong_with_plus_sign() {
    match TimerMessage::parse("0 +17") {
        Ok(TimerMessage::Pong { i }) => assert_eq!(i, 17),
        _ => panic!("expected a pong"),
    }
}

#[test]
fn parse_pong_max_counter() {
    match TimerMessage::parse("0 4294967295") {
        Ok(TimerMessage::Pong { i }) => assert_eq!(i, u32::MAX),
        _ => panic!("expected a pong"),
    }
}

#[test]
fn parse_pong_counter_overflow() {
    assert!(matches!(
        TimerMessage::parse("0 4294967296"),
        Err(MessageError::CounterParseError)
    ));
}

#[test]
fn parse_invalid_code() {
    assert!(matches!(
        TimerMessage::parse("2 x"),
        Err(MessageError::InvalidCode)
    ));
}

#[test]
fn parse_empty_line() {
    assert!(matches!(
        TimerMessage::parse(""),
        Err(MessageError::MoreDataExpected("message"))
    ));
}

#[test]
fn parse_lone_space_is_invalid_code() {
    assert!(matches!(
        TimerMessage::parse(" "),
        Err(MessageError::InvalidCode)
    ));
}

#[test]
fn parse_pong_missing_counter() {
    assert!(matches!(
        TimerMessage::parse("0"),
        Err(MessageError::MoreDataExpected("ping counter"))
    ));
}

#[test]
fn parse_pong_bad_counter() {
    assert!(matches!(
        TimerMessage::parse("0 abc"),
        Err(MessageError::CounterParseError)
    ));
}

#[test]
fn parse_pong_trailing_field() {
    assert!(matches!(
        TimerMessage::parse("0 4 5"),
        Err(MessageError::NoMoreDataExpected)
    ));
}

#[test]
fn parse_data_missing_key() {
    assert!(matches!(
        TimerMessage::parse("1"),
        Err(MessageError::MoreDataExpected("key"))
    ));
}

#[test]
fn parse_data_missing_key_code() {
    assert!(matches!(
        TimerMessage::parse("1 A"),
        Err(MessageError::MoreDataExpected("ping counter"))
    ));
}

#[test]
fn parse_data_bad_key_code() {
    assert!(matches!(
        TimerMessage::parse("1 A 65536 keydown"),
        Err(MessageError::KeyCodeParseError)
    ));
}

#[test]
fn parse_data_missing_typ() {
    assert!(matches!(
        TimerMessage::parse("1 A 65"),
        Err(MessageError::InvalidTyp)
    ));
}

#[test]
fn parse_data_bad_typ() {
    assert!(matches!(
        TimerMessage::parse("1 A 65 flap"),
        Err(MessageError::InvalidTyp)
    ));
}

#[test]
fn serialize_ping() {
    assert_eq!(TimerMessage::Ping { i: 3 }.as_string(), "0 3");
}

#[test]
fn serialize_pong() {
    assert_eq!(TimerMessage::Pong { i: 7 }.as_string(), "0 7");
}

#[test]
fn serialize_rtt() {
    assert_eq!(
        TimerMessage::Rtt { rtt: 1234567890123 }.as_string(),
        "1 1234567890123"
    );
}

#[test]
fn serialize_rtt_zero() {
    assert_eq!(TimerMessage::Rtt { rtt: 0 }.as_string(), "1 0");
}

#[test]
fn serialize_data() {
    let m = TimerMessage::Data {
        key: "A".to_string(),
        key_code: 65,
        typ: EventTyp::KeyDown,
    };
    assert_eq!(m.as_string(), "1 A 65 keydown");
}

#[test]
fn event_typ_as_str() {
    assert_eq!(EventTyp::KeyDown.as_str(), "keydown");
    assert_eq!(EventTyp::KeyUp.as_str(), "keyup");
}

#[test]
fn data_round_trip_keeps_fields() {
    let m = TimerMessage::Data {
        key: "Enter".to_string(),
        key_code: 13,
        typ: EventTyp::KeyUp,
    };
    let line = m.as_string();
    match TimerMessage::parse(line.as_str()) {
        Ok(TimerMessage::Data { key, key_code, typ }) => {
            assert_eq!(key, "Enter");
            assert_eq!(key_code, 13);
            assert!(matches!(typ, EventTyp::KeyUp));
        }
        _ => panic!("round trip lost the message"),
    }
}
