//! Tests of frame classification and of the protocol-error blast radius.

use redis_pubsub::error::PubsubError;
use redis_pubsub::inbound::{classify, Inbound};
use redis_pubsub::multiplexer::{InboundAction, Multiplexer, PubsubEvent};
use redis_pubsub::value::{subscribe_command, unsubscribe_command, RespValue};

fn bulk(bytes: &[u8]) -> RespValue {
    RespValue::BulkString(bytes.to_vec())
}

fn frame(tag: &[u8], topic: &[u8], payload: RespValue) -> RespValue {
    RespValue::Array(vec![bulk(tag), bulk(topic), payload])
}

/// Each known type tag classifies to its own variant, with topic and
/// payload carried through unchanged.
#[test]
fn classify_known_tags() {
    match classify(frame(b"subscribe", b"news", RespValue::Integer(1))) {
        Ok(Inbound::SubscribeAck(topic)) => assert_eq!(topic, b"news".to_vec()),
        _ => panic!("subscribe tag misclassified"),
    }
    match classify(frame(b"unsubscribe", b"news", RespValue::Integer(0))) {
        Ok(Inbound::UnsubscribeAck(topic)) => assert_eq!(topic, b"news".to_vec()),
        _ => panic!("unsubscribe tag misclassified"),
    }
    match classify(frame(b"message", b"news", bulk(b"hello"))) {
        Ok(Inbound::Message(topic, payload)) => {
            assert_eq!(topic, b"news".to_vec());
            match payload {
                RespValue::BulkString(b) => assert_eq!(b, b"hello".to_vec()),
                _ => panic!("payload changed shape"),
            }
        }
        _ => panic!("message tag misclassified"),
    }
}

/// A well-formed frame with a tag the multiplexer does not know is carried
/// as `Other`, not treated as an error.
#[test]
fn classify_unknown_tag_is_other() {
    match classify(frame(b"pmessage", b"news", bulk(b"hello"))) {
        Ok(Inbound::Other) => {}
        _ => panic!("unknown tag should classify to Other"),
    }
}

/// Malformed frames are protocol errors: wrong arity, a non-array value, or
/// a tag or topic that is not a bulk string.
#[test]
fn classify_malformed_frames() {
    let assert_protocol_error = |value: RespValue| match classify(value) {
        Err(PubsubError::Protocol) => {}
        _ => panic!("malformed frame must be a protocol error"),
    };

    assert_protocol_error(RespValue::Array(vec![bulk(b"message"), bulk(b"news")]));
    assert_protocol_error(RespValue::Array(vec![
        bulk(b"message"),
        bulk(b"news"),
        bulk(b"hello"),
        RespValue::Integer(1),
    ]));
    assert_protocol_error(RespValue::Integer(5));
    assert_protocol_error(RespValue::Nil);
    assert_protocol_error(RespValue::Array(vec![
        RespValue::Integer(1),
        bulk(b"news"),
        bulk(b"hello"),
    ]));
    assert_protocol_error(RespValue::Array(vec![
        bulk(b"message"),
        RespValue::Integer(1),
        bulk(b"hello"),
    ]));
    assert_protocol_error(RespValue::Array(vec![]));
}

/// A malformed inbound frame is fatal: `handle_inbound` reports a protocol
/// error, on which the driving loop tears the whole actor down, ending
/// every stream sharing the connection at once.
#[test]
fn malformed_frame_is_actor_fatal() {
    let mut mux: Multiplexer<u32, u32> = Multiplexer::new();
    mux.handle_event(PubsubEvent::Subscribe(b"a".to_vec(), 1, 2));
    mux.handle_inbound(frame(b"subscribe", b"a", RespValue::Integer(1))).unwrap();

    let two_elements = RespValue::Array(vec![bulk(b"message"), bulk(b"a")]);
    match mux.handle_inbound(two_elements) {
        Err(PubsubError::Protocol) => {}
        _ => panic!("malformed frame must be a protocol error"),
    }
    // the state is untouched; it is the driving loop that disposes of it
    assert_eq!(mux.route(&b"a".to_vec()), Some(&1));
}

/// The two outbound command builders produce exactly the documented
/// two-element arrays.
#[test]
fn command_wire_shapes() {
    match subscribe_command(b"news".to_vec()) {
        RespValue::Array(parts) => {
            assert_eq!(parts.len(), 2);
            match &parts[0] {
                RespValue::BulkString(b) => assert_eq!(b.as_slice(), b"SUBSCRIBE"),
                _ => panic!("tag is not a bulk string"),
            }
            match &parts[1] {
                RespValue::BulkString(b) => assert_eq!(b.as_slice(), b"news"),
                _ => panic!("topic is not a bulk string"),
            }
        }
        _ => panic!("command is not an array"),
    }
    match unsubscribe_command(b"news".to_vec()) {
        RespValue::Array(parts) => {
            assert_eq!(parts.len(), 2);
            match &parts[0] {
                RespValue::BulkString(b) => assert_eq!(b.as_slice(), b"UNSUBSCRIBE"),
                _ => panic!("tag is not a bulk string"),
            }
        }
        _ => panic!("command is not an array"),
    }
}
