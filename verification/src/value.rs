//! Structured protocol values as the wire carries them, and the two outbound
//! command shapes the multiplexer emits.

use vstd::prelude::*;

verus! {

/// A structured protocol value: the shape in which commands travel to the
/// server and published traffic comes back. Payloads are forwarded to
/// consumers as whole values, so every variant may appear inside an `Array`.
pub enum RespValue {
    /// Absent value.
    Nil,
    /// Sequence of nested values; every pub/sub frame is an array.
    Array(Vec<RespValue>),
    /// Binary-safe string; topics, type tags and most payloads use it.
    BulkString(Vec<u8>),
    /// Signed integer; acknowledgments carry a subscription count here.
    Integer(i64),
}

/// The elements of an array value (meaningful only when `v is Array`).
pub open spec fn elems(v: RespValue) -> Seq<RespValue> {
    v->Array_0@
}

/// The two-element outbound command `[tag, topic]`, both bulk strings.
pub open spec fn is_command(v: RespValue, tag: Seq<u8>, topic: Seq<u8>) -> bool {
    &&& v is Array
    &&& elems(v).len() == 2
    &&& elems(v)[0] matches RespValue::BulkString(t) && t@ == tag
    &&& elems(v)[1] matches RespValue::BulkString(t) && t@ == topic
}

/// The byte sequence `SUBSCRIBE`.
pub open spec fn subscribe_tag() -> Seq<u8> {
    seq![83u8, 85u8, 66u8, 83u8, 67u8, 82u8, 73u8, 66u8, 69u8]
}

/// The byte sequence `UNSUBSCRIBE`.
pub open spec fn unsubscribe_tag() -> Seq<u8> {
    seq![85u8, 78u8, 83u8, 85u8, 66u8, 83u8, 67u8, 82u8, 73u8, 66u8, 69u8]
}

/// Builds the wire command `["SUBSCRIBE", topic]`.
pub fn subscribe_command(topic: Vec<u8>) -> (cmd: RespValue)
    ensures
        is_command(cmd, subscribe_tag(), topic@),
{
    let mut tag: Vec<u8> = Vec::new();
    tag.push(83u8);
    tag.push(85u8);
    tag.push(66u8);
    tag.push(83u8);
    tag.push(67u8);
    tag.push(82u8);
    tag.push(73u8);
    tag.push(66u8);
    tag.push(69u8);
    proof {
        assert(tag@ =~= subscribe_tag());
    }
    let mut parts: Vec<RespValue> = Vec::new();
    parts.push(RespValue::BulkString(tag));
    parts.push(RespValue::BulkString(topic));
    RespValue::Array(parts)
}

/// Builds the wire command `["UNSUBSCRIBE", topic]`.
pub fn unsubscribe_command(topic: Vec<u8>) -> (cmd: RespValue)
    ensures
        is_command(cmd, unsubscribe_tag(), topic@),
{
    let mut tag: Vec<u8> = Vec::new();
    tag.push(85u8);
    tag.push(78u8);
    tag.push(83u8);
    tag.push(85u8);
    tag.push(66u8);
    tag.push(83u8);
    tag.push(67u8);
    tag.push(82u8);
    tag.push(73u8);
    tag.push(66u8);
    tag.push(69u8);
    proof {
        assert(tag@ =~= unsubscribe_tag());
    }
    let mut parts: Vec<RespValue> = Vec::new();
    parts.push(RespValue::BulkString(tag));
    parts.push(RespValue::BulkString(topic));
    RespValue::Array(parts)
}

} // verus!
