//! Classification of inbound protocol values.
//!
//! Every frame the server sends on a pub/sub connection is expected to be a
//! three-element array `[type-tag, topic, payload-or-count]`. Anything else
//! is a protocol error, which is fatal to the whole multiplexer. A
//! well-formed frame is classified by its type tag into a subscribe
//! acknowledgment, an unsubscribe acknowledgment, or a published message; a
//! frame with an unknown tag is carried along as `Other` and ignored.

use vstd::prelude::*;

use crate::bytes::bytes_match;
use crate::error::PubsubError;
use crate::value::RespValue;
use crate::value::elems;

verus! {

/// A classified inbound frame.
pub enum Inbound {
    /// `["subscribe", topic, count]`: the server confirmed a subscription.
    SubscribeAck(Vec<u8>),
    /// `["unsubscribe", topic, count]`: the server confirmed removal.
    UnsubscribeAck(Vec<u8>),
    /// `["message", topic, payload]`: a published payload for a topic.
    Message(Vec<u8>, RespValue),
    /// Well-formed, but with a type tag the multiplexer does not act on.
    Other,
}

/// The byte sequence `subscribe`.
pub open spec fn subscribe_ack_tag() -> Seq<u8> {
    seq![115u8, 117u8, 98u8, 115u8, 99u8, 114u8, 105u8, 98u8, 101u8]
}

/// The byte sequence `unsubscribe`.
pub open spec fn unsubscribe_ack_tag() -> Seq<u8> {
    seq![117u8, 110u8, 115u8, 117u8, 98u8, 115u8, 99u8, 114u8, 105u8, 98u8, 101u8]
}

/// The byte sequence `message`.
pub open spec fn message_tag() -> Seq<u8> {
    seq![109u8, 101u8, 115u8, 115u8, 97u8, 103u8, 101u8]
}

/// A frame the multiplexer accepts: a three-element array whose type tag and
/// topic are both bulk strings. The third element, the payload or
/// subscription count, may be any value.
pub open spec fn wellformed(msg: RespValue) -> bool {
    &&& msg is Array
    &&& elems(msg).len() == 3
    &&& elems(msg)[0] is BulkString
    &&& elems(msg)[1] is BulkString
}

/// The type tag of a well-formed frame.
pub open spec fn tag_of(msg: RespValue) -> Seq<u8> {
    elems(msg)[0]->BulkString_0@
}

/// The topic of a well-formed frame.
pub open spec fn topic_of(msg: RespValue) -> Seq<u8> {
    elems(msg)[1]->BulkString_0@
}

/// The payload (or acknowledgment count) of a well-formed frame.
pub open spec fn payload_of(msg: RespValue) -> RespValue {
    elems(msg)[2]
}

/// What a well-formed frame classifies to, stated over the frame's parts.
pub open spec fn classifies_to(msg: RespValue, inbound: Inbound) -> bool {
    if tag_of(msg) == subscribe_ack_tag() {
        inbound matches Inbound::SubscribeAck(t) && t@ == topic_of(msg)
    } else if tag_of(msg) == unsubscribe_ack_tag() {
        inbound matches Inbound::UnsubscribeAck(t) && t@ == topic_of(msg)
    } else if tag_of(msg) == message_tag() {
        inbound matches Inbound::Message(t, p) && t@ == topic_of(msg) && p == payload_of(msg)
    } else {
        inbound is Other
    }
}

/// Classifies an inbound frame, or reports it malformed.
///
/// Returns a protocol error exactly on the frames `wellformed` refuses: a
/// value that is not an array, an array of any length other than three, or
/// one whose type tag or topic is not a bulk string.
pub fn classify(msg: RespValue) -> (r: Result<Inbound, PubsubError>)
    ensures
        r is Ok <==> wellformed(msg),
        r matches Ok(inbound) ==> classifies_to(msg, inbound),
        r matches Err(e) ==> e is Protocol,
{
    match msg {
        RespValue::Array(mut parts) => {
            if parts.len() != 3 {
                return Err(PubsubError::Protocol);
            }
            let payload = parts.pop().unwrap();
            let topic_value = parts.pop().unwrap();
            let tag_value = parts.pop().unwrap();
            let topic = match topic_value {
                RespValue::BulkString(t) => t,
                _ => {
                    return Err(PubsubError::Protocol);
                },
            };
            let tag = match tag_value {
                RespValue::BulkString(t) => t,
                _ => {
                    return Err(PubsubError::Protocol);
                },
            };
            if bytes_match(&tag, &subscribe_ack_bytes()) {
                Ok(Inbound::SubscribeAck(topic))
            } else if bytes_match(&tag, &unsubscribe_ack_bytes()) {
                Ok(Inbound::UnsubscribeAck(topic))
            } else if bytes_match(&tag, &message_bytes()) {
                Ok(Inbound::Message(topic, payload))
            } else {
                Ok(Inbound::Other)
            }
        },
        _ => Err(PubsubError::Protocol),
    }
}

/// The bytes `subscribe` as a vector.
fn subscribe_ack_bytes() -> (r: Vec<u8>)
    ensures
        r@ == subscribe_ack_tag(),
{
    let mut b: Vec<u8> = Vec::new();
    b.push(115u8);
    b.push(117u8);
    b.push(98u8);
    b.push(115u8);
    b.push(99u8);
    b.push(114u8);
    b.push(105u8);
    b.push(98u8);
    b.push(101u8);
    proof {
        assert(b@ =~= subscribe_ack_tag());
    }
    b
}

/// The bytes `unsubscribe` as a vector.
fn unsubscribe_ack_bytes() -> (r: Vec<u8>)
    ensures
        r@ == unsubscribe_ack_tag(),
{
    let mut b: Vec<u8> = Vec::new();
    b.push(117u8);
    b.push(110u8);
    b.push(115u8);
    b.push(117u8);
    b.push(98u8);
    b.push(115u8);
    b.push(99u8);
    b.push(114u8);
    b.push(105u8);
    b.push(98u8);
    b.push(101u8);
    proof {
        assert(b@ =~= unsubscribe_ack_tag());
    }
    b
}

/// The bytes `message` as a vector.
fn message_bytes() -> (r: Vec<u8>)
    ensures
        r@ == message_tag(),
{
    let mut b: Vec<u8> = Vec::new();
    b.push(109u8);
    b.push(101u8);
    b.push(115u8);
    b.push(115u8);
    b.push(97u8);
    b.push(103u8);
    b.push(101u8);
    proof {
        assert(b@ =~= message_tag());
    }
    b
}

} // verus!
