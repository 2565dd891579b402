//! Laws of the multiplexer's inbound transitions.
//!
//! Each proof function states, over `inbound_step` — the specification that
//! `Multiplexer::handle_inbound` is proved to implement — a guarantee that
//! holds of every actor, every topic and every frame, not just of the
//! scenarios the tests replay.

use vstd::prelude::*;

use crate::inbound::message_tag;
use crate::inbound::payload_of;
use crate::inbound::subscribe_ack_tag;
use crate::inbound::tag_of;
use crate::inbound::topic_of;
use crate::inbound::unsubscribe_ack_tag;
use crate::inbound::wellformed;
use crate::multiplexer::ActionSpec;
use crate::multiplexer::inbound_step;
use crate::value::RespValue;

verus! {

/// A message for a live topic is delivered while the topic is still live,
/// strictly before a later unsubscribe acknowledgment for it is processed.
///
/// Frames are processed one at a time, in arrival order. Processing the
/// message first forwards its payload to the topic's consumer and leaves
/// the topic live; only the acknowledgment processed after it removes the
/// topic. Processed in the other order, the removal has already happened
/// and the message is dropped, never delivered late.
pub proof fn lemma_delivery_precedes_unsubscribe_ack<S, A>(
    subs: Map<Seq<u8>, S>,
    pending: Map<Seq<u8>, (S, A)>,
    message: RespValue,
    unsub_ack: RespValue,
)
    requires
        wellformed(message),
        tag_of(message) == message_tag(),
        wellformed(unsub_ack),
        tag_of(unsub_ack) == unsubscribe_ack_tag(),
        topic_of(unsub_ack) == topic_of(message),
        subs.contains_key(topic_of(message)),
    ensures
        inbound_step(subs, pending, message).2 == ActionSpec::<A>::Deliver(
            topic_of(message),
            payload_of(message),
        ),
        inbound_step(subs, pending, message).0 == subs,
        !inbound_step(
            inbound_step(subs, pending, message).0,
            inbound_step(subs, pending, message).1,
            unsub_ack,
        ).0.contains_key(topic_of(message)),
        inbound_step(
            inbound_step(subs, pending, unsub_ack).0,
            inbound_step(subs, pending, unsub_ack).1,
            message,
        ).2 == ActionSpec::<A>::NoOp,
{
}

/// An unsubscribe acknowledgment for an untracked topic is a no-op: no
/// error, no state change, nothing asked of the driving loop — in
/// particular, it never terminates the actor.
pub proof fn lemma_untracked_unsubscribe_ack_is_noop<S, A>(
    subs: Map<Seq<u8>, S>,
    pending: Map<Seq<u8>, (S, A)>,
    unsub_ack: RespValue,
)
    requires
        wellformed(unsub_ack),
        tag_of(unsub_ack) == unsubscribe_ack_tag(),
        !subs.contains_key(topic_of(unsub_ack)),
    ensures
        inbound_step(subs, pending, unsub_ack).0 == subs,
        inbound_step(subs, pending, unsub_ack).1 == pending,
        inbound_step(subs, pending, unsub_ack).2 == ActionSpec::<A>::NoOp,
{
}

/// When an unsubscribe acknowledgment removes the last live subscription,
/// the actor reaches its terminal state: the transition asks for
/// termination, and no live subscription remains.
pub proof fn lemma_last_unsubscribe_ack_terminates<S, A>(
    subs: Map<Seq<u8>, S>,
    pending: Map<Seq<u8>, (S, A)>,
    unsub_ack: RespValue,
)
    requires
        wellformed(unsub_ack),
        tag_of(unsub_ack) == unsubscribe_ack_tag(),
        subs.contains_key(topic_of(unsub_ack)),
        forall|k: Seq<u8>| subs.contains_key(k) ==> k == topic_of(unsub_ack),
    ensures
        inbound_step(subs, pending, unsub_ack).2 == ActionSpec::<A>::Terminated,
        inbound_step(subs, pending, unsub_ack).0 == Map::<Seq<u8>, S>::empty(),
{
    assert(subs.remove(topic_of(unsub_ack)) =~= Map::<Seq<u8>, S>::empty());
}

/// A subscribe acknowledgment resolves only its own topic's request: it
/// fires exactly the signal registered for its topic, makes exactly that
/// topic's channel live, and leaves every other topic — pending or live —
/// untouched.
pub proof fn lemma_ack_resolves_only_its_topic<S, A>(
    subs: Map<Seq<u8>, S>,
    pending: Map<Seq<u8>, (S, A)>,
    sub_ack: RespValue,
    other: Seq<u8>,
)
    requires
        wellformed(sub_ack),
        tag_of(sub_ack) == subscribe_ack_tag(),
        pending.contains_key(topic_of(sub_ack)),
        other != topic_of(sub_ack),
    ensures
        inbound_step(subs, pending, sub_ack).2 == ActionSpec::<A>::Resolved(
            pending[topic_of(sub_ack)].1,
        ),
        inbound_step(subs, pending, sub_ack).0[topic_of(sub_ack)] == pending[topic_of(
            sub_ack,
        )].0,
        pending.contains_key(other) ==> inbound_step(subs, pending, sub_ack).1.contains_key(other)
            && inbound_step(subs, pending, sub_ack).1[other] == pending[other],
        subs.contains_key(other) ==> inbound_step(subs, pending, sub_ack).0.contains_key(other)
            && inbound_step(subs, pending, sub_ack).0[other] == subs[other],
        !subs.contains_key(other) ==> !inbound_step(subs, pending, sub_ack).0.contains_key(other),
{
}

/// A published message is offered only to its own topic's consumer channel:
/// the transition delivers to exactly the topic named in the frame, and a
/// message for a topic that is not live is dropped.
pub proof fn lemma_message_delivered_only_to_its_topic<S, A>(
    subs: Map<Seq<u8>, S>,
    pending: Map<Seq<u8>, (S, A)>,
    message: RespValue,
)
    requires
        wellformed(message),
        tag_of(message) == message_tag(),
    ensures
        subs.contains_key(topic_of(message)) ==> inbound_step(subs, pending, message).2
            == ActionSpec::<A>::Deliver(topic_of(message), payload_of(message)),
        !subs.contains_key(topic_of(message)) ==> inbound_step(subs, pending, message).2
            == ActionSpec::<A>::NoOp,
        inbound_step(subs, pending, message).0 == subs,
        inbound_step(subs, pending, message).1 == pending,
{
}

} // verus!
