//! The multiplexer's state and its transitions.
//!
//! A single actor owns the transport, the subscription tables and a one-slot
//! outbound backpressure buffer. Each scheduling tick first drains queued
//! requests into wire commands (buffering at most one that the transport
//! would not accept), then drains inbound frames, moving each topic through
//! `Unsubscribed -> PendingSubscribe -> Subscribed -> Unsubscribed` and
//! forwarding published payloads to the topic's consumer.
//!
//! The driving loop itself needs an executor, channels and a transport, so
//! it lives outside this crate; everything it decides is decided here. The
//! state is generic over the consumer-channel handle `S` and the one-shot
//! acknowledgment signal `A`, which the logic stores and hands back but
//! never invokes.

use vstd::prelude::*;

use crate::bytes::copy_bytes;
use crate::error::PubsubError;
use crate::inbound::Inbound;
use crate::inbound::classify;
use crate::inbound::message_tag;
use crate::inbound::payload_of;
use crate::inbound::subscribe_ack_tag;
use crate::inbound::tag_of;
use crate::inbound::topic_of;
use crate::inbound::unsubscribe_ack_tag;
use crate::inbound::wellformed;
use crate::table::Table;
use crate::value::RespValue;
use crate::value::is_command;
use crate::value::subscribe_command;
use crate::value::subscribe_tag;
use crate::value::unsubscribe_command;
use crate::value::unsubscribe_tag;

verus! {

/// A request submitted by a handle: subscribe a fresh consumer channel and
/// one-shot acknowledgment signal to a topic, or unsubscribe a topic.
pub enum PubsubEvent<S, A> {
    /// Subscribe the consumer channel `S` to the topic, resolving `A` once
    /// the server acknowledges.
    Subscribe(Vec<u8>, S, A),
    /// Unsubscribe the topic; fire-and-forget.
    Unsubscribe(Vec<u8>),
}

/// What processing one inbound frame asks the driving loop to do.
pub enum InboundAction<A> {
    /// Fire this acknowledgment signal: its subscription is now live.
    Resolved(A),
    /// The last subscription was acknowledged as removed: the actor is done
    /// and must perform no further work.
    Terminated,
    /// Forward this payload to the topic's consumer channel.
    Deliver(Vec<u8>, RespValue),
    /// Nothing to do.
    NoOp,
}

/// The specification-level image of an `InboundAction`.
pub enum ActionSpec<A> {
    /// Fire this acknowledgment signal.
    Resolved(A),
    /// The actor reached its terminal state.
    Terminated,
    /// Forward this payload to this topic's consumer channel.
    Deliver(Seq<u8>, RespValue),
    /// Nothing to do.
    NoOp,
}

/// The specification-level image of an `InboundAction`.
pub open spec fn action_view<A>(act: InboundAction<A>) -> ActionSpec<A> {
    match act {
        InboundAction::Resolved(a) => ActionSpec::Resolved(a),
        InboundAction::Terminated => ActionSpec::Terminated,
        InboundAction::Deliver(t, p) => ActionSpec::Deliver(t@, p),
        InboundAction::NoOp => ActionSpec::NoOp,
    }
}

/// How one well-formed inbound frame transforms the subscription tables, and
/// what it asks the driving loop to do:
///
/// - a subscribe acknowledgment moves its topic's entry from pending to
///   live and asks for the acknowledgment signal to be fired; for a topic
///   not pending it changes nothing;
/// - an unsubscribe acknowledgment removes its topic's live entry, and asks
///   for termination exactly when that removal emptied the table; for an
///   untracked topic it changes nothing;
/// - a published message changes nothing and asks for delivery exactly when
///   its topic is live;
/// - a frame with any other tag changes nothing.
pub open spec fn inbound_step<S, A>(
    subs: Map<Seq<u8>, S>,
    pending: Map<Seq<u8>, (S, A)>,
    msg: RespValue,
) -> (Map<Seq<u8>, S>, Map<Seq<u8>, (S, A)>, ActionSpec<A>) {
    let t = topic_of(msg);
    if tag_of(msg) == subscribe_ack_tag() {
        if pending.contains_key(t) {
            (subs.insert(t, pending[t].0), pending.remove(t), ActionSpec::Resolved(pending[t].1))
        } else {
            (subs, pending, ActionSpec::NoOp)
        }
    } else if tag_of(msg) == unsubscribe_ack_tag() {
        if subs.contains_key(t) {
            (
                subs.remove(t),
                pending,
                if subs.remove(t) =~= Map::<Seq<u8>, S>::empty() {
                    ActionSpec::Terminated
                } else {
                    ActionSpec::NoOp
                },
            )
        } else {
            (subs, pending, ActionSpec::NoOp)
        }
    } else if tag_of(msg) == message_tag() {
        (
            subs,
            pending,
            if subs.contains_key(t) {
                ActionSpec::Deliver(t, payload_of(msg))
            } else {
                ActionSpec::NoOp
            },
        )
    } else {
        (subs, pending, ActionSpec::NoOp)
    }
}

/// The subscription state one actor owns: live subscriptions, subscriptions
/// awaiting the server's acknowledgment, and the one-slot buffer for an
/// outbound command the transport would not yet accept.
pub struct Multiplexer<S, A> {
    subscriptions: Table<S>,
    pending_subs: Table<(S, A)>,
    send_pending: Option<RespValue>,
}

impl<S, A> Multiplexer<S, A> {
    /// Both tables track each topic at most once.
    pub closed spec fn wf(&self) -> bool {
        &&& self.subscriptions.wf()
        &&& self.pending_subs.wf()
    }

    /// The live subscriptions: topic to consumer channel.
    pub closed spec fn subs(&self) -> Map<Seq<u8>, S> {
        self.subscriptions@
    }

    /// The issued but unacknowledged subscriptions: topic to consumer
    /// channel and acknowledgment signal.
    pub closed spec fn pending(&self) -> Map<Seq<u8>, (S, A)> {
        self.pending_subs@
    }

    /// The buffered outbound command, if the transport pushed back.
    pub closed spec fn buffered(&self) -> Option<RespValue> {
        self.send_pending
    }

    /// Creates an actor's state: no subscriptions, nothing pending, nothing
    /// buffered.
    pub fn new() -> (m: Multiplexer<S, A>)
        ensures
            m.wf(),
            m.subs() == Map::<Seq<u8>, S>::empty(),
            m.pending() == Map::<Seq<u8>, (S, A)>::empty(),
            m.buffered() is None,
    {
        Multiplexer {
            subscriptions: Table::new(),
            pending_subs: Table::new(),
            send_pending: None,
        }
    }

    /// Translates one queued request into its wire command.
    ///
    /// A `Subscribe` request moves its channel and signal into the pending
    /// table at this moment — before any send is attempted — and yields
    /// `["SUBSCRIBE", topic]`. An `Unsubscribe` request changes no state and
    /// yields `["UNSUBSCRIBE", topic]`: unsubscribing a topic that was never
    /// tracked still just emits the command, and the later acknowledgment
    /// for it is ignored.
    pub fn handle_event(&mut self, ev: PubsubEvent<S, A>) -> (cmd: RespValue)
        requires
            old(self).wf(),
        ensures
            final(self).wf(),
            final(self).subs() == old(self).subs(),
            final(self).buffered() == old(self).buffered(),
            ev matches PubsubEvent::Subscribe(t, s, a) ==> is_command(cmd, subscribe_tag(), t@)
                && final(self).pending() == old(self).pending().insert(t@, (s, a)),
            ev matches PubsubEvent::Unsubscribe(t) ==> is_command(cmd, unsubscribe_tag(), t@)
                && final(self).pending() == old(self).pending(),
    {
        match ev {
            PubsubEvent::Subscribe(topic, sink, signal) => {
                let key = copy_bytes(&topic);
                self.pending_subs.insert(key, (sink, signal));
                subscribe_command(topic)
            },
            PubsubEvent::Unsubscribe(topic) => unsubscribe_command(topic),
        }
    }

    /// Buffers the one outbound command the transport refused; the slot
    /// never holds more than one.
    pub fn buffer(&mut self, cmd: RespValue)
        requires
            old(self).buffered() is None,
        ensures
            final(self).wf() == old(self).wf(),
            final(self).subs() == old(self).subs(),
            final(self).pending() == old(self).pending(),
            final(self).buffered() == Some(cmd),
    {
        self.send_pending = Some(cmd);
    }

    /// Takes the buffered command, if any, for a retried send.
    pub fn take_buffered(&mut self) -> (r: Option<RespValue>)
        ensures
            final(self).wf() == old(self).wf(),
            final(self).subs() == old(self).subs(),
            final(self).pending() == old(self).pending(),
            final(self).buffered() is None,
            r == old(self).buffered(),
    {
        self.send_pending.take()
    }

    /// Borrows the consumer channel of a live topic.
    pub fn route(&self, topic: &Vec<u8>) -> (r: Option<&S>)
        requires
            self.wf(),
        ensures
            match r {
                Some(s) => self.subs().contains_key(topic@) && *s == self.subs()[topic@],
                None => !self.subs().contains_key(topic@),
            },
    {
        self.subscriptions.get(topic)
    }

    /// True when no subscription is live.
    pub fn no_live_subscriptions(&self) -> (r: bool)
        ensures
            r <==> self.subs() == Map::<Seq<u8>, S>::empty(),
    {
        self.subscriptions.is_empty()
    }

    /// Classifies one inbound frame and applies `inbound_step` to the
    /// state, or reports a protocol error — fatal to the whole actor — on a
    /// malformed frame, leaving the state unchanged.
    pub fn handle_inbound(&mut self, msg: RespValue) -> (r: Result<
        InboundAction<A>,
        PubsubError,
    >)
        requires
            old(self).wf(),
        ensures
            final(self).wf(),
            final(self).buffered() == old(self).buffered(),
            r is Ok <==> wellformed(msg),
            r matches Err(e) ==> e is Protocol
                && final(self).subs() == old(self).subs()
                && final(self).pending() == old(self).pending(),
            r matches Ok(act) ==> {
                let step = inbound_step(old(self).subs(), old(self).pending(), msg);
                &&& final(self).subs() == step.0
                &&& final(self).pending() == step.1
                &&& action_view(act) == step.2
            },
    {
        let inbound = match classify(msg) {
            Ok(inbound) => inbound,
            Err(e) => {
                return Err(e);
            },
        };
        match inbound {
            Inbound::SubscribeAck(topic) => {
                match self.pending_subs.remove(&topic) {
                    Some((sink, signal)) => {
                        self.subscriptions.insert(topic, sink);
                        Ok(InboundAction::Resolved(signal))
                    },
                    None => Ok(InboundAction::NoOp),
                }
            },
            Inbound::UnsubscribeAck(topic) => {
                match self.subscriptions.remove(&topic) {
                    Some(_) => {
                        if self.subscriptions.is_empty() {
                            Ok(InboundAction::Terminated)
                        } else {
                            Ok(InboundAction::NoOp)
                        }
                    },
                    None => Ok(InboundAction::NoOp),
                }
            },
            Inbound::Message(topic, payload) => {
                let live = match self.subscriptions.get(&topic) {
                    Some(_) => true,
                    None => false,
                };
                if live {
                    Ok(InboundAction::Deliver(topic, payload))
                } else {
                    Ok(InboundAction::NoOp)
                }
            },
            Inbound::Other => Ok(InboundAction::NoOp),
        }
    }
}

} // verus!
