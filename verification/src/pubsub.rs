//! Realtime pub/sub: connection registry, connection-state tracking and
//! the publish/subscribe backbone interfaces.
//!
//! Topics are user ids.  A message published to a topic is delivered to
//! the single connection registered for that user id, or silently dropped
//! when none is registered.

pub mod in_memory;
pub mod relay;
pub mod resources;

use vstd::prelude::*;

verus! {

/// The tagged union of realtime payloads: a text frame or a binary frame.
/// It is both what the registry enqueues to a connection and the unit the
/// cross-process relay serializes.
pub enum Msg {
    Text(String),
    Binary(Vec<u8>),
}

/// The abstract value of a `Msg`.
pub enum MsgView {
    Text(Seq<char>),
    Binary(Seq<u8>),
}

impl View for Msg {
    type V = MsgView;

    open spec fn view(&self) -> MsgView {
        match self {
            Msg::Text(s) => MsgView::Text(s@),
            Msg::Binary(b) => MsgView::Binary(b@),
        }
    }
}

impl Clone for Msg {
    fn clone(&self) -> (r: Self)
        ensures
            r@ == self@,
    {
        match self {
            Msg::Text(s) => Msg::Text(s.clone()),
            Msg::Binary(b) => Msg::Binary(b.clone()),
        }
    }
}

/// A connection's status transition, as reported to the host application.
#[derive(Clone, Copy, Debug, PartialEq, Eq, Structural)]
pub enum RealtimeConnectionStatus {
    Connected,
    Disconnected,
}

/// Tracks whether a given user id is currently connected, implemented
/// once per deployment shape (an in-process set, or an expiring key in a
/// shared store for distributed deployments).
pub trait ConnectionState {
    fn update_status(&mut self, user_id: &str, connected: bool);

    fn is_connected(&self, user_id: &str) -> bool;
}

/// Receiver of messages arriving over the pub/sub backbone.
pub trait PubSubReceiver {
    fn on_text(&mut self, topic: &str, payload: &str);

    fn on_binary(&mut self, topic: &str, payload: Vec<u8>);
}

/// Lazy registration of the receiver of pub/sub messages.
pub trait PubSubSubcribable<R> {
    fn subscribe(&mut self, receiver: R);
}

/// Generic sending of messages into the pub/sub system.
pub trait PubSubPublish {
    fn publish_text(&mut self, topic: &str, payload: &str);

    fn publish_binary(&mut self, topic: &str, payload: Vec<u8>);
}

/// Receiver of data sent by connected clients, implemented by the host
/// application: inbound frames and connection status transitions.
pub trait RealtimeClientReceive {
    fn receive_text(&self, user_id: &str, payload: &str);

    fn receive_binary(&self, user_id: &str, payload: &[u8]);

    fn connection(&self, user_id: &str, status: RealtimeConnectionStatus);
}

/// Module marker for the realtime pub/sub feature.
pub struct PubSubModule {}

} // verus!
