//! The connection registry and the publish-side resource.
//!
//! The registry is the subscriber of the pub/sub backbone: it tracks, per
//! user id, the outbound channel of that user's one live connection, and
//! decides both where a published message goes and how an inbound socket
//! frame is handled.  The surrounding application owns the sockets: it
//! maps channel identifiers to real socket writers, runs one read loop
//! per connection, and carries out the decisions returned here.

use vstd::prelude::*;

verus! {

use crate::pubsub::Msg;
use crate::pubsub::PubSubPublish;
use crate::pubsub::RealtimeConnectionStatus;
use crate::table::Table;

/// Close code sent to clients when the server shuts down.
pub const CLOSE_SHUTDOWN_CODE: u16 = 4000;

/// A delivery decision: enqueue `msg` on the outbound channel `channel`.
pub struct Delivery {
    pub channel: u64,
    pub msg: Msg,
}

/// An inbound event observed by a connection's read loop.
pub enum WsEvent {
    /// A ping frame: the client signals liveness.
    Ping,
    /// A close frame: the client is done.
    Close,
    /// A text frame from the client.
    Text(String),
    /// A binary frame from the client.
    Binary(Vec<u8>),
    /// The transport failed.
    TransportError,
}

/// What the read loop must do with one inbound event.
pub struct FrameOutcome {
    /// Forward this payload to the registered client receiver.
    pub dispatch: Option<Msg>,
    /// Refresh the connection-state tracker for this user.
    pub refresh_presence: bool,
    /// Send a close frame with this code before stopping.
    pub close_code: Option<u16>,
    /// Leave the read loop, unregister and report `Disconnected`.
    pub disconnect: bool,
}

/// Registry of live connections, keyed by user id: the subscriber side of
/// the pub/sub backbone.  At most one connection is registered per user
/// id; registering a second one silently replaces the first.
pub struct PubSubSubscriberResource {
    shutdown: bool,
    channels: Table<String, u64>,
}

impl PubSubSubscriberResource {
    /// The registered connections: user id to outbound channel.
    pub closed spec fn channels(&self) -> Map<Seq<char>, u64> {
        self.channels@
    }

    /// Whether shutdown was requested.
    pub closed spec fn is_shutdown(&self) -> bool {
        self.shutdown
    }

    pub closed spec fn wf(&self) -> bool {
        self.channels.wf()
    }

    /// An empty registry.
    pub fn new() -> (r: Self)
        ensures
            r.wf(),
            r.channels() == Map::<Seq<char>, u64>::empty(),
            !r.is_shutdown(),
    {
        PubSubSubscriberResource { shutdown: false, channels: Table::new() }
    }

    /// Requests shutdown: every read loop will close its connection at
    /// its next inbound event.
    pub fn shutdown(&mut self)
        ensures
            final(self).wf() == old(self).wf(),
            final(self).is_shutdown(),
            final(self).channels() == old(self).channels(),
    {
        self.shutdown = true;
    }

    /// Number of live connections, for observability.
    pub fn count_connections(&self) -> (r: usize)
        requires
            self.wf(),
        ensures
            r == self.channels().dom().len(),
    {
        self.channels.len()
    }

    /// Registers the outbound channel of a fresh connection for
    /// `user_id`, replacing whatever channel was registered before; the
    /// prior connection is not closed or notified.  Reports the
    /// `Connected` transition to forward to the tracker and the client
    /// receiver.
    pub fn register(&mut self, user_id: &str, channel: u64) -> (r: RealtimeConnectionStatus)
        requires
            old(self).wf(),
        ensures
            final(self).wf(),
            final(self).channels() == old(self).channels().insert(user_id@, channel),
            final(self).is_shutdown() == old(self).is_shutdown(),
            r == RealtimeConnectionStatus::Connected,
    {
        self.channels.insert(user_id.to_owned(), channel);
        RealtimeConnectionStatus::Connected
    }

    /// Removes the registry entry for `user_id`, if any, when its read
    /// loop exits.  Reports the `Disconnected` transition to forward.
    pub fn unregister(&mut self, user_id: &str) -> (r: RealtimeConnectionStatus)
        requires
            old(self).wf(),
        ensures
            final(self).wf(),
            final(self).channels() == old(self).channels().remove(user_id@),
            final(self).is_shutdown() == old(self).is_shutdown(),
            r == RealtimeConnectionStatus::Disconnected,
    {
        self.channels.remove(&user_id.to_owned());
        RealtimeConnectionStatus::Disconnected
    }

    /// Delivery of a text message published to `topic`: enqueued on the
    /// channel registered for that user id, silently dropped when none
    /// is.  Never fails and leaves the registry untouched.
    pub fn on_text(&self, topic: &str, payload: String) -> (r: Option<Delivery>)
        requires
            self.wf(),
        ensures
            self.channels().contains_key(topic@) ==> r == Some(
                Delivery { channel: self.channels()[topic@], msg: Msg::Text(payload) },
            ),
            !self.channels().contains_key(topic@) ==> r is None,
    {
        match self.channels.get(&topic.to_owned()) {
            Some(channel) => Some(Delivery { channel: *channel, msg: Msg::Text(payload) }),
            None => None,
        }
    }

    /// Delivery of a binary message published to `topic`; as `on_text`.
    pub fn on_binary(&self, topic: &str, payload: Vec<u8>) -> (r: Option<Delivery>)
        requires
            self.wf(),
        ensures
            self.channels().contains_key(topic@) ==> r == Some(
                Delivery { channel: self.channels()[topic@], msg: Msg::Binary(payload) },
            ),
            !self.channels().contains_key(topic@) ==> r is None,
    {
        match self.channels.get(&topic.to_owned()) {
            Some(channel) => Some(Delivery { channel: *channel, msg: Msg::Binary(payload) }),
            None => None,
        }
    }

    /// Decides how one inbound event is handled.  A ping refreshes the
    /// tracker; a close frame or transport error ends the loop; a text or
    /// binary frame is forwarded to the client receiver.  After any event
    /// that does not itself end the loop, a requested shutdown closes the
    /// connection with `CLOSE_SHUTDOWN_CODE`.  Registry membership never
    /// changes here.
    pub fn on_frame(&self, event: WsEvent) -> (r: FrameOutcome)
        ensures
            match event {
                WsEvent::Ping => r == (FrameOutcome {
                    dispatch: None,
                    refresh_presence: true,
                    close_code: if self.is_shutdown() {
                        Some(CLOSE_SHUTDOWN_CODE)
                    } else {
                        None
                    },
                    disconnect: self.is_shutdown(),
                }),
                WsEvent::Close => r == (FrameOutcome {
                    dispatch: None,
                    refresh_presence: false,
                    close_code: None,
                    disconnect: true,
                }),
                WsEvent::Text(s) => r == (FrameOutcome {
                    dispatch: Some(Msg::Text(s)),
                    refresh_presence: false,
                    close_code: if self.is_shutdown() {
                        Some(CLOSE_SHUTDOWN_CODE)
                    } else {
                        None
                    },
                    disconnect: self.is_shutdown(),
                }),
                WsEvent::Binary(b) => r == (FrameOutcome {
                    dispatch: Some(Msg::Binary(b)),
                    refresh_presence: false,
                    close_code: if self.is_shutdown() {
                        Some(CLOSE_SHUTDOWN_CODE)
                    } else {
                        None
                    },
                    disconnect: self.is_shutdown(),
                }),
                WsEvent::TransportError => r == (FrameOutcome {
                    dispatch: None,
                    refresh_presence: false,
                    close_code: None,
                    disconnect: true,
                }),
            },
    {
        let close_code: Option<u16> = if self.shutdown {
            Some(CLOSE_SHUTDOWN_CODE)
        } else {
            None
        };
        match event {
            WsEvent::Ping => FrameOutcome {
                dispatch: None,
                refresh_presence: true,
                close_code,
                disconnect: self.shutdown,
            },
            WsEvent::Close => FrameOutcome {
                dispatch: None,
                refresh_presence: false,
                close_code: None,
                disconnect: true,
            },
            WsEvent::Text(s) => FrameOutcome {
                dispatch: Some(Msg::Text(s)),
                refresh_presence: false,
                close_code,
                disconnect: self.shutdown,
            },
            WsEvent::Binary(b) => FrameOutcome {
                dispatch: Some(Msg::Binary(b)),
                refresh_presence: false,
                close_code,
                disconnect: self.shutdown,
            },
            WsEvent::TransportError => FrameOutcome {
                dispatch: None,
                refresh_presence: false,
                close_code: None,
                disconnect: true,
            },
        }
    }
}

/// Law: connection registry exclusivity.  When a user opens a second
/// connection while the first is still registered, the registry entry is
/// replaced, so a message published to that user id afterwards is
/// delivered to the second connection's channel only; the first
/// connection is not notified.
pub proof fn lemma_registry_exclusivity(
    m: Map<Seq<char>, u64>,
    uid: Seq<char>,
    c1: u64,
    c2: u64,
)
    ensures
        m.insert(uid, c1).insert(uid, c2).contains_key(uid),
        m.insert(uid, c1).insert(uid, c2)[uid] == c2,
{
}

/// The publish-side resource: a thin handle the host application uses to
/// send into whichever backbone it was built over.
pub struct PubSubPublishResource<P> {
    publish: P,
}

impl<P: PubSubPublish> PubSubPublishResource<P> {
    /// A publish handle over the given backbone.
    pub fn new(publish: P) -> (r: Self) {
        PubSubPublishResource { publish }
    }

    /// Publishes a text message to `topic`.
    pub fn publish_text(&mut self, topic: &str, payload: &str) {
        self.publish.publish_text(topic, payload);
    }

    /// Publishes a binary message to `topic`.
    pub fn publish_binary(&mut self, topic: &str, payload: Vec<u8>) {
        self.publish.publish_binary(topic, payload);
    }
}

} // verus!
