//! The single-process pub/sub backbone and connection-state tracker.
//!
//! In one process the backbone degenerates to point-to-point delivery:
//! publishing hands the message straight to the one registered receiver,
//! the connection registry.  The tracker is a plain set of currently
//! connected user ids.

use vstd::prelude::*;

verus! {

use crate::pubsub::Msg;
use crate::pubsub::resources::Delivery;
use crate::pubsub::resources::PubSubSubscriberResource;
use crate::table::Table;

/// In-memory backbone: tracks which user ids are connected, and fans a
/// published message out to the registry passed at the call.
pub struct InMemoryPubSub {
    connected: Table<String, bool>,
}

impl View for InMemoryPubSub {
    type V = Set<Seq<char>>;

    /// The set of user ids currently marked connected.
    closed spec fn view(&self) -> Set<Seq<char>> {
        self.connected@.dom()
    }
}

impl InMemoryPubSub {
    pub closed spec fn wf(&self) -> bool {
        self.connected.wf()
    }

    /// An empty backbone: nobody connected.
    pub fn new() -> (r: Self)
        ensures
            r.wf(),
            r@ == Set::<Seq<char>>::empty(),
    {
        let r = InMemoryPubSub { connected: Table::new() };
        proof {
            assert(r@ =~= Set::<Seq<char>>::empty());
        }
        r
    }

    /// Marks `user_id` connected or disconnected.
    pub fn update_status(&mut self, user_id: &str, connected: bool)
        requires
            old(self).wf(),
        ensures
            final(self).wf(),
            connected ==> final(self)@ == old(self)@.insert(user_id@),
            !connected ==> final(self)@ == old(self)@.remove(user_id@),
    {
        if connected {
            self.connected.insert(user_id.to_owned(), true);
        } else {
            self.connected.remove(&user_id.to_owned());
        }
    }

    /// Whether `user_id` is currently marked connected.
    pub fn is_connected(&self, user_id: &str) -> (r: bool)
        requires
            self.wf(),
        ensures
            r == self@.contains(user_id@),
    {
        self.connected.contains_key(&user_id.to_owned())
    }

    /// Publishes a text message to `topic` over the local backbone: the
    /// message goes straight to the one registered receiver, whose
    /// delivery decision is returned.  Publishing to a topic with no
    /// registered connection drops the message and never fails.
    pub fn publish_text(
        &self,
        receiver: &PubSubSubscriberResource,
        topic: &str,
        payload: String,
    ) -> (r: Option<Delivery>)
        requires
            receiver.wf(),
        ensures
            receiver.channels().contains_key(topic@) ==> r == Some(
                Delivery { channel: receiver.channels()[topic@], msg: Msg::Text(payload) },
            ),
            !receiver.channels().contains_key(topic@) ==> r is None,
    {
        receiver.on_text(topic, payload)
    }

    /// Publishes a binary message to `topic` over the local backbone; as
    /// `publish_text`.
    pub fn publish_binary(
        &self,
        receiver: &PubSubSubscriberResource,
        topic: &str,
        payload: Vec<u8>,
    ) -> (r: Option<Delivery>)
        requires
            receiver.wf(),
        ensures
            receiver.channels().contains_key(topic@) ==> r == Some(
                Delivery { channel: receiver.channels()[topic@], msg: Msg::Binary(payload) },
            ),
            !receiver.channels().contains_key(topic@) ==> r is None,
    {
        receiver.on_binary(topic, payload)
    }
}

impl Default for InMemoryPubSub {
    /// An empty backbone: nobody connected.
    fn default() -> (r: Self)
        ensures
            r.wf(),
            r@ == Set::<Seq<char>>::empty(),
    {
        Self::new()
    }
}

} // verus!
