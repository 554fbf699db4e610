//! In-process broadcast fan-out.
//!
//! The channel itself is runtime machinery owned by the surrounding
//! application; the library fixes the receiver interface subscribers
//! implement.

use vstd::prelude::*;

verus! {

/// Receiver of messages fanned out by a broadcast channel.
pub trait BroadcastReceiver<T> {
    fn receive(&self, msg: T);
}

} // verus!
