//! Apple server-to-server notifications.
//!
//! The webhook endpoint and the payload deserialization are application
//! glue around the store vendor's SDK types; the library only marks the
//! module.

use vstd::prelude::*;

verus! {

/// Module marker for the Apple server-notification webhook.
pub struct AppleServerNotificationModule {}

} // verus!
