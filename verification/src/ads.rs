//! Ad-network server-to-server callbacks.
//!
//! The HTTP endpoint lives in the surrounding application; the reply it
//! must produce is decided here.

use vstd::prelude::*;

verus! {

use vstd::string::StringExecFns;

/// Module marker for the ad-network callback feature.
pub struct IronsourceCallbackModule {}

/// The reply body acknowledging an ad callback: the echoed event name,
/// marked OK.  A callback without an event name is acknowledged with the
/// bare marker.
pub fn callback_reply(event: Option<String>) -> (r: String)
    ensures
        match event {
            Some(e) => r@ == e@ + ":OK"@,
            None => r@ == ":OK"@,
        },
{
    let mut s = match event {
        Some(e) => e,
        None => String::new(),
    };
    s.append(":OK");
    proof {
        if event is None {
            assert(s@ =~= ":OK"@);
        }
    }
    s
}

} // verus!
