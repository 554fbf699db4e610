//! The liveness probe.

use vstd::prelude::*;

verus! {

/// Module marker for the status endpoint, which answers every probe with
/// a plain success so that a deployment can check the server is running.
pub struct Status {}

/// The status code a liveness probe is answered with.
pub fn status_reply() -> (r: u16)
    ensures
        r == 200,
{
    200
}

} // verus!
