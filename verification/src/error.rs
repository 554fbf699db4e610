//! The error values surfaced by the library's resources and stores.

use vstd::prelude::*;

verus! {

/// Failure outcomes of the library's operations.
///
/// `AuthenticationFailed` covers an unknown user id or a secret mismatch;
/// `Conflict` is an optimistic-concurrency rejection of a stale save;
/// `EventFailed` reports that a registered event listener returned an error
/// after the primary operation had already been committed;
/// `UnknownUser` is returned when a single-sign-on entry points at a user
/// id that the user store does not hold;
/// `NotFound` reports a lookup of a record the store does not hold;
/// `NotImplemented` marks an operation a store does not support.
#[derive(Clone, Copy, Debug, PartialEq, Eq, Structural)]
pub enum Error {
    AuthenticationFailed,
    Conflict,
    EventFailed,
    UnknownUser,
    NotFound,
    NotImplemented,
}

} // verus!
