//! Structured rejection of requests whose session check failed, and the
//! decision of how such a rejection is answered.

use vstd::prelude::*;

verus! {

/// Why a session check rejected the request.
#[derive(Clone, Copy, Debug, PartialEq, Eq, Structural)]
pub enum SessionFailure {
    /// The session exists but was superseded by a newer login.
    Invalid,
    /// The session is unknown or expired.
    SessionNotFound,
}

/// The rejection cause carried in a rejection reply.
#[derive(Clone, Copy, Debug, PartialEq, Eq, Structural)]
pub enum SessionFilterRejection {
    NoRejection,
    Invalid,
    SessionNotFound,
}

/// The structured payload of a rejection reply.
#[derive(Clone, Copy, Debug, PartialEq, Eq, Structural)]
pub struct RejectionResponse {
    pub session_filter_rejection: SessionFilterRejection,
}

/// Status code of a reply that reports a session failure: accepted, with
/// the cause in the payload.
pub const STATUS_SESSION_REJECTION: u16 = 202;

/// Status code of a reply to a rejection this module does not understand.
pub const STATUS_UNHANDLED_REJECTION: u16 = 500;

/// Decides the reply for a rejected request: a recognized session failure
/// is answered with an accepted status and its cause; anything else with
/// a generic server error and an empty payload.
pub fn handle_rejection(failure: Option<SessionFailure>) -> (r: (RejectionResponse, u16))
    ensures
        match failure {
            Some(SessionFailure::Invalid) => r == (
                RejectionResponse { session_filter_rejection: SessionFilterRejection::Invalid },
                STATUS_SESSION_REJECTION,
            ),
            Some(SessionFailure::SessionNotFound) => r == (
                RejectionResponse {
                    session_filter_rejection: SessionFilterRejection::SessionNotFound,
                },
                STATUS_SESSION_REJECTION,
            ),
            None => r == (
                RejectionResponse {
                    session_filter_rejection: SessionFilterRejection::NoRejection,
                },
                STATUS_UNHANDLED_REJECTION,
            ),
        },
{
    match failure {
        Some(SessionFailure::Invalid) => (
            RejectionResponse { session_filter_rejection: SessionFilterRejection::Invalid },
            STATUS_SESSION_REJECTION,
        ),
        Some(SessionFailure::SessionNotFound) => (
            RejectionResponse { session_filter_rejection: SessionFilterRejection::SessionNotFound },
            STATUS_SESSION_REJECTION,
        ),
        None => (
            RejectionResponse { session_filter_rejection: SessionFilterRejection::NoRejection },
            STATUS_UNHANDLED_REJECTION,
        ),
    }
}

} // verus!
