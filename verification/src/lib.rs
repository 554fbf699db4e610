//! A modular backend platform library: user login and session lifecycle,
//! realtime pub/sub connection management, and the small verified stores
//! and decision procedures the surrounding server is built from.

pub mod ads;
pub mod apple_server_notify;
pub mod broadcast;
pub mod error;
pub mod iap;
pub mod pubsub;
pub mod push;
pub mod rejection;
pub mod sso;
pub mod status;
pub mod table;
pub mod userlogin;
