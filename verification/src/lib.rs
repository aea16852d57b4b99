//! A publish/subscribe to streaming-client relay.
//!
//! The library is the verified core of a fan-out relay: it keeps the
//! ordered registry of live client connections, decides which
//! connections survive a broadcast pass, and fixes the retry-free
//! failure policy of the subscriber, acceptor and relay loops. The
//! I/O around it (the message bus, the transport listener, threads)
//! lives outside the library and only hands plain values in and out.

pub mod decimal;
pub mod registry;
pub mod relay;
pub mod subscriber;
pub mod websocket;
