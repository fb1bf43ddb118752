//! Event routing, fan-out bookkeeping and metrics for a real-time event feed.
//!
//! The library holds the decisions of the feed service: how an event is
//! routed to a topic, which priority it has, how a topic's subscribers are
//! registered and attempted, how a socket session batches events, and how
//! the counters of the service evolve. The networking around it (HTTP,
//! WebSockets, channels) lives in the application crate.
pub mod text;
pub mod models;
pub mod error;
pub mod metrics;
pub mod hub;
pub mod delivery;
pub mod session;
pub mod broker;
pub mod api;
pub mod sim;
