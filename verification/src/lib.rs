//! Adapter layer that lets a pluggable consensus engine participate in a
//! validator's block-agreement protocol over a message-oriented connection.
//!
//! The verified core models the protocol itself: the registration handshake
//! with bounded-retry backoff, the activation fallback, the steady-state
//! dispatch step that translates wire notifications into domain events, and
//! the stop handle used for orderly shutdown. Transport I/O (sockets, channel
//! plumbing, threads) stays outside, behind small port traits.

pub mod activation;
pub mod convert;
pub mod dispatch;
pub mod driver;
pub mod engine;
pub mod errors;
pub mod messages;
pub mod model;
pub mod ports;
pub mod register;
