//! The decisions of a Nostr client about one relay: when to connect, what may be sent, what is
//! asked for and which events are handed out.
//!
//! Nothing here waits, dials or sleeps. Each function takes what happened and tells what is to be
//! done: an order to queue, a text to send, a connection to open or close. What is proved of any
//! course of events stands in [`laws`], what is taken from outside without proof in [`wire`].
pub mod document;
pub mod error;
pub mod laws;
pub mod lifecycle;
pub mod message;
pub mod pool;
pub mod query;
pub mod queue;
pub mod relay;
pub mod state;
pub mod subscription;
pub mod wire;
