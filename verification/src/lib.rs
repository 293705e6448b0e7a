//! Glue logic of a single-context script worker runtime.
//!
//! The script engine, the async scheduler and the HTTP server live outside this
//! crate. What is here are the decisions around them, stated over plain values:
//! the timer collection and its firing policy, the event loop's phases, the
//! handler registry, the message protocol and the fetch bridge.

pub mod codec;
pub mod eval;
pub mod event_loop;
pub mod events;
pub mod extensions;
pub mod fetch;
pub mod inspect;
pub mod message;
pub mod protocol;
pub mod state;
mod text;
pub mod timers;
