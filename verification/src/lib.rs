//! A multi-room text chat and announcement engine.
//!
//! The crate holds the decisions of three cooperating actors (the service
//! registry, a room, and a participant's client) as sequential state machines:
//! each takes a command and yields the next state together with the effects
//! that a runtime has to carry out (frames to write, peers to notify, webhook
//! payloads to post).

pub mod config;
pub mod handlers;
pub mod misc;
pub mod model;
pub mod service;
