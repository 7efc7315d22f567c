//! Decision logic of an agent that polls a Weir instance's `/events`
//! endpoint and forwards usage metadata to a backend, with a persisted
//! `(generation, cursor)`, restart detection and at-least-once delivery.

pub mod state;
pub mod weir;
pub mod backend;
pub mod config;
pub mod forwarder;
