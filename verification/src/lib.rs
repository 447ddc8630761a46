//! Client for Agent Socket, a real-time network for agents to talk to each
//! other over WebSockets.
//!
//! The library holds everything that the client decides and computes, and
//! touches neither the network nor the clock. [`connect`] makes an [`Agent`]
//! that is not started yet; [`Agent::step`] takes in what happened to its
//! connection and says what to do next: dial, wait for a frame, send, hang up,
//! sleep or stop. [`Agent::send`] does the same for one outgoing message, and
//! [`api::Client`] says which HTTP request each operation of the REST API makes.
//! The crate around the library does what it is told and reports back.
//!
//! [`laws`] states what holds of the client as a whole, [`step_laws`] what one
//! event does, and [`value_laws`] what texts, frames, requests, errors and
//! delays are made of.

pub mod agent;
pub mod api;
pub mod backoff;
pub mod config;
pub mod dial;
pub mod duration;
pub mod errors;
pub mod json;
pub mod laws;
pub mod message;
pub mod step_laws;
pub mod supervisor;
pub mod text;
pub mod types;
pub mod value_laws;
pub mod ws;

pub use agent::{connect, Agent};
pub use config::{Config, DEFAULT_ENDPOINT};
pub use duration::Duration;
pub use errors::{ApiError, Error, Result, ServerError};
pub use message::Message;
