//! The message bridge between an embedded, script-capable content surface and
//! its host: the request model, the host-side handlers' decisions, the scripts
//! that carry answers back to the content, and the correlation of requests
//! that arrive from outside over a local socket.
//!
//! Everything here maps plain values to plain values. Spawning processes,
//! reading sockets and evaluating scripts are left to the program around it,
//! which feeds what happened into the state machines of this crate and carries
//! out what they answer.

pub mod text;
pub mod json;
pub mod error;
pub mod process;
pub mod script;
pub mod reply;
pub mod request;
pub mod correlation;
pub mod bridge;
pub mod gate;
pub mod stream;
pub mod args;
pub mod config;
