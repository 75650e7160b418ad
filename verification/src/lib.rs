//! Client core for a remote interactive-fiction service.
//!
//! The library covers the protocol layer: building the HTTP requests each
//! operation sends, encoding their JSON bodies, mapping response statuses to
//! the error taxonomy, and tracking the one piece of mutable state (the
//! current session identifier). Performing the network I/O itself is left to
//! the surrounding application, which feeds the transport outcomes back in.

pub mod client;
pub mod error;
pub mod json;
pub mod protocol;
pub mod text;
pub mod types;
