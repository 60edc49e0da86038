//! What the server makes of the Docker daemon's replies.

pub mod client;
pub mod stats;
pub mod laws;
