//! Supervision of a single tunnel helper process: the session state and its
//! start / stop / restart decisions, the scanning of the helper's output for
//! the public address, and the events published to the host.

pub mod bridge;
pub mod command;
pub mod error;
pub mod laws;
pub mod pattern;
pub mod session;
pub mod status;
pub mod supervisor;
pub mod text;
