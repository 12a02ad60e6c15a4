//! Core of a tutoring chat service: per-student, per-session conversation
//! histories and the query protocol that drives a remote completion provider.
//!
//! The session store and the orchestration logic live here, fully verified;
//! the HTTP layer and the provider transport are kept outside and talk to this
//! crate through plain values.

pub mod laws;
pub mod message;
pub mod models;
pub mod service;
pub mod session;
pub mod text;
