//! A minimal TCP liveness/readiness responder: the request-line handling,
//! path classification and status-line rendering, verified.

pub mod text;
pub mod classify;
pub mod response;
pub mod config;
pub mod laws;
