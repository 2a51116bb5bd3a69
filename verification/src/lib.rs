//! Verified core of a small HTTP user service.
//!
//! The service answers two requests: a fixed greeting on the root path and a
//! user-creation request whose JSON payload is either accepted or rejected.
//! This crate holds everything the service decides: the greeting, the reply to
//! an accepted payload, and the classification of each way a payload can be
//! rejected. Listening, routing and (de)serialisation are left to the binary
//! that embeds it.

pub mod endpoint;
pub mod handlers;
pub mod identity;
pub mod model;
pub mod rejection;
pub mod status;
