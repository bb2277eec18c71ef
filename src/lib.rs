//! A single-route echo service for credential pairs: the routing decision,
//! the reply to a decoded request body, and the JSON text of the reply.
pub mod credential;
pub mod json;
pub mod service;
