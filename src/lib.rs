//! Job resolution and agent dispatch for a small build orchestration server.
//!
//! A project's job configuration is resolved once per execution, matched
//! against the capabilities that every agent advertised at startup, and the
//! command batch is dispatched to each agent that qualifies.
pub mod capability;
pub mod config;
pub mod dispatch;
pub mod fanout;
pub mod orchestrate;
