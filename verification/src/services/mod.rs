//! The services: what they answer, what they keep and what they log.
pub mod api;
pub mod backend;
pub mod logs;
pub mod players;
